use vstd::prelude::*;
use crate::text::same_text;

verus! {

/// The text of each string of a list, in order.
pub open spec fn texts(v: Seq<String>) -> Seq<Seq<char>> {
    v.map_values(|s: String| s@)
}

/// `s` with every entry equal to `x` taken out, the others kept in order.
pub open spec fn without(s: Seq<Seq<char>>, x: Seq<char>) -> Seq<Seq<char>>
    decreases s.len(),
{
    if s.len() == 0 {
        s
    } else if s.last() == x {
        without(s.drop_last(), x)
    } else {
        without(s.drop_last(), x).push(s.last())
    }
}

/// The first occurrence of each entry of `s`, in order.
pub open spec fn first_occurrences(s: Seq<Seq<char>>) -> Seq<Seq<char>>
    decreases s.len(),
{
    if s.len() == 0 {
        s
    } else if first_occurrences(s.drop_last()).contains(s.last()) {
        first_occurrences(s.drop_last())
    } else {
        first_occurrences(s.drop_last()).push(s.last())
    }
}

/// The entry that an operator's request to track `raw` adds, once trimmed.
pub uninterp spec fn trimmed(s: Seq<char>) -> Seq<char>;

/// Relies on `str::trim`: the text without its leading and trailing whitespace,
/// which depends on the characters alone.
#[verifier::external_body]
fn trim_text(s: &str) -> (r: String)
    ensures
        r@ == trimmed(s@),
{
    s.trim().to_string()
}

/// Where `item` stands in `list`, if it does.
pub fn position_of(list: &Vec<String>, item: &str) -> (r: Option<usize>)
    ensures
        match r {
            Some(i) => i < list@.len() && list@[i as int]@ == item@,
            None => !texts(list@).contains(item@),
        },
{
    let mut i: usize = 0;
    while i < list.len()
        invariant
            i <= list@.len(),
            forall|j: int| 0 <= j < i ==> list@[j]@ != item@,
        decreases list@.len() - i,
    {
        if same_text(list[i].as_str(), item) {
            return Some(i);
        }
        i = i + 1;
    }
    proof {
        if texts(list@).contains(item@) {
            let k = choose|k: int| 0 <= k < texts(list@).len() && texts(list@)[k] == item@;
            assert(list@[k]@ == item@);
        }
    }
    None
}

proof fn lemma_texts_push(v: Seq<String>, s: String)
    ensures
        texts(v.push(s)) == texts(v).push(s@),
{
    assert(texts(v.push(s)) =~= texts(v).push(s@));
}

proof fn lemma_texts_take_last(v: Seq<String>, i: int)
    requires
        0 <= i < v.len(),
    ensures
        texts(v.take(i + 1)).drop_last() == texts(v.take(i)),
        texts(v.take(i + 1)).last() == v[i]@,
{
    assert(texts(v.take(i + 1)).drop_last() =~= texts(v.take(i)));
}

proof fn lemma_without_excludes(s: Seq<Seq<char>>, x: Seq<char>)
    ensures
        !without(s, x).contains(x),
        forall|y: Seq<char>| without(s, x).contains(y) ==> s.contains(y),
    decreases s.len(),
{
    if s.len() > 0 {
        lemma_without_excludes(s.drop_last(), x);
        let w = without(s.drop_last(), x);
        assert forall|y: Seq<char>| without(s, x).contains(y) implies s.contains(y) by {
            if w.contains(y) {
                assert(s.drop_last().contains(y));
                let j = choose|j: int| 0 <= j < s.drop_last().len() && s.drop_last()[j] == y;
                assert(s.drop_last()[j] == s[j]);
            } else {
                assert(without(s, x) == w.push(s.last()));
                let k = choose|k: int| 0 <= k < without(s, x).len() && without(s, x)[k] == y;
                assert(y == s.last());
                assert(s[s.len() - 1] == y);
            }
        }
        if s.last() != x {
            assert forall|k: int| 0 <= k < w.push(s.last()).len() implies w.push(s.last())[k] != x by {
                if k < w.len() {
                    assert(w[k] != x);
                }
            }
        }
    }
}

proof fn lemma_without_no_duplicates(s: Seq<Seq<char>>, x: Seq<char>)
    requires
        s.no_duplicates(),
    ensures
        without(s, x).no_duplicates(),
    decreases s.len(),
{
    if s.len() > 0 {
        let d = s.drop_last();
        assert(d.no_duplicates()) by {
            assert forall|i: int, j: int| 0 <= i < d.len() && 0 <= j < d.len() && i != j implies d[i] != d[j] by {
                assert(d[i] == s[i] && d[j] == s[j]);
            }
        }
        lemma_without_no_duplicates(d, x);
        lemma_without_excludes(d, x);
        let w = without(d, x);
        if s.last() != x {
            assert(!d.contains(s.last())) by {
                if d.contains(s.last()) {
                    let k = choose|k: int| 0 <= k < d.len() && d[k] == s.last();
                    assert(s[k] == s[s.len() - 1]);
                }
            }
            assert(!w.contains(s.last()));
            assert forall|i: int, j: int| 0 <= i < w.push(s.last()).len() && 0 <= j < w.push(s.last()).len() && i != j
                implies w.push(s.last())[i] != w.push(s.last())[j] by {
                if i < w.len() && j < w.len() {
                } else if i < w.len() {
                    assert(w.contains(w[i]));
                } else {
                    assert(w.contains(w[j]));
                }
            }
        }
    }
}

proof fn lemma_first_occurrences_no_duplicates(s: Seq<Seq<char>>)
    ensures
        first_occurrences(s).no_duplicates(),
    decreases s.len(),
{
    if s.len() > 0 {
        lemma_first_occurrences_no_duplicates(s.drop_last());
        let d = first_occurrences(s.drop_last());
        if !d.contains(s.last()) {
            assert forall|i: int, j: int| 0 <= i < d.push(s.last()).len() && 0 <= j < d.push(s.last()).len() && i != j
                implies d.push(s.last())[i] != d.push(s.last())[j] by {
                if i < d.len() && j < d.len() {
                } else if i < d.len() {
                    assert(d.contains(d[i]));
                } else {
                    assert(d.contains(d[j]));
                }
            }
        }
    }
}

/// Removes every entry equal to `item`, keeping the others in order.
pub fn remove_entries(list: &mut Vec<String>, item: &str)
    ensures
        texts(final(list)@) == without(texts(old(list)@), item@),
{
    let mut kept: Vec<String> = Vec::new();
    let mut i: usize = 0;
    let ghost start = list@;
    while i < list.len()
        invariant
            list@ == start,
            i <= list@.len(),
            texts(kept@) == without(texts(list@.take(i as int)), item@),
        decreases list@.len() - i,
    {
        proof {
            lemma_texts_take_last(list@, i as int);
        }
        let entry = &list[i];
        if !same_text(entry.as_str(), item) {
            let copy = entry.clone();
            proof {
                lemma_texts_push(kept@, copy);
            }
            kept.push(copy);
        }
        i = i + 1;
    }
    assert(list@.take(list@.len() as int) =~= list@);
    *list = kept;
}

/// Copies each string of a list, in order.
pub fn copy_list(list: &Vec<String>) -> (r: Vec<String>)
    ensures
        texts(r@) == texts(list@),
{
    let mut out: Vec<String> = Vec::new();
    let mut i: usize = 0;
    while i < list.len()
        invariant
            i <= list@.len(),
            texts(out@) == texts(list@.take(i as int)),
        decreases list@.len() - i,
    {
        proof {
            lemma_texts_take_last(list@, i as int);
        }
        let copy = list[i].clone();
        proof {
            lemma_texts_push(out@, copy);
            assert(texts(list@.take(i as int + 1)) =~= texts(list@.take(i as int)).push(copy@));
        }
        out.push(copy);
        i = i + 1;
    }
    assert(list@.take(list@.len() as int) =~= list@);
    out
}

/// The tracked addresses: distinct entries, kept in the order they were added.
pub struct AddressBook {
    addresses: Vec<String>,
}

impl View for AddressBook {
    type V = Seq<Seq<char>>;

    closed spec fn view(&self) -> Seq<Seq<char>> {
        texts(self.addresses@)
    }
}

impl AddressBook {
    pub open spec fn wf(&self) -> bool {
        self@.no_duplicates()
    }

    /// An empty book.
    pub fn new() -> (r: AddressBook)
        ensures
            r@ == Seq::<Seq<char>>::empty(),
            r.wf(),
    {
        let r = AddressBook { addresses: Vec::new() };
        assert(r@ =~= Seq::<Seq<char>>::empty());
        r
    }

    /// A book holding the first occurrence of each entry of a stored list, in order.
    pub fn from_list(list: Vec<String>) -> (r: AddressBook)
        ensures
            r@ == first_occurrences(texts(list@)),
            r.wf(),
    {
        let mut r = AddressBook::new();
        let mut i: usize = 0;
        while i < list.len()
            invariant
                i <= list@.len(),
                r@ == first_occurrences(texts(list@.take(i as int))),
            decreases list@.len() - i,
        {
            proof {
                lemma_texts_take_last(list@, i as int);
            }
            let entry = &list[i];
            let found = position_of(&r.addresses, entry.as_str());
            proof {
                if let Some(k) = found {
                    assert(r@[k as int] == entry@);
                }
            }
            if found.is_none() {
                let copy = entry.clone();
                proof {
                    lemma_texts_push(r.addresses@, copy);
                }
                r.addresses.push(copy);
            }
            i = i + 1;
        }
        assert(list@.take(list@.len() as int) =~= list@);
        proof {
            lemma_first_occurrences_no_duplicates(texts(list@));
        }
        r
    }

    /// Tracks `raw` once trimmed, unless that is empty or tracked already.
    /// Returns whether the entry was added.
    pub fn add(&mut self, raw: &str) -> (r: bool)
        requires
            old(self).wf(),
        ensures
            final(self).wf(),
            r == (trimmed(raw@).len() > 0 && !old(self)@.contains(trimmed(raw@))),
            r ==> final(self)@ == old(self)@.push(trimmed(raw@)),
            !r ==> final(self)@ == old(self)@,
    {
        let entry = trim_text(raw);
        if entry.as_str().is_empty() {
            return false;
        }
        let found = position_of(&self.addresses, entry.as_str());
        if let Some(k) = found {
            assert(self@[k as int] == entry@);
            return false;
        }
        let ghost before = self@;
        proof {
            lemma_texts_push(self.addresses@, entry);
        }
        self.addresses.push(entry);
        proof {
            let s = self@;
            assert forall|i: int, j: int| 0 <= i < s.len() && 0 <= j < s.len() && i != j implies s[i] != s[j] by {
                if i < before.len() && j < before.len() {
                } else if i < before.len() {
                    assert(before.contains(before[i]));
                } else {
                    assert(before.contains(before[j]));
                }
            }
        }
        true
    }

    /// Stops tracking `address`.
    pub fn remove(&mut self, address: &str)
        requires
            old(self).wf(),
        ensures
            final(self).wf(),
            final(self)@ == without(old(self)@, address@),
    {
        remove_entries(&mut self.addresses, address);
        proof {
            lemma_without_no_duplicates(old(self)@, address@);
        }
    }

    /// The tracked addresses, in order.
    pub fn entries(&self) -> (r: Vec<String>)
        ensures
            texts(r@) == self@,
    {
        copy_list(&self.addresses)
    }

    pub fn len(&self) -> (r: usize)
        ensures
            r == self@.len(),
    {
        self.addresses.len()
    }
}

/// The recorded attestation transaction ids, oldest first.
pub struct TransactionLog {
    ids: Vec<String>,
}

impl View for TransactionLog {
    type V = Seq<Seq<char>>;

    closed spec fn view(&self) -> Seq<Seq<char>> {
        texts(self.ids@)
    }
}

impl TransactionLog {
    pub fn new() -> (r: TransactionLog)
        ensures
            r@ == Seq::<Seq<char>>::empty(),
    {
        let r = TransactionLog { ids: Vec::new() };
        assert(r@ =~= Seq::<Seq<char>>::empty());
        r
    }

    /// A log holding a stored list as it stands.
    pub fn from_list(list: Vec<String>) -> (r: TransactionLog)
        ensures
            r@ == texts(list@),
    {
        TransactionLog { ids: list }
    }

    /// Appends the id of a broadcast transaction.
    pub fn record(&mut self, id: String)
        ensures
            final(self)@ == old(self)@.push(id@),
    {
        proof {
            lemma_texts_push(self.ids@, id);
        }
        self.ids.push(id);
    }

    /// Drops every record of `id`, at an operator's request.
    pub fn remove(&mut self, id: &str)
        ensures
            final(self)@ == without(old(self)@, id@),
    {
        remove_entries(&mut self.ids, id);
    }

    /// The recorded ids, oldest first.
    pub fn entries(&self) -> (r: Vec<String>)
        ensures
            texts(r@) == self@,
    {
        copy_list(&self.ids)
    }

    pub fn len(&self) -> (r: usize)
        ensures
            r == self@.len(),
    {
        self.ids.len()
    }
}

} // verus!
