use vstd::prelude::*;
use crate::registry::{trimmed, without, AddressBook, TransactionLog};
use crate::text::same_text;

verus! {

/// What an operator's form on the address page asks for.
#[derive(Clone, Copy, Debug, PartialEq, Eq, Structural)]
pub enum FormAction {
    Add,
    Remove,
    RunTask,
    Other,
}

pub open spec fn action_of(action: Seq<char>) -> FormAction {
    if action == "add"@ {
        FormAction::Add
    } else if action == "remove"@ {
        FormAction::Remove
    } else if action == "run_task"@ {
        FormAction::RunTask
    } else {
        FormAction::Other
    }
}

/// Reads the form's `action` field.
pub fn parse_action(action: &str) -> (r: FormAction)
    ensures
        r == action_of(action@),
{
    if same_text(action, "add") {
        FormAction::Add
    } else if same_text(action, "remove") {
        FormAction::Remove
    } else if same_text(action, "run_task") {
        FormAction::RunTask
    } else {
        FormAction::Other
    }
}

/// The address page's form.
pub struct FormData {
    pub address: Option<String>,
    /// `add`, `remove` or `run_task`.
    pub action: String,
}

/// The history page's form.
pub struct TransactionsFormData {
    pub action: String,
    pub txid: Option<String>,
}

/// The history page's query: which recorded transaction to verify and show.
pub struct TransactionsQuery {
    pub show: Option<String>,
}

impl TransactionsQuery {
    /// Whether the page asks for the verification of `txid`.
    pub fn shows(&self, txid: &str) -> (r: bool)
        ensures
            r == (self.show matches Some(s) && s@ == txid@),
    {
        match &self.show {
            Some(s) => same_text(s.as_str(), txid),
            None => false,
        }
    }
}

/// Applies the address page's form to the tracked addresses: `add` tracks the
/// trimmed address unless it is empty or tracked already, `remove` stops
/// tracking it, `run_task` asks for a run now. Returns whether a run is asked for.
pub fn apply_address_form(book: &mut AddressBook, form: FormData) -> (r: bool)
    requires
        old(book).wf(),
    ensures
        final(book).wf(),
        r == (action_of(form.action@) == FormAction::RunTask),
        action_of(form.action@) == FormAction::Add ==> final(book)@ == match form.address {
            Some(a) => if trimmed(a@).len() > 0 && !old(book)@.contains(trimmed(a@)) {
                old(book)@.push(trimmed(a@))
            } else {
                old(book)@
            },
            None => old(book)@,
        },
        action_of(form.action@) == FormAction::Remove ==> final(book)@ == match form.address {
            Some(a) => without(old(book)@, a@),
            None => old(book)@,
        },
        action_of(form.action@) == FormAction::RunTask ==> final(book)@ == old(book)@,
        action_of(form.action@) == FormAction::Other ==> final(book)@ == old(book)@,
{
    match parse_action(form.action.as_str()) {
        FormAction::Add => {
            if let Some(a) = form.address {
                book.add(a.as_str());
            }
            false
        },
        FormAction::Remove => {
            if let Some(a) = form.address {
                book.remove(a.as_str());
            }
            false
        },
        FormAction::RunTask => true,
        FormAction::Other => false,
    }
}

/// Applies the history page's form to the recorded transactions: `remove`
/// drops the given id; anything else changes nothing.
pub fn apply_transactions_form(log: &mut TransactionLog, form: TransactionsFormData)
    ensures
        action_of(form.action@) == FormAction::Remove ==> final(log)@ == match form.txid {
            Some(t) => without(old(log)@, t@),
            None => old(log)@,
        },
        action_of(form.action@) != FormAction::Remove ==> final(log)@ == old(log)@,
{
    if parse_action(form.action.as_str()) == FormAction::Remove {
        if let Some(t) = form.txid {
            log.remove(t.as_str());
        }
    }
}

} // verus!
