use vstd::prelude::*;
use crate::aleo::{committed_argument, derive_signer, read_committed_argument, signer_of_key};
use crate::attestation::{program_id, program_id_text};
use crate::ledger::{
    block_hash_url, block_time, block_url, confirmed_transaction_url, height_url,
    json_string_content, mapping_url, plain_field, read_block_time, read_mapping_value,
    read_plain_field, route,
};

verus! {

/// The lookups that a verification chains, in order.
#[derive(Clone, Copy, Debug, PartialEq, Eq, Structural)]
pub enum VerifyStep {
    BlockHash,
    BlockHeight,
    Block,
    ConfirmedTransaction,
    Signer,
    MappingValue,
}

/// The lookup that failed, and why.
#[derive(Debug)]
pub struct VerificationError {
    pub step: VerifyStep,
    pub cause: String,
}

/// What a past attestation committed to: where it landed, when, and the
/// reserve value published for it.
#[derive(Debug)]
pub struct VerificationResult {
    pub height: String,
    pub timestamp: String,
    pub reserve_value: String,
}

/// What came of the last request.
pub enum LedgerEvent {
    /// The body of the ledger's answer.
    Answer { body: String },
    /// The request could not be made or answered.
    QueryFailed { cause: String },
}

/// What the resolver asks its owner to do next.
pub enum LedgerRequest {
    /// Fetch `url` and hand back its body, or the failure.
    Get { url: String },
    /// The resolution is over: take `into_outcome`.
    Done,
}

/// Where a resolution stands, over the texts it has gathered.
pub enum Phase {
    FindingHash,
    FindingHeight { block_hash: Seq<char> },
    FetchingBlock { height: Seq<char> },
    FetchingTransaction { height: Seq<char>, timestamp: Seq<char> },
    QueryingMapping { height: Seq<char>, timestamp: Seq<char>, key: Seq<char> },
    Resolved { height: Seq<char>, timestamp: Seq<char>, reserve_value: Seq<char> },
    Failed { step: VerifyStep, cause: Seq<char> },
}

/// Where a resolution stands.
pub enum ResolveStage {
    FindingHash,
    FindingHeight { block_hash: String },
    FetchingBlock { height: String },
    FetchingTransaction { height: String, timestamp: String },
    QueryingMapping { height: String, timestamp: String, key: String },
    Resolved { result: VerificationResult },
    Failed { error: VerificationError },
}

pub open spec fn phase_of(s: ResolveStage) -> Phase {
    match s {
        ResolveStage::FindingHash => Phase::FindingHash,
        ResolveStage::FindingHeight { block_hash } => Phase::FindingHeight { block_hash: block_hash@ },
        ResolveStage::FetchingBlock { height } => Phase::FetchingBlock { height: height@ },
        ResolveStage::FetchingTransaction { height, timestamp } => Phase::FetchingTransaction {
            height: height@,
            timestamp: timestamp@,
        },
        ResolveStage::QueryingMapping { height, timestamp, key } => Phase::QueryingMapping {
            height: height@,
            timestamp: timestamp@,
            key: key@,
        },
        ResolveStage::Resolved { result } => Phase::Resolved {
            height: result.height@,
            timestamp: result.timestamp@,
            reserve_value: result.reserve_value@,
        },
        ResolveStage::Failed { error } => Phase::Failed { step: error.step, cause: error.cause@ },
    }
}

/// The text that stands for the data hash where the transaction carries none
/// that can be read.
pub open spec fn missing_hash_text() -> Seq<char> {
    "Could not find data hash."@
}

/// The data hash that an attestation committed to, as its transaction carries
/// it; the placeholder where it carries none that can be read.
pub open spec fn data_hash_of(argument: Option<Seq<char>>) -> Seq<char> {
    match argument {
        Some(text) => text,
        None => missing_hash_text(),
    }
}

/// The key under which the reserve value is published:
/// `{user:<signer>,hash:<data hash>,height:<height>u32}`.
pub open spec fn mapping_key(signer: Seq<char>, data_hash: Seq<char>, height: Seq<char>) -> Seq<char> {
    "{user:"@ + signer + ",hash:"@ + data_hash + ",height:"@ + height + "u32}"@
}

/// The text given as the cause when an answer cannot be read.
pub open spec fn unreadable_text() -> Seq<char> {
    "the ledger's answer could not be read"@
}

/// The text given as the cause when the signing key cannot be read.
pub open spec fn bad_key_text() -> Seq<char> {
    "the signing key could not be read"@
}

/// The phase once the confirmed transaction, `body`, has come: the key for the
/// mapping entry, from the signer that `key` derives and the data hash.
pub open spec fn after_transaction(height: Seq<char>, timestamp: Seq<char>, key: Seq<char>, body: Seq<char>) -> Phase {
    after_argument(height, timestamp, key, committed_argument(body))
}

/// The text of what a read transaction commits to.
pub open spec fn argument_view(argument: Option<Option<String>>) -> Option<Option<Seq<char>>> {
    match argument {
        Some(Some(t)) => Some(Some(t@)),
        Some(None) => Some(None),
        None => None,
    }
}

/// The phase once the confirmed transaction has been read as committing to
/// `argument` (see `committed_argument`).
pub open spec fn after_argument(
    height: Seq<char>,
    timestamp: Seq<char>,
    key: Seq<char>,
    argument: Option<Option<Seq<char>>>,
) -> Phase {
    match argument {
        None => Phase::Failed { step: VerifyStep::ConfirmedTransaction, cause: unreadable_text() },
        Some(argument) => match signer_of_key(key) {
            None => Phase::Failed { step: VerifyStep::Signer, cause: bad_key_text() },
            Some(signer) => Phase::QueryingMapping {
                height,
                timestamp,
                key: mapping_key(signer, data_hash_of(argument), height),
            },
        },
    }
}

/// The phase after an event, for a resolution signed with `key`. An event that
/// the phase does not wait for changes nothing.
pub open spec fn advance(p: Phase, key: Seq<char>, e: LedgerEvent) -> Phase {
    match p {
        Phase::FindingHash => match e {
            LedgerEvent::Answer { body } => match plain_field(body@) {
                Some(h) => Phase::FindingHeight { block_hash: h },
                None => Phase::Failed { step: VerifyStep::BlockHash, cause: unreadable_text() },
            },
            LedgerEvent::QueryFailed { cause } => Phase::Failed { step: VerifyStep::BlockHash, cause: cause@ },
            _ => p,
        },
        Phase::FindingHeight { .. } => match e {
            LedgerEvent::Answer { body } => match plain_field(body@) {
                Some(h) => Phase::FetchingBlock { height: h },
                None => Phase::Failed { step: VerifyStep::BlockHeight, cause: unreadable_text() },
            },
            LedgerEvent::QueryFailed { cause } => Phase::Failed { step: VerifyStep::BlockHeight, cause: cause@ },
            _ => p,
        },
        Phase::FetchingBlock { height } => match e {
            LedgerEvent::Answer { body } => match block_time(body@) {
                Some(t) => Phase::FetchingTransaction { height, timestamp: t },
                None => Phase::Failed { step: VerifyStep::Block, cause: unreadable_text() },
            },
            LedgerEvent::QueryFailed { cause } => Phase::Failed { step: VerifyStep::Block, cause: cause@ },
            _ => p,
        },
        Phase::FetchingTransaction { height, timestamp } => match e {
            LedgerEvent::Answer { body } => after_transaction(height, timestamp, key, body@),
            LedgerEvent::QueryFailed { cause } => Phase::Failed {
                step: VerifyStep::ConfirmedTransaction,
                cause: cause@,
            },
            _ => p,
        },
        Phase::QueryingMapping { height, timestamp, .. } => match e {
            LedgerEvent::Answer { body } => match json_string_content(body@) {
                Some(v) => Phase::Resolved { height, timestamp, reserve_value: v },
                None => Phase::Failed { step: VerifyStep::MappingValue, cause: unreadable_text() },
            },
            LedgerEvent::QueryFailed { cause } => Phase::Failed {
                step: VerifyStep::MappingValue,
                cause: cause@,
            },
            _ => p,
        },
        _ => p,
    }
}

/// The phase after a sequence of events.
pub open spec fn phase_after(p: Phase, key: Seq<char>, events: Seq<LedgerEvent>) -> Phase
    decreases events.len(),
{
    if events.len() == 0 {
        p
    } else {
        phase_after(advance(p, key, events[0]), key, events.subrange(1, events.len() as int))
    }
}

/// Whether a phase still asks the ledger for something.
pub open spec fn is_pending(p: Phase) -> bool {
    !(p is Resolved || p is Failed)
}

proof fn lemma_final_phase_stays(p: Phase, key: Seq<char>, events: Seq<LedgerEvent>)
    requires
        !is_pending(p),
    ensures
        phase_after(p, key, events) == p,
    decreases events.len(),
{
    if events.len() > 0 {
        lemma_final_phase_stays(advance(p, key, events[0]), key, events.subrange(1, events.len() as int));
    }
}

/// The chain stops at its first failure: a lookup that fails ends the
/// resolution with that step's error, and whatever comes after, no further
/// lookup is asked for.
pub proof fn lemma_failure_ends_chain(p: Phase, key: Seq<char>, cause: String, later: Seq<LedgerEvent>)
    requires
        is_pending(p),
    ensures
        advance(p, key, LedgerEvent::QueryFailed { cause }) is Failed,
        advance(p, key, LedgerEvent::QueryFailed { cause })->cause == cause@,
        p is FindingHash ==> advance(p, key, LedgerEvent::QueryFailed { cause })->step == VerifyStep::BlockHash,
        p is FindingHeight ==> advance(p, key, LedgerEvent::QueryFailed { cause })->step
            == VerifyStep::BlockHeight,
        forall|k: int|
            0 <= k <= later.len() ==> phase_after(
                advance(p, key, LedgerEvent::QueryFailed { cause }),
                key,
                #[trigger] later.take(k),
            ) == advance(p, key, LedgerEvent::QueryFailed { cause }),
        !is_pending(phase_after(advance(p, key, LedgerEvent::QueryFailed { cause }), key, later)),
{
    let failed = advance(p, key, LedgerEvent::QueryFailed { cause });
    assert forall|k: int| 0 <= k <= later.len() implies phase_after(failed, key, #[trigger] later.take(k)) == failed by {
        lemma_final_phase_stays(failed, key, later.take(k));
    }
    lemma_final_phase_stays(failed, key, later);
}

/// The verification of one recorded attestation: it walks the ledger from the
/// transaction id to the reserve value published for it. Its owner performs
/// each request and hands back what came of it.
pub struct Resolver {
    transaction_id: String,
    private_key: String,
    endpoint: String,
    network: String,
    stage: ResolveStage,
}

fn unreadable() -> (r: String)
    ensures
        r@ == unreadable_text(),
{
    "the ledger's answer could not be read".to_owned()
}

fn data_hash(argument: Option<String>) -> (r: String)
    ensures
        r@ == data_hash_of(
            match argument {
                Some(t) => Some(t@),
                None => None,
            },
        ),
{
    match argument {
        Some(text) => text,
        None => "Could not find data hash.".to_owned(),
    }
}

/// From what the confirmed transaction commits to and the signer, the key of
/// the mapping entry to look up.
fn on_argument(height: &String, timestamp: &String, private_key: &str, argument: Option<Option<String>>) -> (r: ResolveStage)
    ensures
        phase_of(r) == after_argument(height@, timestamp@, private_key@, argument_view(argument)),
{
    let argument = match argument {
        Some(a) => a,
        None => return failure(VerifyStep::ConfirmedTransaction, unreadable()),
    };
    let signer = match derive_signer(private_key) {
        Ok(a) => a,
        Err(_) => return failure(VerifyStep::Signer, "the signing key could not be read".to_owned()),
    };
    let hash = data_hash(argument);
    ResolveStage::QueryingMapping {
        height: height.clone(),
        timestamp: timestamp.clone(),
        key: compose_key(signer.as_str(), hash.as_str(), height.as_str()),
    }
}

fn on_transaction(height: &String, timestamp: &String, private_key: &str, body: &str) -> (r: ResolveStage)
    ensures
        phase_of(r) == after_transaction(height@, timestamp@, private_key@, body@),
{
    on_argument(height, timestamp, private_key, read_committed_argument(body))
}

fn compose_key(signer: &str, data_hash: &str, height: &str) -> (r: String)
    ensures
        r@ == mapping_key(signer@, data_hash@, height@),
{
    "{user:".to_owned().concat(signer).concat(",hash:").concat(data_hash).concat(",height:").concat(
        height,
    ).concat("u32}")
}

fn failure(step: VerifyStep, cause: String) -> (r: ResolveStage)
    ensures
        phase_of(r) == (Phase::Failed { step, cause: cause@ }),
{
    ResolveStage::Failed { error: VerificationError { step, cause } }
}

impl Resolver {
    pub closed spec fn phase(&self) -> Phase {
        phase_of(self.stage)
    }

    pub closed spec fn key_of(&self) -> Seq<char> {
        self.private_key@
    }

    pub closed spec fn transaction_id_of(&self) -> Seq<char> {
        self.transaction_id@
    }

    pub closed spec fn endpoint_of(&self) -> Seq<char> {
        self.endpoint@
    }

    pub closed spec fn network_of(&self) -> Seq<char> {
        self.network@
    }

    /// A resolution of the attestation recorded as `transaction_id` and signed
    /// with `private_key`, against the ledger at `endpoint`.
    pub fn new(transaction_id: &str, private_key: &str, endpoint: &str, network: &str) -> (r: Resolver)
        ensures
            r.phase() is FindingHash,
            r.key_of() == private_key@,
            r.transaction_id_of() == transaction_id@,
            r.endpoint_of() == endpoint@,
            r.network_of() == network@,
    {
        Resolver {
            transaction_id: transaction_id.to_owned(),
            private_key: private_key.to_owned(),
            endpoint: endpoint.to_owned(),
            network: network.to_owned(),
            stage: ResolveStage::FindingHash,
        }
    }

    /// The request the resolution makes now.
    pub fn next_request(&self) -> (r: LedgerRequest)
        ensures
            self.phase() is FindingHash ==> (r matches LedgerRequest::Get { url } && url@ == route(
                self.endpoint_of(),
                self.network_of(),
                "/find/blockHash/"@ + self.transaction_id_of(),
            )),
            self.phase() matches Phase::FindingHeight { block_hash } ==> (r matches LedgerRequest::Get { url }
                && url@ == route(self.endpoint_of(), self.network_of(), "/height/"@ + block_hash)),
            self.phase() matches Phase::FetchingBlock { height } ==> (r matches LedgerRequest::Get { url }
                && url@ == route(self.endpoint_of(), self.network_of(), "/block/"@ + height)),
            self.phase() is FetchingTransaction ==> (r matches LedgerRequest::Get { url }
                && url@ == route(
                self.endpoint_of(),
                self.network_of(),
                "/transaction/confirmed/"@ + self.transaction_id_of(),
            )),
            self.phase() matches Phase::QueryingMapping { key, .. } ==> (r matches LedgerRequest::Get { url }
                && url@ == route(
                self.endpoint_of(),
                self.network_of(),
                "/program/"@ + program_id_text() + "/mapping/"@ + "data"@ + "/"@ + key,
            )),
            !is_pending(self.phase()) ==> r is Done,
    {
        let ep = self.endpoint.as_str();
        let net = self.network.as_str();
        match &self.stage {
            ResolveStage::FindingHash => LedgerRequest::Get {
                url: block_hash_url(ep, net, self.transaction_id.as_str()),
            },
            ResolveStage::FindingHeight { block_hash } => LedgerRequest::Get {
                url: height_url(ep, net, block_hash.as_str()),
            },
            ResolveStage::FetchingBlock { height } => LedgerRequest::Get {
                url: block_url(ep, net, height.as_str()),
            },
            ResolveStage::FetchingTransaction { .. } => LedgerRequest::Get {
                url: confirmed_transaction_url(ep, net, self.transaction_id.as_str()),
            },
            ResolveStage::QueryingMapping { key, .. } => {
                let program = program_id();
                LedgerRequest::Get {
                    url: mapping_url(ep, net, program.as_str(), "data", key.as_str()),
                }
            },
            _ => LedgerRequest::Done,
        }
    }

    /// Takes what came of the last request.
    pub fn on_event(&mut self, event: LedgerEvent)
        ensures
            final(self).phase() == advance(old(self).phase(), old(self).key_of(), event),
            final(self).key_of() == old(self).key_of(),
            final(self).transaction_id_of() == old(self).transaction_id_of(),
            final(self).endpoint_of() == old(self).endpoint_of(),
            final(self).network_of() == old(self).network_of(),
    {
        let next = match (&self.stage, event) {
            (ResolveStage::FindingHash, LedgerEvent::Answer { body }) => match read_plain_field(
                body.as_str(),
            ) {
                Some(h) => ResolveStage::FindingHeight { block_hash: h },
                None => failure(VerifyStep::BlockHash, unreadable()),
            },
            (ResolveStage::FindingHash, LedgerEvent::QueryFailed { cause }) => failure(
                VerifyStep::BlockHash,
                cause,
            ),
            (ResolveStage::FindingHeight { .. }, LedgerEvent::Answer { body }) => match read_plain_field(
                body.as_str(),
            ) {
                Some(h) => ResolveStage::FetchingBlock { height: h },
                None => failure(VerifyStep::BlockHeight, unreadable()),
            },
            (ResolveStage::FindingHeight { .. }, LedgerEvent::QueryFailed { cause }) => failure(
                VerifyStep::BlockHeight,
                cause,
            ),
            (ResolveStage::FetchingBlock { height }, LedgerEvent::Answer { body }) => match read_block_time(
                body.as_str(),
            ) {
                Some(t) => ResolveStage::FetchingTransaction { height: height.clone(), timestamp: t },
                None => failure(VerifyStep::Block, unreadable()),
            },
            (ResolveStage::FetchingBlock { .. }, LedgerEvent::QueryFailed { cause }) => failure(
                VerifyStep::Block,
                cause,
            ),
            (ResolveStage::FetchingTransaction { height, timestamp }, LedgerEvent::Answer { body }) => {
                on_transaction(height, timestamp, self.private_key.as_str(), body.as_str())
            },
            (ResolveStage::FetchingTransaction { .. }, LedgerEvent::QueryFailed { cause }) => failure(
                VerifyStep::ConfirmedTransaction,
                cause,
            ),
            (ResolveStage::QueryingMapping { height, timestamp, .. }, LedgerEvent::Answer { body }) => {
                match read_mapping_value(body.as_str()) {
                    Some(v) => ResolveStage::Resolved {
                        result: VerificationResult {
                            height: height.clone(),
                            timestamp: timestamp.clone(),
                            reserve_value: v,
                        },
                    },
                    None => failure(VerifyStep::MappingValue, unreadable()),
                }
            },
            (ResolveStage::QueryingMapping { .. }, LedgerEvent::QueryFailed { cause }) => failure(
                VerifyStep::MappingValue,
                cause,
            ),
            _ => return ,
        };
        self.stage = next;
    }

    /// Takes the confirmed transaction as already read: what it commits to, as
    /// `committed_argument` says. Changes nothing unless the resolution waits
    /// for that transaction.
    pub fn on_committed_argument(&mut self, argument: Option<Option<String>>)
        ensures
            final(self).phase() == (match old(self).phase() {
                Phase::FetchingTransaction { height, timestamp } => after_argument(
                    height,
                    timestamp,
                    old(self).key_of(),
                    argument_view(argument),
                ),
                _ => old(self).phase(),
            }),
            final(self).key_of() == old(self).key_of(),
            final(self).transaction_id_of() == old(self).transaction_id_of(),
            final(self).endpoint_of() == old(self).endpoint_of(),
            final(self).network_of() == old(self).network_of(),
    {
        let next = match &self.stage {
            ResolveStage::FetchingTransaction { height, timestamp } => on_argument(
                height,
                timestamp,
                self.private_key.as_str(),
                argument,
            ),
            _ => return ,
        };
        self.stage = next;
    }

    /// Whether the resolution is over.
    pub fn is_finished(&self) -> (r: bool)
        ensures
            r == !is_pending(self.phase()),
    {
        match &self.stage {
            ResolveStage::Resolved { .. } | ResolveStage::Failed { .. } => true,
            _ => false,
        }
    }

    /// The result, or the first lookup that failed; `None` while the
    /// resolution is still under way.
    pub fn into_outcome(self) -> (r: Option<Result<VerificationResult, VerificationError>>)
        ensures
            self.phase() matches Phase::Resolved { height, timestamp, reserve_value } ==> (r matches Some(
                Ok(v),
            ) && v.height@ == height && v.timestamp@ == timestamp && v.reserve_value@ == reserve_value),
            self.phase() matches Phase::Failed { step, cause } ==> (r matches Some(Err(e)) && e.step == step
                && e.cause@ == cause),
            is_pending(self.phase()) ==> r is None,
    {
        match self.stage {
            ResolveStage::Resolved { result } => Some(Ok(result)),
            ResolveStage::Failed { error } => Some(Err(error)),
            _ => None,
        }
    }
}

} // verus!
