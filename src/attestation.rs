use vstd::prelude::*;
use crate::aleo::{check_address, derive_signer, is_address, signer_of_key};
use crate::ledger::{broadcast_url, route};
use crate::registry::{copy_list, texts, AddressBook, TransactionLog};

verus! {

/// The program that computes the attestation, and its entry point.
pub open spec fn program_id_text() -> Seq<char> {
    "proof_of_reserves_v0_1_0.aleo"@
}

pub open spec fn function_name_text() -> Seq<char> {
    "record_balances2"@
}

pub fn program_id() -> (r: String)
    ensures
        r@ == program_id_text(),
{
    "proof_of_reserves_v0_1_0.aleo".to_owned()
}

pub fn function_name() -> (r: String)
    ensures
        r@ == function_name_text(),
{
    "record_balances2".to_owned()
}

/// Why an attestation run failed.
#[derive(Debug)]
pub enum AttestationError {
    KeyParse { cause: String },
    /// A tracked address the engine does not accept, as it was written.
    AddressParse { address: String, cause: String },
    EngineInit { cause: String },
    Execution { cause: String },
    TaskJoin { cause: String },
    Broadcast { cause: String },
    Persist { cause: String },
}

/// The text that introduces each kind of failure.
pub open spec fn error_text(e: AttestationError) -> Seq<char> {
    match e {
        AttestationError::KeyParse { cause } => "Failed to parse private key: "@ + cause@,
        AttestationError::AddressParse { address, cause } => "Failed to parse address '"@ + address@
            + "': "@ + cause@,
        AttestationError::EngineInit { cause } => "Failed to initialize the engine: "@ + cause@,
        AttestationError::Execution { cause } => "Failed to execute VM: "@ + cause@,
        AttestationError::TaskJoin { cause } => "task join error: "@ + cause@,
        AttestationError::Broadcast { cause } => "Failed to broadcast transaction: "@ + cause@,
        AttestationError::Persist { cause } => "Failed to save transactions: "@ + cause@,
    }
}

impl AttestationError {
    /// The error as one line, with the offending value where there is one.
    pub fn message(&self) -> (r: String)
        ensures
            r@ == error_text(*self),
    {
        match self {
            AttestationError::KeyParse { cause } => "Failed to parse private key: ".to_owned().concat(
                cause.as_str(),
            ),
            AttestationError::AddressParse { address, cause } => "Failed to parse address '".to_owned().concat(
                address.as_str(),
            ).concat("': ").concat(cause.as_str()),
            AttestationError::EngineInit { cause } => "Failed to initialize the engine: ".to_owned().concat(
                cause.as_str(),
            ),
            AttestationError::Execution { cause } => "Failed to execute VM: ".to_owned().concat(
                cause.as_str(),
            ),
            AttestationError::TaskJoin { cause } => "task join error: ".to_owned().concat(cause.as_str()),
            AttestationError::Broadcast { cause } => "Failed to broadcast transaction: ".to_owned().concat(
                cause.as_str(),
            ),
            AttestationError::Persist { cause } => "Failed to save transactions: ".to_owned().concat(
                cause.as_str(),
            ),
        }
    }
}

/// What the engine is asked to execute: the attestation program's entry
/// point, on the signer's address and the tracked addresses as one array, with
/// no priority fee, against the ledger at `query_endpoint`.
pub struct ExecutionRequest {
    pub program_id: String,
    pub function_name: String,
    pub signer: String,
    pub addresses: Vec<String>,
    pub priority_fee: u64,
    pub query_endpoint: String,
}

/// What happened to the last step the run asked for.
pub enum AttestationEvent {
    /// The engine could not be brought up.
    EngineUnavailable { cause: String },
    Executed { transaction_id: String },
    ExecutionFailed { cause: String },
    /// The work handed to the execution context could not be joined back.
    JoinFailed { cause: String },
    Broadcasted,
    BroadcastFailed { cause: String },
    Persisted,
    PersistFailed { cause: String },
}

/// Where a run stands.
pub enum RunStage {
    Executing { signer: String },
    Broadcasting { transaction_id: String },
    Recording { transaction_id: String },
    Persisting { transaction_id: String },
    Succeeded { transaction_id: String },
    Failed { error: AttestationError },
}

/// What the run asks its owner to do next.
pub enum AttestationStep {
    /// Execute, holding the engine for the whole call, off the cooperative loop.
    Execute(ExecutionRequest),
    /// Send the executed transaction to `url`.
    Broadcast { url: String, transaction_id: String },
    /// Take the write lock on the shared state and call `record` with its log.
    Record { transaction_id: String },
    /// Write the transaction list out.
    Persist,
    /// The run is over: take `into_outcome`.
    Finished,
}

/// The stage after an event.
pub open spec fn advance(stage: RunStage, event: AttestationEvent) -> RunStage {
    match stage {
        RunStage::Executing { .. } => match event {
            AttestationEvent::Executed { transaction_id } => RunStage::Broadcasting { transaction_id },
            AttestationEvent::EngineUnavailable { cause } => RunStage::Failed {
                error: AttestationError::EngineInit { cause },
            },
            AttestationEvent::ExecutionFailed { cause } => RunStage::Failed {
                error: AttestationError::Execution { cause },
            },
            AttestationEvent::JoinFailed { cause } => RunStage::Failed {
                error: AttestationError::TaskJoin { cause },
            },
            _ => stage,
        },
        RunStage::Broadcasting { transaction_id } => match event {
            AttestationEvent::Broadcasted => RunStage::Recording { transaction_id },
            AttestationEvent::BroadcastFailed { cause } => RunStage::Failed {
                error: AttestationError::Broadcast { cause },
            },
            AttestationEvent::JoinFailed { cause } => RunStage::Failed {
                error: AttestationError::TaskJoin { cause },
            },
            _ => stage,
        },
        RunStage::Persisting { transaction_id } => match event {
            AttestationEvent::Persisted => RunStage::Succeeded { transaction_id },
            AttestationEvent::PersistFailed { cause } => RunStage::Failed {
                error: AttestationError::Persist { cause },
            },
            _ => stage,
        },
        _ => stage,
    }
}

/// Whether the engine accepts each of the first `n` addresses.
pub open spec fn all_accepted(addresses: Seq<Seq<char>>, n: int) -> bool {
    forall|i: int| 0 <= i < n ==> is_address(#[trigger] addresses[i])
}

/// The first address the engine refuses, with its diagnostic.
fn first_rejected(addresses: &Vec<String>) -> (r: Option<(usize, String)>)
    ensures
        match r {
            Some((k, _)) => k < addresses@.len() && all_accepted(texts(addresses@), k as int) && !is_address(
                texts(addresses@)[k as int],
            ),
            None => all_accepted(texts(addresses@), addresses@.len() as int),
        },
{
    let mut i: usize = 0;
    while i < addresses.len()
        invariant
            i <= addresses@.len(),
            all_accepted(texts(addresses@), i as int),
        decreases addresses@.len() - i,
    {
        match check_address(addresses[i].as_str()) {
            Ok(()) => {},
            Err(cause) => {
                return Some((i, cause));
            },
        }
        i = i + 1;
    }
    None
}

/// One attestation run, from reading the signing key to recording the
/// broadcast transaction. Its owner performs each step it asks for and hands
/// back what came of it.
pub struct AttestationRun {
    addresses: Vec<String>,
    endpoint: String,
    network: String,
    stage: RunStage,
}

impl AttestationRun {
    /// The tracked addresses the run attests to, in order.
    pub closed spec fn watched(&self) -> Seq<String> {
        self.addresses@
    }

    pub closed spec fn stage_of(&self) -> RunStage {
        self.stage
    }

    pub closed spec fn endpoint_of(&self) -> Seq<char> {
        self.endpoint@
    }

    pub closed spec fn network_of(&self) -> Seq<char> {
        self.network@
    }

    pub closed spec fn wf(&self) -> bool {
        texts(self.addresses@).no_duplicates()
    }

    /// A run over the addresses tracked now, against the ledger at `endpoint`,
    /// signed with `private_key`. The key is read first, then each address in
    /// order; the first that is refused ends the run.
    pub fn new(book: &AddressBook, private_key: &str, endpoint: &str, network: &str) -> (r: AttestationRun)
        requires
            book.wf(),
        ensures
            r.wf(),
            texts(r.watched()) == book@,
            r.endpoint_of() == endpoint@,
            r.network_of() == network@,
            signer_of_key(private_key@) is None ==> (r.stage_of() matches RunStage::Failed {
                error: AttestationError::KeyParse { .. },
            }),
            signer_of_key(private_key@) is Some && all_accepted(book@, book@.len() as int) ==> (r.stage_of() matches RunStage::Executing { signer } && Some(signer@) == signer_of_key(private_key@)),
            signer_of_key(private_key@) is Some && !all_accepted(book@, book@.len() as int) ==> (r.stage_of() matches RunStage::Failed {
                error: AttestationError::AddressParse { address, .. },
            } && exists|k: int| 0 <= k < book@.len() && all_accepted(book@, k) && !is_address(#[trigger] book@[k]) && address@ == book@[k]),
    {
        let addresses = book.entries();
        let stage = match derive_signer(private_key) {
            Err(cause) => RunStage::Failed { error: AttestationError::KeyParse { cause } },
            Ok(signer) => match first_rejected(&addresses) {
                None => RunStage::Executing { signer },
                Some((k, cause)) => {
                    assert(texts(addresses@)[k as int] == addresses@[k as int]@);
                    RunStage::Failed {
                        error: AttestationError::AddressParse { address: addresses[k].clone(), cause },
                    }
                },
            },
        };
        AttestationRun {
            addresses,
            endpoint: endpoint.to_owned(),
            network: network.to_owned(),
            stage,
        }
    }

    /// The step the run asks for now.
    pub fn next_step(&self) -> (r: AttestationStep)
        requires
            self.wf(),
        ensures
            self.stage_of() matches RunStage::Executing { signer } ==> r matches AttestationStep::Execute(req) && {
                &&& req.program_id@ == program_id_text()
                &&& req.function_name@ == function_name_text()
                &&& req.signer == signer
                &&& texts(req.addresses@) == texts(self.watched())
                &&& texts(req.addresses@).no_duplicates()
                &&& req.priority_fee == 0
                &&& req.query_endpoint@ == self.endpoint_of()
            },
            self.stage_of() matches RunStage::Broadcasting { transaction_id } ==> r == (AttestationStep::Broadcast {
                url: r->url,
                transaction_id,
            }) && r->url@ == route(self.endpoint_of(), self.network_of(), "/transaction/broadcast"@),
            self.stage_of() matches RunStage::Recording { transaction_id } ==> r == (AttestationStep::Record {
                transaction_id,
            }),
            self.stage_of() is Persisting ==> r is Persist,
            (self.stage_of() is Succeeded || self.stage_of() is Failed) ==> r is Finished,
    {
        match &self.stage {
            RunStage::Executing { signer } => AttestationStep::Execute(
                ExecutionRequest {
                    program_id: program_id(),
                    function_name: function_name(),
                    signer: signer.clone(),
                    addresses: copy_list(&self.addresses),
                    priority_fee: 0,
                    query_endpoint: self.endpoint.clone(),
                },
            ),
            RunStage::Broadcasting { transaction_id } => AttestationStep::Broadcast {
                url: broadcast_url(self.endpoint.as_str(), self.network.as_str()),
                transaction_id: transaction_id.clone(),
            },
            RunStage::Recording { transaction_id } => AttestationStep::Record {
                transaction_id: transaction_id.clone(),
            },
            RunStage::Persisting { .. } => AttestationStep::Persist,
            _ => AttestationStep::Finished,
        }
    }

    /// Takes what came of the last step.
    pub fn on_event(&mut self, event: AttestationEvent)
        requires
            old(self).wf(),
        ensures
            final(self).wf(),
            final(self).stage_of() == advance(old(self).stage_of(), event),
            final(self).watched() == old(self).watched(),
            final(self).endpoint_of() == old(self).endpoint_of(),
            final(self).network_of() == old(self).network_of(),
    {
        let next_stage = match (&self.stage, event) {
            (RunStage::Executing { .. }, AttestationEvent::Executed { transaction_id }) => {
                RunStage::Broadcasting { transaction_id }
            },
            (RunStage::Executing { .. }, AttestationEvent::EngineUnavailable { cause }) => RunStage::Failed {
                error: AttestationError::EngineInit { cause },
            },
            (RunStage::Executing { .. }, AttestationEvent::ExecutionFailed { cause }) => RunStage::Failed {
                error: AttestationError::Execution { cause },
            },
            (RunStage::Executing { .. }, AttestationEvent::JoinFailed { cause }) => RunStage::Failed {
                error: AttestationError::TaskJoin { cause },
            },
            (RunStage::Broadcasting { transaction_id }, AttestationEvent::Broadcasted) => {
                RunStage::Recording { transaction_id: transaction_id.clone() }
            },
            (RunStage::Broadcasting { .. }, AttestationEvent::BroadcastFailed { cause }) => RunStage::Failed {
                error: AttestationError::Broadcast { cause },
            },
            (RunStage::Broadcasting { .. }, AttestationEvent::JoinFailed { cause }) => RunStage::Failed {
                error: AttestationError::TaskJoin { cause },
            },
            (RunStage::Persisting { transaction_id }, AttestationEvent::Persisted) => {
                RunStage::Succeeded { transaction_id: transaction_id.clone() }
            },
            (RunStage::Persisting { .. }, AttestationEvent::PersistFailed { cause }) => RunStage::Failed {
                error: AttestationError::Persist { cause },
            },
            _ => return ,
        };
        self.stage = next_stage;
    }

    /// Appends the broadcast transaction's id to the log, where the run is at
    /// that step; says whether it was.
    pub fn record(&mut self, log: &mut TransactionLog) -> (r: bool)
        requires
            old(self).wf(),
        ensures
            final(self).wf(),
            r == old(self).stage_of() is Recording,
            old(self).stage_of() matches RunStage::Recording { transaction_id } ==> {
                &&& final(log)@ == old(log)@.push(transaction_id@)
                &&& final(self).stage_of() == (RunStage::Persisting { transaction_id })
            },
            !r ==> final(log)@ == old(log)@ && final(self).stage_of() == old(self).stage_of(),
            final(self).watched() == old(self).watched(),
            final(self).endpoint_of() == old(self).endpoint_of(),
            final(self).network_of() == old(self).network_of(),
    {
        let id = match &self.stage {
            RunStage::Recording { transaction_id } => transaction_id.clone(),
            _ => return false,
        };
        log.record(id.clone());
        self.stage = RunStage::Persisting { transaction_id: id };
        true
    }

    /// Whether the run is over.
    pub fn is_finished(&self) -> (r: bool)
        ensures
            r == (self.stage_of() is Succeeded || self.stage_of() is Failed),
    {
        match &self.stage {
            RunStage::Succeeded { .. } | RunStage::Failed { .. } => true,
            _ => false,
        }
    }

    /// How the run ended: the recorded transaction id, or the first failure.
    pub fn into_outcome(self) -> (r: Option<Result<String, AttestationError>>)
        ensures
            self.stage_of() matches RunStage::Succeeded { transaction_id } ==> r == Some(
                Ok::<String, AttestationError>(transaction_id),
            ),
            self.stage_of() matches RunStage::Failed { error } ==> r == Some(Err::<String, AttestationError>(error)),
            !(self.stage_of() is Succeeded || self.stage_of() is Failed) ==> r is None,
    {
        match self.stage {
            RunStage::Succeeded { transaction_id } => Some(Ok(transaction_id)),
            RunStage::Failed { error } => Some(Err(error)),
            _ => None,
        }
    }
}

} // verus!
