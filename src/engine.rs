use vstd::prelude::*;

verus! {

/// The stages of bringing the execution engine up, in the order they run.
#[derive(Clone, Copy, Debug, PartialEq, Eq, Structural)]
pub enum InitStage {
    OpenStore,
    ParseProgram,
    DeployProgram,
    LoadDeployment,
}

/// Why the engine could not be brought up: the stage that failed and the
/// engine's own diagnostic.
#[derive(Clone, Debug)]
pub struct EngineInitError {
    pub stage: InitStage,
    pub cause: String,
}

/// The text that introduces a failure at each stage.
pub open spec fn stage_text(stage: InitStage) -> Seq<char> {
    match stage {
        InitStage::OpenStore => "Failed to open consensus store: "@,
        InitStage::ParseProgram => "Failed to parse program: "@,
        InitStage::DeployProgram => "Failed to deploy program: "@,
        InitStage::LoadDeployment => "Failed to load deployment: "@,
    }
}

impl EngineInitError {
    /// The error as one line: the stage, then the engine's diagnostic.
    pub fn message(&self) -> (r: String)
        ensures
            r@ == stage_text(self.stage) + self.cause@,
    {
        let head = match self.stage {
            InitStage::OpenStore => "Failed to open consensus store: ",
            InitStage::ParseProgram => "Failed to parse program: ",
            InitStage::DeployProgram => "Failed to deploy program: ",
            InitStage::LoadDeployment => "Failed to load deployment: ",
        };
        head.to_owned().concat(self.cause.as_str())
    }
}

/// The state of the process-wide engine.
#[derive(Clone, Copy, Debug, PartialEq, Eq, Structural)]
pub enum SlotState {
    /// Nobody has asked for the engine yet.
    Empty,
    /// One caller is bringing the engine up; the others wait for it.
    Initializing,
    /// The engine is deployed and can be handed out.
    Ready,
    /// Bringing the engine up failed; it is not tried again.
    Failed,
}

/// What a caller that asks for the engine is told to do.
#[derive(Clone, Copy, Debug, PartialEq, Eq, Structural)]
pub enum EngineAccess {
    /// Bring the engine up (open the store, parse, deploy, load), then report.
    Initialize,
    /// Another caller is bringing it up: wait and ask again.
    AwaitInit,
    /// Use the engine, holding the guard for the whole execution.
    Granted,
    /// The engine could not be brought up.
    Unavailable,
}

/// A request made of the slot.
#[derive(Clone, Copy, Debug, PartialEq, Eq, Structural)]
pub enum SlotRequest {
    Acquire,
    InitDone { ok: bool },
}

/// The slot's answer to an `acquire`.
pub open spec fn acquire_step(s: SlotState) -> (SlotState, EngineAccess) {
    match s {
        SlotState::Empty => (SlotState::Initializing, EngineAccess::Initialize),
        SlotState::Initializing => (SlotState::Initializing, EngineAccess::AwaitInit),
        SlotState::Ready => (SlotState::Ready, EngineAccess::Granted),
        SlotState::Failed => (SlotState::Failed, EngineAccess::Unavailable),
    }
}

/// The slot after the initializing caller reports.
pub open spec fn init_done_step(s: SlotState, ok: bool) -> SlotState {
    if s == SlotState::Initializing {
        if ok {
            SlotState::Ready
        } else {
            SlotState::Failed
        }
    } else {
        s
    }
}

pub open spec fn request_step(s: SlotState, q: SlotRequest) -> SlotState {
    match q {
        SlotRequest::Acquire => acquire_step(s).0,
        SlotRequest::InitDone { ok } => init_done_step(s, ok),
    }
}

/// The slot after a sequence of requests.
pub open spec fn slot_after(s: SlotState, qs: Seq<SlotRequest>) -> SlotState
    decreases qs.len(),
{
    if qs.len() == 0 {
        s
    } else {
        slot_after(request_step(s, qs[0]), qs.subrange(1, qs.len() as int))
    }
}

/// How many callers are told to deploy along a sequence of requests.
pub open spec fn deployments(s: SlotState, qs: Seq<SlotRequest>) -> nat
    decreases qs.len(),
{
    if qs.len() == 0 {
        0
    } else {
        (if qs[0] == SlotRequest::Acquire && acquire_step(s).1 == EngineAccess::Initialize {
            1nat
        } else {
            0nat
        }) + deployments(request_step(s, qs[0]), qs.subrange(1, qs.len() as int))
    }
}

/// Initialization is idempotent: along any sequence of requests at most one
/// caller is told to deploy, and none once the slot has left `Empty`; once the
/// engine is ready, every caller is granted it.
pub proof fn lemma_single_deployment(s: SlotState, qs: Seq<SlotRequest>)
    ensures
        deployments(s, qs) <= 1,
        s != SlotState::Empty ==> deployments(s, qs) == 0,
        s == SlotState::Ready ==> slot_after(s, qs) == SlotState::Ready,
        s == SlotState::Ready ==> acquire_step(s).1 == EngineAccess::Granted,
        s != SlotState::Empty ==> slot_after(s, qs) != SlotState::Empty,
        slot_after(s, qs) == SlotState::Empty ==> deployments(s, qs) == 0,
    decreases qs.len(),
{
    if qs.len() > 0 {
        let rest = qs.subrange(1, qs.len() as int);
        lemma_single_deployment(request_step(s, qs[0]), rest);
        if s == SlotState::Empty && qs[0] == SlotRequest::Acquire {
            assert(request_step(s, qs[0]) == SlotState::Initializing);
        }
    }
}

/// The process-wide engine's lifecycle: brought up once, on first use, then
/// handed out to one caller at a time by the lock that owns this slot.
pub struct EngineSlot {
    state: SlotState,
}

impl View for EngineSlot {
    type V = SlotState;

    closed spec fn view(&self) -> SlotState {
        self.state
    }
}

impl EngineSlot {
    pub fn new() -> (r: EngineSlot)
        ensures
            r@ == SlotState::Empty,
    {
        EngineSlot { state: SlotState::Empty }
    }

    pub fn state(&self) -> (r: SlotState)
        ensures
            r == self@,
    {
        self.state
    }

    /// A caller asks for the engine.
    pub fn acquire(&mut self) -> (r: EngineAccess)
        ensures
            (final(self)@, r) == acquire_step(old(self)@),
    {
        match self.state {
            SlotState::Empty => {
                self.state = SlotState::Initializing;
                EngineAccess::Initialize
            },
            SlotState::Initializing => EngineAccess::AwaitInit,
            SlotState::Ready => EngineAccess::Granted,
            SlotState::Failed => EngineAccess::Unavailable,
        }
    }

    /// The caller that was told to initialize reports how it went.
    pub fn finish_init(&mut self, outcome: &Result<(), EngineInitError>) -> (r: EngineAccess)
        ensures
            final(self)@ == init_done_step(old(self)@, outcome.is_ok()),
            r == (if final(self)@ == SlotState::Ready {
                EngineAccess::Granted
            } else if final(self)@ == SlotState::Failed {
                EngineAccess::Unavailable
            } else {
                EngineAccess::AwaitInit
            }),
    {
        if self.state == SlotState::Initializing {
            self.state = if outcome.is_ok() {
                SlotState::Ready
            } else {
                SlotState::Failed
            };
        }
        match self.state {
            SlotState::Ready => EngineAccess::Granted,
            SlotState::Failed => EngineAccess::Unavailable,
            _ => EngineAccess::AwaitInit,
        }
    }
}

} // verus!
