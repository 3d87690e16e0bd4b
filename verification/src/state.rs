//! Lifecycle of one recording session.
//!
//! ```text
//! Idle/Error                               --start-->            BufferingPreConnect
//! BufferingPreConnect                      --connected-->        Connecting
//! BufferingPreConnect/Connecting           --first transcript--> Recording
//! BufferingPreConnect/Connecting/Recording --stop or end-->      Finalizing{0}
//! Finalizing{n}                            --begin injection-->  Finalizing{n+1}
//! Finalizing{n+1}                          --finish injection--> Finalizing{n}
//! Finalizing{0}                            --drained-->          Idle
//! (any state)                              --fatal error-->      Error(message)
//! ```
//!
//! A transition requested in a state that the table does not list for it
//! leaves the state as it is.

use vstd::prelude::*;

verus! {

/// State of the current recording session.
#[derive(Debug, Clone, PartialEq, Eq)]
pub enum RecordingState {
    Idle,
    BufferingPreConnect,
    Connecting,
    Recording,
    Finalizing { pending_injections: usize },
    Error(String),
}

/// Mathematical model of a [`RecordingState`]: the injection counter is an
/// unbounded natural number and the error message a sequence of characters.
pub enum SessionPhase {
    Idle,
    BufferingPreConnect,
    Connecting,
    Recording,
    Finalizing { pending: nat },
    Error { message: Seq<char> },
}

/// One request made of the session state machine.
pub enum SessionOp {
    Start,
    Connected,
    FirstTranscript,
    Finalize,
    BeginInjection,
    FinishInjection,
    Drained,
    Fail { message: Seq<char> },
}

impl SessionPhase {
    /// A session is under way: audio is captured or transcripts are still due.
    pub open spec fn is_active(self) -> bool {
        self is BufferingPreConnect || self is Connecting || self is Recording
            || self is Finalizing
    }

    /// A new session may begin.
    pub open spec fn can_start(self) -> bool {
        self is Idle || self is Error
    }

    /// The session is capturing and has not been asked to stop yet.
    pub open spec fn can_stop(self) -> bool {
        self is BufferingPreConnect || self is Connecting || self is Recording
    }

    pub open spec fn start(self) -> SessionPhase {
        if self.can_start() {
            SessionPhase::BufferingPreConnect
        } else {
            self
        }
    }

    pub open spec fn connected(self) -> SessionPhase {
        if self is BufferingPreConnect {
            SessionPhase::Connecting
        } else {
            self
        }
    }

    pub open spec fn first_transcript(self) -> SessionPhase {
        if self is BufferingPreConnect || self is Connecting {
            SessionPhase::Recording
        } else {
            self
        }
    }

    pub open spec fn finalize(self) -> SessionPhase {
        if self.can_stop() {
            SessionPhase::Finalizing { pending: 0 }
        } else {
            self
        }
    }

    pub open spec fn begin_injection(self) -> SessionPhase {
        match self {
            SessionPhase::Finalizing { pending } => SessionPhase::Finalizing {
                pending: pending + 1,
            },
            _ => self,
        }
    }

    pub open spec fn finish_injection(self) -> SessionPhase {
        match self {
            SessionPhase::Finalizing { pending } => SessionPhase::Finalizing {
                pending: if pending > 0 {
                    (pending - 1) as nat
                } else {
                    0
                },
            },
            _ => self,
        }
    }

    pub open spec fn drained(self) -> SessionPhase {
        if self == (SessionPhase::Finalizing { pending: 0 }) {
            SessionPhase::Idle
        } else {
            self
        }
    }

    pub open spec fn fail(self, message: Seq<char>) -> SessionPhase {
        SessionPhase::Error { message }
    }

    /// The phase that follows `self` when `op` is requested.
    pub open spec fn step(self, op: SessionOp) -> SessionPhase {
        match op {
            SessionOp::Start => self.start(),
            SessionOp::Connected => self.connected(),
            SessionOp::FirstTranscript => self.first_transcript(),
            SessionOp::Finalize => self.finalize(),
            SessionOp::BeginInjection => self.begin_injection(),
            SessionOp::FinishInjection => self.finish_injection(),
            SessionOp::Drained => self.drained(),
            SessionOp::Fail { message } => self.fail(message),
        }
    }

    /// The phase reached from `self` after the requests `ops`, in order.
    pub open spec fn run(self, ops: Seq<SessionOp>) -> SessionPhase
        decreases ops.len(),
    {
        if ops.len() == 0 {
            self
        } else {
            self.run(ops.drop_last()).step(ops.last())
        }
    }
}

impl View for RecordingState {
    type V = SessionPhase;

    open spec fn view(&self) -> SessionPhase {
        match *self {
            RecordingState::Idle => SessionPhase::Idle,
            RecordingState::BufferingPreConnect => SessionPhase::BufferingPreConnect,
            RecordingState::Connecting => SessionPhase::Connecting,
            RecordingState::Recording => SessionPhase::Recording,
            RecordingState::Finalizing { pending_injections } => SessionPhase::Finalizing {
                pending: pending_injections as nat,
            },
            RecordingState::Error(message) => SessionPhase::Error { message: message@ },
        }
    }
}

impl RecordingState {
    pub fn is_active(&self) -> (active: bool)
        ensures
            active == self@.is_active(),
    {
        match self {
            RecordingState::BufferingPreConnect => true,
            RecordingState::Connecting => true,
            RecordingState::Recording => true,
            RecordingState::Finalizing { .. } => true,
            _ => false,
        }
    }

    pub fn can_start(&self) -> (allowed: bool)
        ensures
            allowed == self@.can_start(),
    {
        match self {
            RecordingState::Idle => true,
            RecordingState::Error(_) => true,
            _ => false,
        }
    }

    pub fn can_stop(&self) -> (allowed: bool)
        ensures
            allowed == self@.can_stop(),
    {
        match self {
            RecordingState::BufferingPreConnect => true,
            RecordingState::Connecting => true,
            RecordingState::Recording => true,
            _ => false,
        }
    }

    pub fn is_finalizing(&self) -> (finalizing: bool)
        ensures
            finalizing == (self@ is Finalizing),
    {
        match self {
            RecordingState::Finalizing { .. } => true,
            _ => false,
        }
    }

    /// Begins a session from `Idle` or `Error`. In any other state the request
    /// is rejected: the result is `false` and the state is left untouched.
    pub fn start(&mut self) -> (accepted: bool)
        ensures
            accepted == old(self)@.can_start(),
            final(self)@ == old(self)@.start(),
            !accepted ==> *final(self) == *old(self),
    {
        if self.can_start() {
            *self = RecordingState::BufferingPreConnect;
            true
        } else {
            false
        }
    }

    /// The audio is being buffered and the connection attempt begins.
    pub fn transition_to_connecting(&mut self)
        ensures
            final(self)@ == old(self)@.connected(),
    {
        if let RecordingState::BufferingPreConnect = self {
            *self = RecordingState::Connecting;
        }
    }

    /// The first transcript has arrived: the session is recording.
    pub fn transition_to_recording(&mut self)
        ensures
            final(self)@ == old(self)@.first_transcript(),
    {
        let waiting = match self {
            RecordingState::BufferingPreConnect => true,
            RecordingState::Connecting => true,
            _ => false,
        };
        if waiting {
            *self = RecordingState::Recording;
        }
    }

    /// Enters `Finalizing` with no injection pending. Asking again while
    /// already finalizing changes nothing, and neither does asking when no
    /// session is capturing.
    pub fn transition_to_finalizing(&mut self)
        ensures
            final(self)@ == old(self)@.finalize(),
    {
        if self.can_stop() {
            *self = RecordingState::Finalizing { pending_injections: 0 };
        }
    }

    /// Counts one more text injection in flight. Only meaningful while
    /// finalizing; elsewhere the state stays as it is.
    pub fn begin_injection(&mut self)
        requires
            old(self)@ matches SessionPhase::Finalizing { pending } ==> pending < usize::MAX,
        ensures
            final(self)@ == old(self)@.begin_injection(),
    {
        if let RecordingState::Finalizing { pending_injections } = self {
            let pending: usize = *pending_injections;
            *self = RecordingState::Finalizing { pending_injections: pending + 1 };
        }
    }

    /// Counts one text injection as completed; the counter never goes below
    /// zero.
    pub fn finish_injection(&mut self)
        ensures
            final(self)@ == old(self)@.finish_injection(),
    {
        if let RecordingState::Finalizing { pending_injections } = self {
            let pending: usize = *pending_injections;
            let left: usize = if pending > 0 {
                pending - 1
            } else {
                0
            };
            *self = RecordingState::Finalizing { pending_injections: left };
        }
    }

    /// Closes the session once finalization has drained: `Finalizing` with no
    /// injection pending becomes `Idle`. In every other state, and while an
    /// injection is still in flight, nothing changes.
    pub fn transition_to_idle(&mut self)
        ensures
            final(self)@ == old(self)@.drained(),
            old(self)@ != (SessionPhase::Finalizing { pending: 0 }) ==> *final(self) == *old(self),
    {
        let drained = match self {
            RecordingState::Finalizing { pending_injections } => *pending_injections == 0,
            _ => false,
        };
        if drained {
            *self = RecordingState::Idle;
        }
    }

    /// Records a fatal failure, from whatever state the session is in.
    pub fn transition_to_error(&mut self, message: String)
        ensures
            final(self)@ == old(self)@.fail(message@),
            *final(self) == RecordingState::Error(message),
    {
        *self = RecordingState::Error(message);
    }
}

/// Injections begun minus injections finished within `ops`.
pub open spec fn open_injections(ops: Seq<SessionOp>) -> int
    decreases ops.len(),
{
    if ops.len() == 0 {
        0
    } else {
        open_injections(ops.drop_last()) + match ops.last() {
            SessionOp::BeginInjection => 1int,
            SessionOp::FinishInjection => -1int,
            _ => 0int,
        }
    }
}

/// `ops` holds nothing but begin and finish requests, and no finish comes
/// before the begin that it answers.
pub open spec fn injections_paired(ops: Seq<SessionOp>) -> bool {
    &&& forall|k: int|
        0 <= k < ops.len() ==> #[trigger] ops[k] is BeginInjection || ops[k] is FinishInjection
    &&& forall|k: int| 0 <= k <= ops.len() ==> open_injections(#[trigger] ops.take(k)) >= 0
}

/// One more request extends a run by one step.
pub proof fn lemma_run_extends(start: SessionPhase, ops: Seq<SessionOp>, k: int)
    requires
        0 <= k < ops.len(),
    ensures
        start.run(ops.take(k + 1)) == start.run(ops.take(k)).step(ops[k]),
{
    assert(ops.take(k + 1).drop_last() =~= ops.take(k));
}

/// No single request moves a session to `Idle` unless it is finalizing with
/// no injection pending (or is idle already).
pub proof fn lemma_idle_only_when_drained(before: SessionPhase, op: SessionOp)
    ensures
        before.step(op) is Idle ==> before is Idle || before == (SessionPhase::Finalizing {
            pending: 0,
        }),
        before matches SessionPhase::Finalizing { pending } && pending > 0 ==> !(before.step(
            op,
        ) is Idle),
{
}

/// Along any sequence of requests from any starting phase: while an
/// injection is pending, the next request does not return the session to
/// `Idle`.
pub proof fn lemma_no_idle_while_injecting(start: SessionPhase, ops: Seq<SessionOp>, k: int)
    requires
        0 <= k < ops.len(),
        start.run(ops.take(k)) matches SessionPhase::Finalizing { pending } && pending > 0,
    ensures
        !(start.run(ops.take(k + 1)) is Idle),
{
    lemma_run_extends(start, ops, k);
    lemma_idle_only_when_drained(start.run(ops.take(k)), ops[k]);
}

/// While finalizing, paired begin and finish requests keep the counter at
/// exactly the number of injections still in flight, which is never negative.
pub proof fn lemma_counter_tracks_open_injections(ops: Seq<SessionOp>)
    requires
        injections_paired(ops),
    ensures
        open_injections(ops) >= 0,
        (SessionPhase::Finalizing { pending: 0 }).run(ops) == (SessionPhase::Finalizing {
            pending: open_injections(ops) as nat,
        }),
    decreases ops.len(),
{
    assert(ops.take(ops.len() as int) =~= ops);
    if ops.len() > 0 {
        let shorter = ops.drop_last();
        assert forall|k: int| 0 <= k <= shorter.len() implies open_injections(
            #[trigger] shorter.take(k),
        ) >= 0 by {
            assert(shorter.take(k) =~= ops.take(k));
        }
        lemma_counter_tracks_open_injections(shorter);
        assert(ops.last() == ops[ops.len() - 1]);
    }
}

impl Default for RecordingState {
    fn default() -> (state: RecordingState)
        ensures
            state == RecordingState::Idle,
    {
        RecordingState::Idle
    }
}

} // verus!
