//! The decisions behind one backend process: its command line, and a session
//! that turns what happens to the process into what to do next. The caller
//! spawns, pumps and reaps; the session tells it when to close the engine's
//! input, when to answer the client, when to kill the engine, and how the
//! exchange ended.

use vstd::prelude::*;
use vstd::slice::{slice_subrange, slice_to_vec};
use crate::service::{Mode, Service};

verus! {

/// How an exchange with the backend failed.
#[derive(Debug, PartialEq, Eq)]
pub enum BridgeError {
    /// The engine could not be started.
    SpawnFailed,
    /// The engine's input could not be written to the end.
    WriteFailed,
    /// The engine ended with a status other than 0; `code` is `None` where
    /// it ended without an exit code. `stderr_tail` is the end of what it
    /// wrote to its standard error.
    NonZeroExit { code: Option<i32>, stderr_tail: Vec<u8> },
}

/// A failure, with sequences for its bytes.
pub enum BridgeErrorView {
    SpawnFailed,
    WriteFailed,
    NonZeroExit { code: Option<i32>, stderr_tail: Seq<u8> },
}

impl View for BridgeError {
    type V = BridgeErrorView;

    open spec fn view(&self) -> BridgeErrorView {
        match self {
            BridgeError::SpawnFailed => BridgeErrorView::SpawnFailed,
            BridgeError::WriteFailed => BridgeErrorView::WriteFailed,
            BridgeError::NonZeroExit { code, stderr_tail } => BridgeErrorView::NonZeroExit {
                code: *code,
                stderr_tail: stderr_tail@,
            },
        }
    }
}

/// Where a session stands.
#[derive(Clone, Copy, Debug, PartialEq, Eq, Structural)]
pub enum Phase {
    /// No engine has been started.
    Idle,
    /// The engine runs and its input is open: the request body goes in while
    /// the output comes out.
    Pumping,
    /// The engine runs and its input is closed: what is left of the output
    /// comes out.
    Draining,
    /// The engine was told to die and has not been reaped yet.
    Cancelling,
    /// There is no engine any more: it was reaped, or never started.
    Finished,
}

/// What happened to the engine or to the client.
#[derive(Debug, PartialEq, Eq)]
pub enum BridgeEvent {
    /// The engine was started.
    Spawned,
    /// The engine could not be started.
    SpawnFailed,
    /// The whole request body has been written to the engine's input.
    InputDone,
    /// Writing to the engine's input failed.
    WriteFailed,
    /// The engine has written to its standard output.
    Output,
    /// The engine wrote these bytes to its standard error.
    Stderr(Vec<u8>),
    /// The engine ended and was reaped. `code` is its exit code, if it ended
    /// with one.
    Exited { code: Option<i32> },
    /// The client went away before the response was complete.
    ClientGone,
}

/// An event, with sequences for its bytes.
pub enum BridgeEventView {
    Spawned,
    SpawnFailed,
    InputDone,
    WriteFailed,
    Output,
    Stderr(Seq<u8>),
    Exited { code: Option<i32> },
    ClientGone,
}

impl View for BridgeEvent {
    type V = BridgeEventView;

    open spec fn view(&self) -> BridgeEventView {
        match self {
            BridgeEvent::Spawned => BridgeEventView::Spawned,
            BridgeEvent::SpawnFailed => BridgeEventView::SpawnFailed,
            BridgeEvent::InputDone => BridgeEventView::InputDone,
            BridgeEvent::WriteFailed => BridgeEventView::WriteFailed,
            BridgeEvent::Output => BridgeEventView::Output,
            BridgeEvent::Stderr(bytes) => BridgeEventView::Stderr(bytes@),
            BridgeEvent::Exited { code } => BridgeEventView::Exited { code: *code },
            BridgeEvent::ClientGone => BridgeEventView::ClientGone,
        }
    }
}

/// What the caller does next.
#[derive(Debug, PartialEq, Eq)]
pub enum BridgeAction {
    /// Write the request body to the engine's input and read its output, both
    /// at once.
    Pump,
    /// Close the engine's input, and go on reading its output.
    CloseInput,
    /// Kill the engine, and wait for it to end.
    Kill,
    /// Nothing new; go on.
    Continue,
    /// The engine's output has begun and nothing has failed: answer the
    /// client now, with that output as the body.
    Respond,
    /// The exchange is over and went well: the output is complete.
    /// `answered` says whether the client has its answer already; where it
    /// has not, it is answered now.
    Succeed { answered: bool },
    /// The exchange is over and failed. `answered` says whether the client
    /// has its answer already: where it has, the body is cut short and the
    /// connection closed; where it has not, it is answered now.
    Fail { error: BridgeError, answered: bool },
    /// The exchange is over and nobody waits for its result.
    Abandon,
}

/// An action, with sequences for its bytes.
pub enum BridgeActionView {
    Pump,
    CloseInput,
    Kill,
    Continue,
    Respond,
    Succeed { answered: bool },
    Fail { error: BridgeErrorView, answered: bool },
    Abandon,
}

impl View for BridgeAction {
    type V = BridgeActionView;

    open spec fn view(&self) -> BridgeActionView {
        match self {
            BridgeAction::Pump => BridgeActionView::Pump,
            BridgeAction::CloseInput => BridgeActionView::CloseInput,
            BridgeAction::Kill => BridgeActionView::Kill,
            BridgeAction::Continue => BridgeActionView::Continue,
            BridgeAction::Respond => BridgeActionView::Respond,
            BridgeAction::Succeed { answered } => BridgeActionView::Succeed {
                answered: *answered,
            },
            BridgeAction::Fail { error, answered } => BridgeActionView::Fail {
                error: error@,
                answered: *answered,
            },
            BridgeAction::Abandon => BridgeActionView::Abandon,
        }
    }
}

/// The state of a session.
pub struct SessionState {
    pub service: Service,
    pub phase: Phase,
    /// Whether a write to the engine's input has failed.
    pub write_failed: bool,
    /// Whether the client has been answered.
    pub answered: bool,
    /// How many bytes of the engine's standard error are kept.
    pub stderr_keep: nat,
    /// The end of what the engine has written to its standard error.
    pub stderr_tail: Seq<u8>,
}

/// The channel to one backend process, for one request.
pub struct BridgeSession {
    service: Service,
    phase: Phase,
    write_failed: bool,
    answered: bool,
    stderr_keep: usize,
    stderr_tail: Vec<u8>,
}

impl View for BridgeSession {
    type V = SessionState;

    closed spec fn view(&self) -> SessionState {
        SessionState {
            service: self.service,
            phase: self.phase,
            write_failed: self.write_failed,
            answered: self.answered,
            stderr_keep: self.stderr_keep as nat,
            stderr_tail: self.stderr_tail@,
        }
    }
}

/// The executable that is the backend engine.
pub open spec fn program() -> Seq<char> {
    "git"@
}

/// The engine's arguments for `service`: the subcommand, `--stateless-rpc`,
/// `--advertise-refs` for an advertisement, and `.` for the repository, which
/// is the directory the engine runs in.
pub open spec fn argv_for(service: Service) -> Seq<Seq<char>> {
    if service.spec_mode() == Mode::Advertise {
        seq![service.spec_name(), "--stateless-rpc"@, "--advertise-refs"@, "."@]
    } else {
        seq![service.spec_name(), "--stateless-rpc"@, "."@]
    }
}

/// The last `keep` bytes of `bytes`, or all of them where there are fewer.
pub open spec fn tail_of(bytes: Seq<u8>, keep: nat) -> Seq<u8> {
    if bytes.len() <= keep {
        bytes
    } else {
        bytes.skip(bytes.len() - keep)
    }
}

/// How an exchange ended whose engine was reaped with `code`. A write that
/// failed is the earlier failure and is the one reported; otherwise only the
/// exit code 0 is success.
pub open spec fn verdict(
    write_failed: bool,
    code: Option<i32>,
    stderr_tail: Seq<u8>,
    answered: bool,
) -> BridgeActionView {
    if write_failed {
        BridgeActionView::Fail { error: BridgeErrorView::WriteFailed, answered }
    } else if code == Some(0i32) {
        BridgeActionView::Succeed { answered }
    } else {
        BridgeActionView::Fail {
            error: BridgeErrorView::NonZeroExit { code, stderr_tail },
            answered,
        }
    }
}

/// A session before anything has happened.
pub open spec fn fresh(service: Service, stderr_keep: nat) -> SessionState {
    SessionState {
        service,
        phase: Phase::Idle,
        write_failed: false,
        answered: false,
        stderr_keep,
        stderr_tail: Seq::empty(),
    }
}

/// The state after `event`, and what the caller does next. An RPC is
/// answered when the engine's output begins, unless a write has failed by
/// then, and otherwise at the end of the exchange; an advertisement, whose
/// output is framed as a whole, at the end of the exchange.
pub open spec fn transition(state: SessionState, event: BridgeEventView) -> (
    SessionState,
    BridgeActionView,
) {
    match (state.phase, event) {
        (Phase::Idle, BridgeEventView::Spawned) => if state.service.spec_mode()
            == Mode::Advertise {
            (SessionState { phase: Phase::Draining, ..state }, BridgeActionView::CloseInput)
        } else {
            (SessionState { phase: Phase::Pumping, ..state }, BridgeActionView::Pump)
        },
        (Phase::Idle, BridgeEventView::SpawnFailed) => (
            SessionState { phase: Phase::Finished, ..state },
            BridgeActionView::Fail {
                error: BridgeErrorView::SpawnFailed,
                answered: state.answered,
            },
        ),
        (Phase::Idle, BridgeEventView::ClientGone) => (
            SessionState { phase: Phase::Finished, ..state },
            BridgeActionView::Abandon,
        ),
        (Phase::Pumping, BridgeEventView::InputDone) => (
            SessionState { phase: Phase::Draining, ..state },
            BridgeActionView::CloseInput,
        ),
        (Phase::Pumping, BridgeEventView::WriteFailed) => (
            SessionState { phase: Phase::Draining, write_failed: true, ..state },
            BridgeActionView::CloseInput,
        ),
        (Phase::Pumping, BridgeEventView::Output)
        | (Phase::Draining, BridgeEventView::Output) => if state.service.spec_mode()
            == Mode::Exec && !state.answered && !state.write_failed {
            (SessionState { answered: true, ..state }, BridgeActionView::Respond)
        } else {
            (state, BridgeActionView::Continue)
        },
        (Phase::Pumping, BridgeEventView::Stderr(bytes))
        | (Phase::Draining, BridgeEventView::Stderr(bytes)) => (
            SessionState {
                stderr_tail: tail_of(state.stderr_tail + bytes, state.stderr_keep),
                ..state
            },
            BridgeActionView::Continue,
        ),
        (Phase::Pumping, BridgeEventView::Exited { code })
        | (Phase::Draining, BridgeEventView::Exited { code }) => (
            SessionState { phase: Phase::Finished, ..state },
            verdict(state.write_failed, code, state.stderr_tail, state.answered),
        ),
        (Phase::Pumping, BridgeEventView::ClientGone)
        | (Phase::Draining, BridgeEventView::ClientGone) => (
            SessionState { phase: Phase::Cancelling, ..state },
            BridgeActionView::Kill,
        ),
        (Phase::Cancelling, BridgeEventView::Exited { .. }) => (
            SessionState { phase: Phase::Finished, ..state },
            BridgeActionView::Abandon,
        ),
        _ => (state, BridgeActionView::Continue),
    }
}

/// The name of the executable that is the backend engine.
pub fn backend_program() -> (name: &'static str)
    ensures
        name@ == program(),
{
    "git"
}

/// The arguments to start the engine with for `service`.
pub fn backend_argv(service: Service) -> (argv: Vec<&'static str>)
    ensures
        argv.deep_view() == argv_for(service),
{
    let mut argv: Vec<&'static str> = Vec::new();
    argv.push(service.name());
    argv.push("--stateless-rpc");
    match service.mode() {
        Mode::Advertise => {
            argv.push("--advertise-refs");
        },
        Mode::Exec => {},
    }
    argv.push(".");
    assert(argv.deep_view() =~= argv_for(service));
    argv
}

/// The last `keep` bytes of `bytes`.
pub fn tail(bytes: &[u8], keep: usize) -> (kept: Vec<u8>)
    ensures
        kept@ == tail_of(bytes@, keep as nat),
{
    if bytes.len() <= keep {
        slice_to_vec(bytes)
    } else {
        let kept = slice_to_vec(slice_subrange(bytes, bytes.len() - keep, bytes.len()));
        assert(kept@ =~= bytes@.skip(bytes@.len() - keep));
        kept
    }
}

/// The last `keep` bytes of `kept` followed by `bytes`.
fn tail_of_both(kept: &[u8], bytes: &[u8], keep: usize) -> (all: Vec<u8>)
    ensures
        all@ == tail_of(kept@ + bytes@, keep as nat),
        all@.len() <= keep,
{
    if bytes.len() >= keep {
        let all = tail(bytes, keep);
        assert(all@ =~= tail_of(kept@ + bytes@, keep as nat));
        all
    } else {
        let room = keep - bytes.len();
        let mut all = tail(kept, room);
        all.extend_from_slice(bytes);
        assert(all@ =~= tail_of(kept@ + bytes@, keep as nat));
        all
    }
}

impl BridgeSession {
    #[verifier::type_invariant]
    spec fn keeps_no_more(&self) -> bool {
        self.stderr_tail@.len() <= self.stderr_keep
    }

    /// A session for one request. It keeps the last `stderr_keep` bytes of
    /// what the engine writes to its standard error, for a failure to carry.
    pub fn new(service: Service, stderr_keep: usize) -> (session: BridgeSession)
        ensures
            session@ == fresh(service, stderr_keep as nat),
    {
        BridgeSession {
            service,
            phase: Phase::Idle,
            write_failed: false,
            answered: false,
            stderr_keep,
            stderr_tail: Vec::new(),
        }
    }

    /// The service this session runs.
    pub fn service(&self) -> (service: Service)
        ensures
            service == self@.service,
    {
        self.service
    }

    /// Where the session stands.
    pub fn phase(&self) -> (phase: Phase)
        ensures
            phase == self@.phase,
    {
        self.phase
    }

    /// Whether the client has been told to be answered.
    pub fn is_answered(&self) -> (answered: bool)
        ensures
            answered == self@.answered,
    {
        self.answered
    }

    /// Whether the exchange is over.
    pub fn is_finished(&self) -> (finished: bool)
        ensures
            finished == (self@.phase == Phase::Finished),
    {
        match self.phase {
            Phase::Finished => true,
            _ => false,
        }
    }

    /// Takes note of `event` and says what to do next.
    pub fn step(&mut self, event: BridgeEvent) -> (action: BridgeAction)
        ensures
            (final(self)@, action@) == transition(old(self)@, event@),
    {
        proof {
            use_type_invariant(&*self);
        }
        match (self.phase, event) {
            (Phase::Idle, BridgeEvent::Spawned) => match self.service.mode() {
                Mode::Advertise => {
                    self.phase = Phase::Draining;
                    BridgeAction::CloseInput
                },
                Mode::Exec => {
                    self.phase = Phase::Pumping;
                    BridgeAction::Pump
                },
            },
            (Phase::Idle, BridgeEvent::SpawnFailed) => {
                self.phase = Phase::Finished;
                BridgeAction::Fail { error: BridgeError::SpawnFailed, answered: self.answered }
            },
            (Phase::Idle, BridgeEvent::ClientGone) => {
                self.phase = Phase::Finished;
                BridgeAction::Abandon
            },
            (Phase::Pumping, BridgeEvent::InputDone) => {
                self.phase = Phase::Draining;
                BridgeAction::CloseInput
            },
            (Phase::Pumping, BridgeEvent::WriteFailed) => {
                self.phase = Phase::Draining;
                self.write_failed = true;
                BridgeAction::CloseInput
            },
            (Phase::Pumping, BridgeEvent::Output) | (Phase::Draining, BridgeEvent::Output) => {
                let rpc = match self.service.mode() {
                    Mode::Exec => true,
                    Mode::Advertise => false,
                };
                if rpc && !self.answered && !self.write_failed {
                    self.answered = true;
                    BridgeAction::Respond
                } else {
                    BridgeAction::Continue
                }
            },
            (Phase::Pumping, BridgeEvent::Stderr(bytes))
            | (Phase::Draining, BridgeEvent::Stderr(bytes)) => {
                self.stderr_tail = tail_of_both(
                    self.stderr_tail.as_slice(),
                    bytes.as_slice(),
                    self.stderr_keep,
                );
                BridgeAction::Continue
            },
            (Phase::Pumping, BridgeEvent::Exited { code })
            | (Phase::Draining, BridgeEvent::Exited { code }) => {
                self.phase = Phase::Finished;
                if self.write_failed {
                    BridgeAction::Fail { error: BridgeError::WriteFailed, answered: self.answered }
                } else {
                    match code {
                        Some(0) => BridgeAction::Succeed { answered: self.answered },
                        _ => BridgeAction::Fail {
                            error: BridgeError::NonZeroExit {
                                code,
                                stderr_tail: slice_to_vec(self.stderr_tail.as_slice()),
                            },
                            answered: self.answered,
                        },
                    }
                }
            },
            (Phase::Pumping, BridgeEvent::ClientGone)
            | (Phase::Draining, BridgeEvent::ClientGone) => {
                self.phase = Phase::Cancelling;
                BridgeAction::Kill
            },
            (Phase::Cancelling, BridgeEvent::Exited { .. }) => {
                self.phase = Phase::Finished;
                BridgeAction::Abandon
            },
            _ => BridgeAction::Continue,
        }
    }
}

/// Whether an engine has been started and not yet reaped.
pub open spec fn engine_runs(phase: Phase) -> bool {
    phase == Phase::Pumping || phase == Phase::Draining || phase == Phase::Cancelling
}

/// How far a session has come. No event takes it back.
pub open spec fn progress(phase: Phase) -> nat {
    match phase {
        Phase::Idle => 0,
        Phase::Pumping => 1,
        Phase::Draining => 2,
        Phase::Cancelling => 3,
        Phase::Finished => 4,
    }
}

/// Whether an action ends the exchange.
pub open spec fn is_final(action: BridgeActionView) -> bool {
    action is Succeed || action is Fail || action is Abandon
}

/// Whether an action has the client answered: the engine's output begins,
/// or the exchange ends and the client has no answer yet.
pub open spec fn answers(action: BridgeActionView) -> bool {
    ||| action is Respond
    ||| action matches BridgeActionView::Succeed { answered } && !answered
    ||| action matches BridgeActionView::Fail { answered, .. } && !answered
}

/// The state after a sequence of events, taken in order.
pub open spec fn run(state: SessionState, events: Seq<BridgeEventView>) -> SessionState
    decreases events.len(),
{
    if events.len() == 0 {
        state
    } else {
        transition(run(state, events.drop_last()), events.last()).0
    }
}

/// What the caller is told at the event of index `i`.
pub open spec fn action_at(state: SessionState, events: Seq<BridgeEventView>, i: int)
    -> BridgeActionView {
    transition(run(state, events.take(i)), events[i]).1
}

/// No event changes the service or the limit of a session; the phase never
/// goes back, a failed write stays failed, an answered client stays
/// answered, and what is kept of the engine's standard error stays within
/// the limit.
pub proof fn lemma_step_moves_forward(state: SessionState, event: BridgeEventView)
    ensures
        transition(state, event).0.service == state.service,
        transition(state, event).0.stderr_keep == state.stderr_keep,
        progress(transition(state, event).0.phase) >= progress(state.phase),
        state.write_failed ==> transition(state, event).0.write_failed,
        state.answered ==> transition(state, event).0.answered,
        state.stderr_tail.len() <= state.stderr_keep ==> transition(state, event).0.stderr_tail.len()
            <= state.stderr_keep,
{
}

/// A finished session stays as it is, and asks for nothing more.
pub proof fn lemma_finished_is_final(state: SessionState, event: BridgeEventView)
    requires
        state.phase == Phase::Finished,
    ensures
        transition(state, event) == (state, BridgeActionView::Continue),
{
}

/// An engine is started by nothing but a successful spawn, and a session
/// that holds an engine lets go of it only when the engine has been reaped.
pub proof fn lemma_engine_is_held_until_reaped(state: SessionState, event: BridgeEventView)
    ensures
        !engine_runs(state.phase) && engine_runs(transition(state, event).0.phase) ==> state.phase
            == Phase::Idle && event is Spawned,
        engine_runs(state.phase) && !engine_runs(transition(state, event).0.phase) ==> event is Exited
            && transition(state, event).0.phase == Phase::Finished,
{
}

/// The exchange ends at the step that finishes the session, and only there.
pub proof fn lemma_final_action_finishes(state: SessionState, event: BridgeEventView)
    ensures
        is_final(transition(state, event).1) <==> state.phase != Phase::Finished && transition(
            state,
            event,
        ).0.phase == Phase::Finished,
{
}

/// The engine's input is closed when the whole request body has been
/// written or a write has failed, and for an advertisement, which writes no
/// input, as soon as the engine runs; at no other time. Once it is closed
/// the session drains.
pub proof fn lemma_when_input_closes(state: SessionState, event: BridgeEventView)
    ensures
        transition(state, event).1 is CloseInput <==> (state.phase == Phase::Pumping && (event
            is InputDone || event is WriteFailed)) || (state.phase == Phase::Idle && event
            is Spawned && state.service.spec_mode() == Mode::Advertise),
        transition(state, event).1 is CloseInput ==> transition(state, event).0.phase
            == Phase::Draining,
        transition(state, event).1 is Pump <==> state.phase == Phase::Idle && event is Spawned
            && state.service.spec_mode() == Mode::Exec,
{
}

/// The engine is killed when the client goes away while the engine runs,
/// and at no other time; the session then waits for the engine to be reaped.
pub proof fn lemma_when_engine_is_killed(state: SessionState, event: BridgeEventView)
    ensures
        transition(state, event).1 is Kill <==> (state.phase == Phase::Pumping || state.phase
            == Phase::Draining) && event is ClientGone,
        transition(state, event).1 is Kill ==> transition(state, event).0.phase
            == Phase::Cancelling,
{
}

/// How an exchange can end: in success only with exit code 0 and no failed
/// write; with `SpawnFailed` only when the spawn failed; with `WriteFailed`
/// only after a failed write; with `NonZeroExit` only with another exit
/// status than 0, which it carries with what the session kept of the
/// engine's standard error. The end says truly whether the client had its
/// answer.
pub proof fn lemma_how_exchanges_end(state: SessionState, event: BridgeEventView)
    ensures
        transition(state, event).1 matches BridgeActionView::Succeed { answered } ==> answered
            == state.answered && !state.write_failed && event == (BridgeEventView::Exited {
            code: Some(0i32),
        }),
        transition(state, event).1 matches BridgeActionView::Fail { error, answered } ==> answered
            == state.answered && match error {
            BridgeErrorView::SpawnFailed => state.phase == Phase::Idle && event is SpawnFailed,
            BridgeErrorView::WriteFailed => state.write_failed && event is Exited,
            BridgeErrorView::NonZeroExit { code, stderr_tail } => code != Some(0i32)
                && !state.write_failed && stderr_tail == state.stderr_tail && event == (
            BridgeEventView::Exited { code }),
        },
        state.phase == Phase::Idle && event is SpawnFailed ==> transition(state, event).1 == (
        BridgeActionView::Fail { error: BridgeErrorView::SpawnFailed, answered: state.answered }),
{
}

/// When the client is answered. An RPC is answered as soon as the engine's
/// output begins, unless a write has failed before, and otherwise at the end
/// of the exchange, be it a success or a failure; an advertisement at the
/// end of the exchange. A client that has its answer is not answered again.
pub proof fn lemma_when_client_is_answered(state: SessionState, event: BridgeEventView)
    ensures
        transition(state, event).1 is Respond <==> (state.phase == Phase::Pumping || state.phase
            == Phase::Draining) && event is Output && state.service.spec_mode() == Mode::Exec
            && !state.answered && !state.write_failed,
        transition(state, event).1 is Respond ==> transition(state, event).0.answered
            && transition(state, event).0.phase == state.phase,
        answers(transition(state, event).1) ==> !state.answered,
        !state.answered && (transition(state, event).1 is Succeed || transition(state, event).1
            is Fail) ==> answers(transition(state, event).1),
        transition(state, event).0.answered ==> state.answered || transition(state, event).1
            is Respond,
{
}

/// The end of what has been written can be kept piece by piece: the end of
/// the kept end and a new piece is the end of all.
pub proof fn lemma_tail_of_tail(seen: Seq<u8>, bytes: Seq<u8>, keep: nat)
    ensures
        tail_of(tail_of(seen, keep) + bytes, keep) == tail_of(seen + bytes, keep),
        tail_of(seen, keep).len() <= keep,
{
    assert(tail_of(tail_of(seen, keep) + bytes, keep) =~= tail_of(seen + bytes, keep));
}

/// Running one more event is one more step.
pub proof fn lemma_run_step(state: SessionState, events: Seq<BridgeEventView>, i: int)
    requires
        0 <= i < events.len(),
    ensures
        run(state, events.take(i + 1)) == transition(run(state, events.take(i)), events[i]).0,
{
    assert(events.take(i + 1).drop_last() =~= events.take(i));
}

/// Over any sequence of events a session only moves forward.
pub proof fn lemma_run_moves_forward(
    state: SessionState,
    events: Seq<BridgeEventView>,
    i: int,
    j: int,
)
    requires
        0 <= i <= j <= events.len(),
    ensures
        progress(run(state, events.take(j)).phase) >= progress(run(state, events.take(i)).phase),
    decreases j - i,
{
    if i < j {
        lemma_run_moves_forward(state, events, i, j - 1);
        lemma_run_step(state, events, j - 1);
        lemma_step_moves_forward(run(state, events.take(j - 1)), events[j - 1]);
    }
}

/// Over any sequence of events a session keeps its service and its limit,
/// and does not go back.
pub proof fn lemma_run_keeps_its_terms(state: SessionState, events: Seq<BridgeEventView>)
    ensures
        run(state, events).service == state.service,
        run(state, events).stderr_keep == state.stderr_keep,
        progress(run(state, events).phase) >= progress(state.phase),
        state.answered ==> run(state, events).answered,
        state.write_failed ==> run(state, events).write_failed,
        state.stderr_tail.len() <= state.stderr_keep ==> run(state, events).stderr_tail.len()
            <= state.stderr_keep,
    decreases events.len(),
{
    if events.len() > 0 {
        lemma_run_keeps_its_terms(state, events.drop_last());
        lemma_step_moves_forward(run(state, events.drop_last()), events.last());
    }
}

/// All that `events` report of the engine's standard error, in order.
pub open spec fn stderr_in(events: Seq<BridgeEventView>) -> Seq<u8>
    decreases events.len(),
{
    if events.len() == 0 {
        Seq::empty()
    } else {
        stderr_in(events.drop_last()) + match events.last() {
            BridgeEventView::Stderr(bytes) => bytes,
            _ => Seq::empty(),
        }
    }
}

/// While the engine runs and the client waits, the session holds the end of
/// all that the engine has written to its standard error: where it held the
/// end of `seen` before `events`, it holds the end of `seen` and of what
/// `events` report after them.
pub proof fn lemma_session_keeps_the_end(
    state: SessionState,
    seen: Seq<u8>,
    events: Seq<BridgeEventView>,
)
    requires
        state.phase == Phase::Pumping || state.phase == Phase::Draining,
        state.stderr_tail == tail_of(seen, state.stderr_keep),
        run(state, events).phase == Phase::Pumping || run(state, events).phase == Phase::Draining,
    ensures
        run(state, events).stderr_tail == tail_of(seen + stderr_in(events), state.stderr_keep),
    decreases events.len(),
{
    if events.len() == 0 {
        assert(seen + stderr_in(events) =~= seen);
    } else {
        let earlier = events.drop_last();
        let before = run(state, earlier);
        lemma_run_keeps_its_terms(state, earlier);
        lemma_step_moves_forward(before, events.last());
        lemma_session_keeps_the_end(state, seen, earlier);
        match events.last() {
            BridgeEventView::Stderr(bytes) => {
                lemma_tail_of_tail(seen + stderr_in(earlier), bytes, state.stderr_keep);
                assert((seen + stderr_in(earlier)) + bytes =~= seen + stderr_in(events));
            },
            _ => {
                assert(seen + stderr_in(events) =~= seen + stderr_in(earlier));
            },
        }
    }
}

/// Whatever happens, and in whatever order, the caller is told at most once
/// to close the engine's input, at most once to kill the engine, at most
/// once to answer the client, and at most once that the exchange is over;
/// after that it is told nothing more.
pub proof fn lemma_each_order_is_given_once(
    state: SessionState,
    events: Seq<BridgeEventView>,
    i: int,
    j: int,
)
    requires
        0 <= i < j < events.len(),
    ensures
        action_at(state, events, i) is CloseInput ==> !(action_at(state, events, j) is CloseInput)
            && !(action_at(state, events, j) is Pump),
        action_at(state, events, i) is Kill ==> !(action_at(state, events, j) is Kill),
        answers(action_at(state, events, i)) ==> !answers(action_at(state, events, j)),
        is_final(action_at(state, events, i)) ==> action_at(state, events, j)
            is Continue,
{
    lemma_run_step(state, events, i);
    lemma_run_moves_forward(state, events, i + 1, j);
    lemma_run_from(state, events.take(j), i + 1);
    assert(events.take(j).take(i + 1) =~= events.take(i + 1));
    lemma_run_keeps_its_terms(run(state, events.take(i + 1)), events.take(j).skip(i + 1));
}

/// Running a sequence of events is running its beginning and then the rest.
pub proof fn lemma_run_from(state: SessionState, events: Seq<BridgeEventView>, i: int)
    requires
        0 <= i <= events.len(),
    ensures
        run(state, events) == run(run(state, events.take(i)), events.skip(i)),
    decreases events.len() - i,
{
    if i == events.len() {
        assert(events.take(i) =~= events);
        assert(events.skip(i).len() == 0);
    } else {
        let earlier = events.drop_last();
        lemma_run_from(state, earlier, i);
        assert(earlier.take(i) =~= events.take(i));
        assert(events.skip(i).drop_last() =~= earlier.skip(i));
        assert(events.skip(i).last() == events.last());
    }
}

/// Every exchange that ends is answered or abandoned: where a session that
/// had not answered is finished after `events`, one of them had the client
/// answered, or the client had gone away.
pub proof fn lemma_client_is_answered(state: SessionState, events: Seq<BridgeEventView>)
    requires
        state.phase != Phase::Finished,
        !state.answered,
        run(state, events).phase == Phase::Finished,
    ensures
        exists|i: int|
            0 <= i < events.len() && (answers(#[trigger] action_at(state, events, i))
                || action_at(state, events, i) is Abandon),
    decreases events.len(),
{
    if events.len() > 0 {
        let last = events.len() - 1;
        let earlier = events.drop_last();
        let before = run(state, earlier);
        assert(events.take(last) =~= earlier);
        if before.phase == Phase::Finished {
            lemma_client_is_answered(state, earlier);
            let i = choose|i: int|
                0 <= i < earlier.len() && (answers(#[trigger] action_at(state, earlier, i))
                    || action_at(state, earlier, i) is Abandon);
            assert(earlier.take(i) =~= events.take(i));
            assert(action_at(state, events, i) == action_at(state, earlier, i));
        } else if before.answered {
            lemma_answer_was_ordered(state, earlier);
            let i = choose|i: int|
                0 <= i < earlier.len() && #[trigger] action_at(state, earlier, i) is Respond;
            assert(earlier.take(i) =~= events.take(i));
            assert(action_at(state, events, i) == action_at(state, earlier, i));
        } else {
            lemma_final_action_finishes(before, events.last());
            lemma_when_client_is_answered(before, events.last());
            assert(answers(action_at(state, events, last)) || action_at(state, events, last)
                is Abandon);
        }
    }
}

/// The session of an advertisement does not have the client answered before
/// the end of the exchange, and no session does after a write has failed:
/// what failure the end reports is then known to the answer.
pub proof fn lemma_answer_waits_for_the_end(state: SessionState, events: Seq<BridgeEventView>)
    requires
        !state.answered,
        state.service.spec_mode() == Mode::Advertise || state.write_failed,
    ensures
        !run(state, events).answered,
        forall|i: int| 0 <= i < events.len() ==> !(#[trigger] action_at(state, events, i) is Respond),
    decreases events.len(),
{
    if events.len() > 0 {
        let last = events.len() - 1;
        let earlier = events.drop_last();
        lemma_answer_waits_for_the_end(state, earlier);
        lemma_run_keeps_its_terms(state, earlier);
        lemma_step_moves_forward(run(state, earlier), events.last());
        assert(events.take(last) =~= earlier);
        assert forall|i: int| 0 <= i < events.len() implies !(#[trigger] action_at(
            state,
            events,
            i,
        ) is Respond) by {
            if i < last {
                assert(earlier.take(i) =~= events.take(i));
                assert(action_at(state, events, i) == action_at(state, earlier, i));
            }
        }
    }
}

/// As long as the engine has written no output, the client has no answer.
pub proof fn lemma_no_answer_without_output(state: SessionState, events: Seq<BridgeEventView>)
    requires
        !state.answered,
        forall|i: int| 0 <= i < events.len() ==> !(#[trigger] events[i] is Output),
    ensures
        !run(state, events).answered,
    decreases events.len(),
{
    if events.len() > 0 {
        let earlier = events.drop_last();
        assert forall|i: int| 0 <= i < earlier.len() implies !(#[trigger] earlier[i] is Output) by {
            assert(earlier[i] == events[i]);
        }
        lemma_no_answer_without_output(state, earlier);
        lemma_when_client_is_answered(run(state, earlier), events.last());
    }
}

/// A session knows the client answered only because it gave the order.
pub proof fn lemma_answer_was_ordered(state: SessionState, events: Seq<BridgeEventView>)
    requires
        !state.answered,
        run(state, events).answered,
    ensures
        exists|i: int| 0 <= i < events.len() && #[trigger] action_at(state, events, i) is Respond,
    decreases events.len(),
{
    if events.len() > 0 {
        let last = events.len() - 1;
        let earlier = events.drop_last();
        assert(events.take(last) =~= earlier);
        if run(state, earlier).answered {
            lemma_answer_was_ordered(state, earlier);
            let i = choose|i: int|
                0 <= i < earlier.len() && #[trigger] action_at(state, earlier, i) is Respond;
            assert(earlier.take(i) =~= events.take(i));
            assert(action_at(state, events, i) == action_at(state, earlier, i));
        } else {
            lemma_when_client_is_answered(run(state, earlier), events.last());
            assert(action_at(state, events, last) is Respond);
        }
    }
}

/// Every exit path reaps the engine: where an engine was started at the
/// event of index `started`, and the session is finished after all the
/// events, one of the later events is the engine's exit.
pub proof fn lemma_engine_is_reaped(
    state: SessionState,
    events: Seq<BridgeEventView>,
    started: int,
)
    requires
        0 <= started < events.len(),
        run(state, events.take(started)).phase == Phase::Idle,
        events[started] is Spawned,
        run(state, events).phase == Phase::Finished,
    ensures
        exists|reaped: int| started < reaped < events.len() && events[reaped] is Exited,
    decreases events.len(),
{
    let last = events.len() - 1;
    lemma_run_step(state, events, started);
    assert(events.take(events.len() as int) =~= events);
    if started == last {
        assert(engine_runs(run(state, events).phase));
    } else {
        let earlier = events.drop_last();
        assert(earlier.take(started) =~= events.take(started));
        assert(events.take(last) =~= earlier);
        lemma_run_step(state, events, last);
        if run(state, earlier).phase == Phase::Finished {
            lemma_engine_is_reaped(state, earlier, started);
            let reaped = choose|reaped: int|
                started < reaped < earlier.len() && earlier[reaped] is Exited;
            assert(events[reaped] is Exited);
        } else {
            lemma_run_moves_forward(state, events, started + 1, last);
            lemma_engine_is_held_until_reaped(run(state, earlier), events[last]);
            assert(events[last] is Exited);
        }
    }
}

} // verus!
