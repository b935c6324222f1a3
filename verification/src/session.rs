//! The session supervisor: the state machine that admits at most one
//! monitoring session at a time.
//!
//! The supervisor owns the one session slot. Each of its methods is one
//! atomic step on that slot: the program around it takes its lock for the
//! call and performs what the step asks for (a spawn, a connect, a send) with
//! the lock released.

use crate::codec::{decode, decoded_model, decoding, DecodeError, DecodeFault};
use crate::commands::{IncomingMessage, MonitorMessage, OutgoingMessage, Report, UploadMessage};
use crate::id::Uuid;
use vstd::prelude::*;
use vstd::string::StringExecFns;

verus! {

/// One active monitoring run. The subprocess of the run and the connection
/// to the monitor server belong to the sampling task of the run, which the
/// program around the supervisor owns; the session holds what the decisions
/// need.
#[derive(Clone, Copy, Debug, PartialEq, Eq, Structural)]
pub struct Session {
    /// The experiment that the run belongs to.
    pub experiment: Uuid,
    /// Whether an early stop was asked for. The sampling task looks at this
    /// at each sampling boundary.
    pub cancelled: bool,
}

/// The state of the supervisor.
#[derive(Clone, Copy, Debug, PartialEq, Eq, Structural)]
pub enum State {
    /// No session is active.
    Idle,
    /// The one session is active.
    Monitoring(Session),
}

/// The session supervisor. It starts idle.
#[derive(Debug)]
pub struct Supervisor {
    state: State,
}

impl View for Supervisor {
    type V = State;

    closed spec fn view(&self) -> State {
        self.state
    }
}

/// What the agent does about an inbound frame.
#[derive(Clone, Debug, PartialEq, Eq)]
pub enum Reaction {
    /// Send the report to the control server; nothing else happens.
    Report(OutgoingMessage),
    /// Try to start a monitoring session for the experiment.
    StartMonitor(Uuid),
    /// Take note of the binary that is to be flashed.
    Upload(Uuid),
}

/// The mathematical value of a [`Reaction`].
pub enum ReactionModel {
    Report(Report),
    StartMonitor(Uuid),
    Upload(Uuid),
}

impl View for Reaction {
    type V = ReactionModel;

    open spec fn view(&self) -> ReactionModel {
        match self {
            Reaction::Report(m) => ReactionModel::Report(m@),
            Reaction::StartMonitor(id) => ReactionModel::StartMonitor(*id),
            Reaction::Upload(id) => ReactionModel::Upload(*id),
        }
    }
}

/// The steps of starting a session, in the order in which they are taken.
#[derive(Clone, Copy, Debug, PartialEq, Eq, Structural)]
pub enum StartStep {
    /// Ask the script runner for the monitor command.
    BuildCommand,
    /// Spawn the monitor subprocess.
    Spawn,
    /// Open the connection to the monitor server.
    ConnectRelay,
}

/// How a start attempt goes on after one of its steps.
#[derive(Clone, Debug, PartialEq, Eq)]
pub enum StartPlan {
    /// Take this step next.
    Perform(StartStep),
    /// Give up: send the report and, where `terminate` is set, terminate the
    /// subprocess that was spawned. The supervisor stays as it is.
    Abandon { report: OutgoingMessage, terminate: bool },
    /// Every step succeeded: commit the session to the supervisor.
    Commit,
}

/// The mathematical value of a [`StartPlan`].
pub enum StartPlanModel {
    Perform(StartStep),
    Abandon { report: Report, terminate: bool },
    Commit,
}

impl View for StartPlan {
    type V = StartPlanModel;

    open spec fn view(&self) -> StartPlanModel {
        match self {
            StartPlan::Perform(step) => StartPlanModel::Perform(*step),
            StartPlan::Abandon { report, terminate } => StartPlanModel::Abandon {
                report: report@,
                terminate: *terminate,
            },
            StartPlan::Commit => StartPlanModel::Commit,
        }
    }
}

/// What the sampling task does at a sampling boundary.
#[derive(Clone, Debug, PartialEq, Eq)]
pub struct Tick {
    /// The output to forward to the monitor server; nothing is sent where it
    /// is empty.
    pub forward: Vec<u8>,
    /// Whether to ask the subprocess to stop.
    pub terminate: bool,
    /// Whether to close the connection to the monitor server.
    pub close_relay: bool,
    /// Whether the sampling task ends here.
    pub finished: bool,
}

/// The reaction to a frame, given the state and what the frame was decoded
/// to.
///
/// A frame that could not be decoded is reported with its diagnostic. A
/// request to monitor is turned down while a session is active, whatever
/// experiment it names, and leads to a start attempt otherwise. A request to
/// upload is taken in any state.
pub open spec fn reaction_to(
    state: State,
    decoded: Result<IncomingMessage, DecodeFault>,
) -> ReactionModel {
    match decoded {
        Err(fault) => ReactionModel::Report(Report::Parse(fault.info())),
        Ok(IncomingMessage::MonitorMessage(m)) => match state {
            State::Monitoring(_) => ReactionModel::Report(Report::AlreadyMonitoring),
            State::Idle => ReactionModel::StartMonitor(m.experiment),
        },
        Ok(IncomingMessage::UploadMessage(m)) => ReactionModel::Upload(m.binary),
    }
}

/// The state after a start attempt for `experiment` was committed: the
/// session is taken in only where no session is active.
pub open spec fn committed(state: State, experiment: Uuid) -> State {
    match state {
        State::Idle => State::Monitoring(Session { experiment, cancelled: false }),
        State::Monitoring(_) => state,
    }
}

/// The state after an early stop was asked for.
pub open spec fn cancel_requested(state: State) -> State {
    match state {
        State::Idle => State::Idle,
        State::Monitoring(s) => State::Monitoring(
            Session { experiment: s.experiment, cancelled: true },
        ),
    }
}

/// Whether the session ends at a sampling boundary at which the subprocess
/// has exited or not.
pub open spec fn ends_at_sample(state: State, exited: bool) -> bool {
    match state {
        State::Idle => true,
        State::Monitoring(s) => s.cancelled || exited,
    }
}

/// The state after a sampling boundary.
pub open spec fn sampled(state: State, exited: bool) -> State {
    if ends_at_sample(state, exited) {
        State::Idle
    } else {
        state
    }
}

/// Whether the subprocess is asked to stop at a sampling boundary: where an
/// early stop was asked for.
pub open spec fn terminates_at_sample(state: State) -> bool {
    state matches State::Monitoring(s) && s.cancelled
}

/// The output that is forwarded at a sampling boundary: all of it while the
/// session goes on or the subprocess has exited by itself, none of it where
/// no session is active or an early stop was asked for.
pub open spec fn forwarded(state: State, output: Seq<u8>) -> Seq<u8> {
    match state {
        State::Idle => Seq::empty(),
        State::Monitoring(s) => if s.cancelled {
            Seq::empty()
        } else {
            output
        },
    }
}

/// How a start attempt goes on after `step` ended with success (`None`) or
/// with the words of a failure.
pub open spec fn plan_after(step: StartStep, failure: Option<Seq<char>>) -> StartPlanModel {
    match (step, failure) {
        (StartStep::BuildCommand, None) => StartPlanModel::Perform(StartStep::Spawn),
        (StartStep::BuildCommand, Some(why)) => StartPlanModel::Abandon {
            report: Report::ScriptRun("Failed to construct nRF52 monitor command: "@ + why),
            terminate: false,
        },
        (StartStep::Spawn, None) => StartPlanModel::Perform(StartStep::ConnectRelay),
        (StartStep::Spawn, Some(why)) => StartPlanModel::Abandon {
            report: Report::ScriptRun("Failed to initialize nRF52 monitor command: "@ + why),
            terminate: false,
        },
        (StartStep::ConnectRelay, None) => StartPlanModel::Commit,
        (StartStep::ConnectRelay, Some(why)) => StartPlanModel::Abandon {
            report: Report::Connection("Failed to connect to nRF52 monitor server: "@ + why),
            terminate: true,
        },
    }
}

/// The words of a failure, as a mathematical value.
pub open spec fn failure_model(outcome: Result<(), String>) -> Option<Seq<char>> {
    match outcome {
        Ok(_) => None,
        Err(why) => Some(why@),
    }
}

impl StartStep {
    /// The step with which every start attempt begins.
    pub fn first() -> (step: StartStep)
        ensures
            step == StartStep::BuildCommand,
    {
        StartStep::BuildCommand
    }

    /// How the start attempt goes on after this step ended with `outcome`:
    /// success, or the words of the failure.
    ///
    /// A failure ends the attempt with a report. The subprocess is spawned
    /// only after the command was built, and it is terminated where the
    /// connection to the monitor server fails after it.
    pub fn after(self, outcome: Result<(), String>) -> (plan: StartPlan)
        ensures
            plan@ == plan_after(self, failure_model(outcome)),
    {
        match outcome {
            Ok(_) => match self {
                StartStep::BuildCommand => StartPlan::Perform(StartStep::Spawn),
                StartStep::Spawn => StartPlan::Perform(StartStep::ConnectRelay),
                StartStep::ConnectRelay => StartPlan::Commit,
            },
            Err(why) => match self {
                StartStep::BuildCommand => {
                    let mut info = "Failed to construct nRF52 monitor command: ".to_owned();
                    info.append(why.as_str());
                    StartPlan::Abandon {
                        report: OutgoingMessage::script_run_error(info),
                        terminate: false,
                    }
                },
                StartStep::Spawn => {
                    let mut info = "Failed to initialize nRF52 monitor command: ".to_owned();
                    info.append(why.as_str());
                    StartPlan::Abandon {
                        report: OutgoingMessage::script_run_error(info),
                        terminate: false,
                    }
                },
                StartStep::ConnectRelay => {
                    let mut info = "Failed to connect to nRF52 monitor server: ".to_owned();
                    info.append(why.as_str());
                    StartPlan::Abandon {
                        report: OutgoingMessage::connection_error(info),
                        terminate: true,
                    }
                },
            },
        }
    }
}

impl Supervisor {
    /// A supervisor with no active session.
    pub fn new() -> (s: Supervisor)
        ensures
            s@ == State::Idle,
    {
        Supervisor { state: State::Idle }
    }

    /// The state of the supervisor.
    pub fn state(&self) -> (state: State)
        ensures
            state == self@,
    {
        self.state
    }

    /// Whether no session is active.
    pub fn is_idle(&self) -> (b: bool)
        ensures
            b == (self@ is Idle),
    {
        match self.state {
            State::Idle => true,
            State::Monitoring(_) => false,
        }
    }

    /// Whether a session is active.
    pub fn is_monitoring(&self) -> (b: bool)
        ensures
            b == (self@ is Monitoring),
    {
        match self.state {
            State::Idle => false,
            State::Monitoring(_) => true,
        }
    }

    /// The experiment of the active session.
    pub fn experiment(&self) -> (id: Option<Uuid>)
        ensures
            id == match self@ {
                State::Idle => None,
                State::Monitoring(s) => Some(s.experiment),
            },
    {
        match self.state {
            State::Idle => None,
            State::Monitoring(s) => Some(s.experiment),
        }
    }

    /// The reaction to a frame that was decoded to `decoded`. The state does
    /// not change.
    pub fn react(&self, decoded: Result<IncomingMessage, DecodeError>) -> (r: Reaction)
        ensures
            r@ == reaction_to(self@, decoded_model(decoded)),
    {
        match decoded {
            Err(DecodeError::NotUtf8(info)) => Reaction::Report(OutgoingMessage::parse_error(info)),
            Err(DecodeError::UnknownShape(info)) => Reaction::Report(
                OutgoingMessage::parse_error(info),
            ),
            Ok(IncomingMessage::MonitorMessage(m)) => match self.state {
                State::Monitoring(_) => Reaction::Report(OutgoingMessage::already_monitoring()),
                State::Idle => Reaction::StartMonitor(m.experiment),
            },
            Ok(IncomingMessage::UploadMessage(m)) => Reaction::Upload(m.binary),
        }
    }

    /// The reaction to an inbound frame. The state does not change.
    ///
    /// A frame that cannot be decoded is answered with a report whose
    /// diagnostic is not empty.
    pub fn receive(&self, frame: &[u8]) -> (r: Reaction)
        ensures
            r@ == reaction_to(self@, decoding(frame@)),
            decoding(frame@) is Err ==> (r@ matches ReactionModel::Report(Report::Parse(info))
                && info.len() > 0),
    {
        self.react(decode(frame))
    }

    /// Commits a start attempt of which every step succeeded.
    ///
    /// The slot is looked at again: the session becomes active only where
    /// none is. Otherwise the state stays as it is and the report is handed
    /// out; the caller then terminates the subprocess it spawned and closes
    /// the connection it opened.
    pub fn commit(&mut self, experiment: Uuid) -> (r: Result<(), OutgoingMessage>)
        ensures
            final(self)@ == committed(old(self)@, experiment),
            old(self)@ is Idle <==> r is Ok,
            r matches Err(report) ==> report@ == Report::AlreadyMonitoring,
    {
        match self.state {
            State::Idle => {
                self.state = State::Monitoring(Session { experiment, cancelled: false });
                Ok(())
            },
            State::Monitoring(_) => Err(OutgoingMessage::already_monitoring()),
        }
    }

    /// Asks for an early stop of the active session. The sampling task acts
    /// on it at its next sampling boundary. With no session active nothing
    /// happens.
    pub fn cancel(&mut self)
        ensures
            final(self)@ == cancel_requested(old(self)@),
    {
        match self.state {
            State::Idle => {},
            State::Monitoring(s) => {
                self.state = State::Monitoring(
                    Session { experiment: s.experiment, cancelled: true },
                );
            },
        }
    }

    /// One sampling boundary: `exited` says whether the subprocess has
    /// exited, `output` is what it wrote since the last boundary (empty where
    /// there was none).
    ///
    /// Where an early stop was asked for, the subprocess is asked to stop,
    /// the connection to the monitor server is closed and the slot is
    /// cleared. Where the subprocess has exited, the connection is closed and
    /// the slot is cleared. Otherwise the output is forwarded and the session
    /// goes on.
    pub fn sample(&mut self, exited: bool, output: Vec<u8>) -> (tick: Tick)
        ensures
            final(self)@ == sampled(old(self)@, exited),
            tick.forward@ == forwarded(old(self)@, output@),
            tick.terminate == terminates_at_sample(old(self)@),
            tick.finished == ends_at_sample(old(self)@, exited),
            tick.close_relay == (old(self)@ is Monitoring && ends_at_sample(old(self)@, exited)),
    {
        match self.state {
            State::Idle => Tick {
                forward: Vec::new(),
                terminate: false,
                close_relay: false,
                finished: true,
            },
            State::Monitoring(s) => {
                if s.cancelled {
                    self.state = State::Idle;
                    Tick { forward: Vec::new(), terminate: true, close_relay: true, finished: true }
                } else if exited {
                    self.state = State::Idle;
                    Tick { forward: output, terminate: false, close_relay: true, finished: true }
                } else {
                    Tick { forward: output, terminate: false, close_relay: false, finished: false }
                }
            },
        }
    }
}

/// The state after a request to monitor for `experiment` was served: the
/// supervisor reacted to it and, where that led to a start attempt, the
/// attempt was committed if every step of it succeeded.
pub open spec fn served(state: State, experiment: Uuid, succeeds: bool) -> State {
    match reaction_to(state, Ok(IncomingMessage::MonitorMessage(MonitorMessage { experiment }))) {
        ReactionModel::StartMonitor(id) => if succeeds {
            committed(state, id)
        } else {
            state
        },
        _ => state,
    }
}

/// The state after a sequence of requests to monitor was served, one after
/// the other. Each request names its experiment and says whether its start
/// attempt would succeed.
pub open spec fn served_all(state: State, requests: Seq<(Uuid, bool)>) -> State
    decreases requests.len(),
{
    if requests.len() == 0 {
        state
    } else {
        served(served_all(state, requests.drop_last()), requests.last().0, requests.last().1)
    }
}

/// How many of a sequence of requests to monitor made a session active.
pub open spec fn sessions_started(state: State, requests: Seq<(Uuid, bool)>) -> nat
    decreases requests.len(),
{
    if requests.len() == 0 {
        0
    } else {
        let before = served_all(state, requests.drop_last());
        let after = served(before, requests.last().0, requests.last().1);
        let started: nat = if before is Idle && after is Monitoring {
            1
        } else {
            0
        };
        sessions_started(state, requests.drop_last()) + started
    }
}

/// Of any sequence of requests to monitor at most one makes a session
/// active, and once a session is active it is active at the end.
pub proof fn lemma_at_most_one_session(state: State, requests: Seq<(Uuid, bool)>)
    ensures
        sessions_started(state, requests) <= 1,
        sessions_started(state, requests) == 1 ==> served_all(state, requests) is Monitoring,
        state is Monitoring ==> served_all(state, requests) == state,
    decreases requests.len(),
{
    if requests.len() > 0 {
        lemma_at_most_one_session(state, requests.drop_last());
    }
}

/// While a session is active, each further request to monitor is answered
/// with the report that the agent is already monitoring, whatever experiment
/// it names, and leaves the session as it is.
pub proof fn lemma_active_session_is_kept(
    state: State,
    requests: Seq<(Uuid, bool)>,
    i: int,
)
    requires
        0 <= i < requests.len(),
        served_all(state, requests.take(i)) is Monitoring,
    ensures
        reaction_to(
            served_all(state, requests.take(i)),
            Ok(IncomingMessage::MonitorMessage(MonitorMessage { experiment: requests[i].0 })),
        ) == ReactionModel::Report(Report::AlreadyMonitoring),
        served_all(state, requests.take(i + 1)) == served_all(state, requests.take(i)),
        served_all(state, requests) == served_all(state, requests.take(i)),
    decreases requests.len() - i,
{
    assert(requests.take(i + 1).drop_last() =~= requests.take(i));
    if i + 1 < requests.len() {
        lemma_active_session_is_kept(state, requests, i + 1);
    } else {
        assert(requests.take(i + 1) =~= requests);
    }
}

/// A start attempt that fails before the subprocess is spawned asks for no
/// spawn and for no termination: it ends with a report that the script could
/// not be run.
pub proof fn lemma_failed_build_spawns_nothing(why: Seq<char>)
    ensures
        plan_after(StartStep::BuildCommand, Some(why)) matches StartPlanModel::Abandon {
            report,
            terminate,
        } && report is ScriptRun && !terminate,
        plan_after(StartStep::Spawn, Some(why)) matches StartPlanModel::Abandon {
            report,
            terminate,
        } && report is ScriptRun && !terminate,
{
}

/// A start attempt that fails to reach the monitor server after the
/// subprocess was spawned terminates the subprocess and ends with a report
/// that the connection failed.
pub proof fn lemma_failed_connect_terminates(why: Seq<char>)
    ensures
        plan_after(StartStep::ConnectRelay, Some(why)) matches StartPlanModel::Abandon {
            report,
            terminate,
        } && report is Connection && terminate,
{
}

/// A session is committed only after each of the three steps succeeded, and
/// the steps are taken in their order.
pub proof fn lemma_commit_needs_every_step(step: StartStep, failure: Option<Seq<char>>)
    ensures
        plan_after(step, failure) is Commit <==> step == StartStep::ConnectRelay && failure is None,
        plan_after(step, failure) == StartPlanModel::Perform(StartStep::Spawn) <==> step
            == StartStep::BuildCommand && failure is None,
        plan_after(step, failure) == StartPlanModel::Perform(StartStep::ConnectRelay) <==> step
            == StartStep::Spawn && failure is None,
        plan_after(step, failure) != StartPlanModel::Perform(StartStep::BuildCommand),
{
}

/// After an early stop was asked for, the next sampling boundary asks the
/// subprocess to stop and leaves the supervisor idle. Asking twice is the
/// same as asking once, and asking an idle supervisor changes nothing.
pub proof fn lemma_cancel_ends_session(state: State, exited: bool)
    ensures
        sampled(cancel_requested(state), exited) == State::Idle,
        state is Monitoring ==> terminates_at_sample(cancel_requested(state)),
        cancel_requested(State::Idle) == State::Idle,
        cancel_requested(cancel_requested(state)) == cancel_requested(state),
{
}

/// A request to upload is taken whatever the state, and never answered with
/// a report.
pub proof fn lemma_upload_in_any_state(state: State, binary: Uuid)
    ensures
        reaction_to(state, Ok(IncomingMessage::UploadMessage(UploadMessage { binary })))
            == ReactionModel::Upload(binary),
{
}

} // verus!
