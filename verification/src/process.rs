//! The supervisor of one child process, as a machine that is told what
//! happened and answers what to do next.
//!
//! The supervisor never touches the operating system. Each operation returns a
//! [`Step`]; whoever drives the supervisor carries the step out and reports
//! the [`Event`] that came of it to [`Process::resume`], until the step is
//! [`Step::Finished`]. One operation runs at a time.

use crate::config;
use crate::config::RestartStrategy;
use crate::probe::{ProbeError, ProbeErrorView, ProcessStatus, StatRead, StatReadView, StatusView};
use vstd::prelude::*;
use vstd::string::*;

verus! {

/// Whether the child is meant to run.
#[derive(Clone, Copy, Debug, PartialEq, Eq, Structural)]
pub enum Desired {
    Stopped,
    Running,
}

/// The signals that the supervisor sends to its child.
#[derive(Clone, Copy, Debug, PartialEq, Eq, Structural)]
pub enum Signal {
    /// Asks the child to end; it may catch the signal.
    Terminate,
    /// Asks the child to read its configuration again.
    Hangup,
    /// Ends the child at once; it cannot catch the signal.
    Kill,
}

impl Signal {
    /// The name of the signal.
    pub open spec fn name(self) -> Seq<char> {
        match self {
            Signal::Terminate => "SIGTERM"@,
            Signal::Hangup => "SIGHUP"@,
            Signal::Kill => "SIGKILL"@,
        }
    }

    /// The name of the signal.
    pub fn as_str(&self) -> (name: &'static str)
        ensures
            name@ == self.name(),
    {
        match self {
            Signal::Terminate => "SIGTERM",
            Signal::Hangup => "SIGHUP",
            Signal::Kill => "SIGKILL",
        }
    }
}

/// How long to wait between two looks at a child that was told to end.
pub const POLL_MILLIS: u64 = 500;

/// What the operation under way is waiting for.
#[derive(Clone, Copy, Debug, PartialEq, Eq)]
pub enum Pending {
    /// No operation is under way.
    Idle,
    /// The launch of a child.
    Launching,
    /// The end of the startup grace period of child `pid`.
    Settling { pid: u32 },
    /// The status of child `pid` after its grace period.
    Checking { pid: u32 },
    /// The start of the watch on child `pid`.
    Arming { pid: u32 },
    /// The delivery of `signal` to `pid`; with `wait`, the end of `pid` after it.
    Signalling { pid: u32, signal: Signal, wait: bool },
    /// The status of `pid`, which was told to end.
    Departing { pid: u32 },
    /// The end of a pause before the next look at `pid`.
    Pausing { pid: u32 },
    /// The status of `pid`, to report it.
    Inspecting { pid: u32 },
}

/// The mutable heart of the supervisor.
#[derive(Clone, Copy, Debug, PartialEq, Eq)]
pub struct State {
    /// The child that was started and is not known to have exited.
    pub pid: Option<u32>,
    /// Whether the child is meant to run. While it is not, no exit leads to
    /// a restart.
    pub desired: Desired,
    /// What the operation under way is waiting for.
    pub pending: Pending,
}

/// Why an operation of the supervisor failed.
#[derive(Clone, Debug, PartialEq, Eq)]
pub enum ProcessError {
    /// No child was launched, for the reason given.
    Launch(String),
    /// The child was gone when its grace period ended.
    ExitedTooQuickly,
    /// The child was in the given state when its grace period ended.
    UnexpectedState(ProcessStatus),
    /// The status of the child could not be had.
    Probe(ProbeError),
    /// The signal could not be delivered.
    Signal(Signal),
    /// An event was reported that the supervisor was not waiting for.
    OutOfTurn,
}

/// A [`ProcessError`] with its text as plain text.
pub enum ErrorView {
    Launch(Seq<char>),
    ExitedTooQuickly,
    UnexpectedState(StatusView),
    Probe(ProbeErrorView),
    Signal(Signal),
    OutOfTurn,
}

impl View for ProcessError {
    type V = ErrorView;

    open spec fn view(&self) -> ErrorView {
        match self {
            ProcessError::Launch(reason) => ErrorView::Launch(reason@),
            ProcessError::ExitedTooQuickly => ErrorView::ExitedTooQuickly,
            ProcessError::UnexpectedState(status) => ErrorView::UnexpectedState(status@),
            ProcessError::Probe(e) => ErrorView::Probe(e@),
            ProcessError::Signal(signal) => ErrorView::Signal(*signal),
            ProcessError::OutOfTurn => ErrorView::OutOfTurn,
        }
    }
}

impl ProcessError {
    /// The error in words.
    pub open spec fn text(v: ErrorView) -> Seq<char> {
        match v {
            ErrorView::Launch(reason) => reason,
            ErrorView::ExitedTooQuickly => "process exited very quickly"@,
            ErrorView::UnexpectedState(status) => "process in state: "@
                + ProcessStatus::label_text(status),
            ErrorView::Probe(e) => ProbeError::text(e),
            ErrorView::Signal(signal) => "failed to send "@ + signal.name()
                + " to child process"@,
            ErrorView::OutOfTurn => "unexpected event"@,
        }
    }

    /// The error in words.
    pub fn message(&self) -> (text: String)
        ensures
            text@ == ProcessError::text(self@),
    {
        match self {
            ProcessError::Launch(reason) => reason.clone(),
            ProcessError::ExitedTooQuickly => String::from_str("process exited very quickly"),
            ProcessError::UnexpectedState(status) => {
                let mut text = String::from_str("process in state: ");
                text.append(status.to_string().as_str());
                text
            },
            ProcessError::Probe(e) => e.message(),
            ProcessError::Signal(signal) => {
                let mut text = String::from_str("failed to send ");
                text.append(signal.as_str());
                text.append(" to child process");
                text
            },
            ProcessError::OutOfTurn => String::from_str("unexpected event"),
        }
    }
}

/// How an operation ended.
#[derive(Clone, Debug, PartialEq, Eq)]
pub enum Outcome {
    /// It did what was asked.
    Done,
    /// The status that was asked for.
    Report(ProcessStatus),
    /// It failed.
    Failed(ProcessError),
}

/// An [`Outcome`] with its text as plain text.
pub enum OutcomeView {
    Done,
    Report(StatusView),
    Failed(ErrorView),
}

impl View for Outcome {
    type V = OutcomeView;

    open spec fn view(&self) -> OutcomeView {
        match self {
            Outcome::Done => OutcomeView::Done,
            Outcome::Report(status) => OutcomeView::Report(status@),
            Outcome::Failed(e) => OutcomeView::Failed(e@),
        }
    }
}

/// What the driver of the supervisor does next.
#[derive(Clone, Debug, PartialEq, Eq)]
pub enum Step {
    /// Launch the configured program, its output led to the log, and report
    /// [`Event::Launched`] or [`Event::LaunchFailed`].
    Launch,
    /// Wait for the startup grace period and report [`Event::Slept`].
    Settle { seconds: u64 },
    /// Wait before the next look and report [`Event::Slept`].
    Pause { millis: u64 },
    /// Read the status record of `pid` and report [`Event::Probed`].
    Probe { pid: u32 },
    /// Send `signal` to `pid` and report [`Event::Sent`] or
    /// [`Event::SendFailed`].
    Send { pid: u32, signal: Signal },
    /// Start to wait for the exit of `pid`, report [`Event::Watching`] now and
    /// the exit, when it comes, to [`Process::child_exited`].
    Watch { pid: u32 },
    /// Nothing: the operation has ended.
    Finished(Outcome),
}

/// A [`Step`] with its text as plain text.
pub enum StepView {
    Launch,
    Settle { seconds: u64 },
    Pause { millis: u64 },
    Probe { pid: u32 },
    Send { pid: u32, signal: Signal },
    Watch { pid: u32 },
    Finished(OutcomeView),
}

impl View for Step {
    type V = StepView;

    open spec fn view(&self) -> StepView {
        match self {
            Step::Launch => StepView::Launch,
            Step::Settle { seconds } => StepView::Settle { seconds: *seconds },
            Step::Pause { millis } => StepView::Pause { millis: *millis },
            Step::Probe { pid } => StepView::Probe { pid: *pid },
            Step::Send { pid, signal } => StepView::Send { pid: *pid, signal: *signal },
            Step::Watch { pid } => StepView::Watch { pid: *pid },
            Step::Finished(outcome) => StepView::Finished(outcome@),
        }
    }
}

/// What came of a step.
#[derive(Clone, Debug, PartialEq, Eq)]
pub enum Event {
    /// A child was launched under this process id.
    Launched(u32),
    /// No child was launched, for the reason given.
    LaunchFailed(String),
    /// The wait is over.
    Slept,
    /// The status record was read, with this result.
    Probed(StatRead),
    /// The signal was delivered.
    Sent,
    /// The signal could not be delivered.
    SendFailed,
    /// The exit of the child is waited for.
    Watching,
}

/// An [`Event`] with its text as plain text.
pub enum EventView {
    Launched(u32),
    LaunchFailed(Seq<char>),
    Slept,
    Probed(StatReadView),
    Sent,
    SendFailed,
    Watching,
}

impl View for Event {
    type V = EventView;

    open spec fn view(&self) -> EventView {
        match self {
            Event::Launched(pid) => EventView::Launched(*pid),
            Event::LaunchFailed(reason) => EventView::LaunchFailed(reason@),
            Event::Slept => EventView::Slept,
            Event::Probed(read) => EventView::Probed(read@),
            Event::Sent => EventView::Sent,
            Event::SendFailed => EventView::SendFailed,
            Event::Watching => EventView::Watching,
        }
    }
}

impl State {
    /// What holds of the state of every supervisor: a child is tracked only
    /// while one is meant to run, and an operation under way fits the rest.
    pub open spec fn wf(self) -> bool {
        &&& self.pid is Some ==> self.desired == Desired::Running
        &&& match self.pending {
            Pending::Idle => true,
            Pending::Inspecting { pid } => true,
            Pending::Launching => self.desired == Desired::Running,
            Pending::Settling { pid } => self.desired == Desired::Running,
            Pending::Checking { pid } => self.desired == Desired::Running,
            Pending::Arming { pid } => self.pid == Some(pid),
            Pending::Signalling { pid, signal, wait } => wait ==> self.pid is None,
            Pending::Departing { pid } => self.pid is None,
            Pending::Pausing { pid } => self.pid is None,
        }
    }

    /// The same state with no operation under way.
    pub open spec fn idle(self) -> State {
        State { pending: Pending::Idle, ..self }
    }

    /// The same state, waiting for `pending`.
    pub open spec fn waiting(self, pending: Pending) -> State {
        State { pending, ..self }
    }

    /// The state of a new supervisor and its first step.
    pub open spec fn initial(auto_start: bool) -> (State, StepView) {
        if auto_start {
            (
                State { pid: None, desired: Desired::Running, pending: Pending::Launching },
                StepView::Launch,
            )
        } else {
            (
                State { pid: None, desired: Desired::Stopped, pending: Pending::Idle },
                StepView::Finished(OutcomeView::Done),
            )
        }
    }

    /// `start`: the child is meant to run, and is launched unless one is
    /// tracked.
    pub open spec fn start(self) -> (State, StepView) {
        let meant = State { desired: Desired::Running, ..self };
        if self.pid is None {
            (meant.waiting(Pending::Launching), StepView::Launch)
        } else {
            (meant.idle(), StepView::Finished(OutcomeView::Done))
        }
    }

    /// `stop` and `kill`: the child is meant to stop and is tracked no more;
    /// if one was tracked, it is sent `signal` and its end is waited for.
    pub open spec fn halt(self, signal: Signal) -> (State, StepView) {
        let halted = State { pid: None, desired: Desired::Stopped, pending: Pending::Idle };
        match self.pid {
            Some(pid) => (
                halted.waiting(Pending::Signalling { pid, signal, wait: true }),
                StepView::Send { pid, signal },
            ),
            None => (halted, StepView::Finished(OutcomeView::Done)),
        }
    }

    /// `reload`: a tracked child is sent the hangup signal; nothing else
    /// changes.
    pub open spec fn reload(self) -> (State, StepView) {
        match self.pid {
            Some(pid) => (
                self.waiting(Pending::Signalling { pid, signal: Signal::Hangup, wait: false }),
                StepView::Send { pid, signal: Signal::Hangup },
            ),
            None => (self.idle(), StepView::Finished(OutcomeView::Done)),
        }
    }

    /// `status`: without a tracked child the answer is known; with one, its
    /// status record is read.
    pub open spec fn status(self) -> (State, StepView) {
        match self.pid {
            Some(pid) => (self.waiting(Pending::Inspecting { pid }), StepView::Probe { pid }),
            None => (
                self.idle(),
                StepView::Finished(OutcomeView::Report(StatusView::NotStarted)),
            ),
        }
    }

    /// Whether the exit of a child leads to a new launch.
    pub open spec fn restarts(self, strategy: RestartStrategy, success: bool) -> bool {
        self.desired == Desired::Running && strategy.restarts_after(success)
    }

    /// The exit of child `pid`: it is tracked no more, if it was; a new child
    /// is launched where the child is meant to run and the strategy says so.
    pub open spec fn child_exited(self, strategy: RestartStrategy, pid: u32, success: bool) -> (
        State,
        StepView,
    ) {
        let reaped = State { pid: if self.pid == Some(pid) { None } else { self.pid }, ..self };
        if self.restarts(strategy, success) {
            (reaped.waiting(Pending::Launching), StepView::Launch)
        } else {
            (reaped.idle(), StepView::Finished(OutcomeView::Done))
        }
    }

    /// How the operation under way ends with `outcome`.
    pub open spec fn finish(self, outcome: OutcomeView) -> (State, StepView) {
        (self.idle(), StepView::Finished(outcome))
    }

    /// How the operation under way fails with `e`.
    pub open spec fn fail(self, e: ErrorView) -> (State, StepView) {
        self.finish(OutcomeView::Failed(e))
    }

    /// The verdict on child `pid` once its grace period is over, given what
    /// the read of its status record gave: only a running child is kept.
    pub open spec fn checked(self, pid: u32, read: StatReadView) -> (State, StepView) {
        match ProcessStatus::of_read(pid, read) {
            Ok(StatusView::Running) => (
                State { pid: Some(pid), pending: Pending::Arming { pid }, ..self },
                StepView::Watch { pid },
            ),
            Ok(StatusView::NotStarted) => self.fail(ErrorView::ExitedTooQuickly),
            Ok(other) => self.fail(ErrorView::UnexpectedState(other)),
            Err(e) => self.fail(ErrorView::Probe(e)),
        }
    }

    /// The next look at `pid`, which was told to end: done once it is gone.
    pub open spec fn departed(self, pid: u32, read: StatReadView) -> (State, StepView) {
        match ProcessStatus::of_read(pid, read) {
            Ok(StatusView::NotStarted) => self.finish(OutcomeView::Done),
            Ok(other) => (
                self.waiting(Pending::Pausing { pid }),
                StepView::Pause { millis: POLL_MILLIS },
            ),
            Err(e) => self.fail(ErrorView::Probe(e)),
        }
    }

    /// The report on `pid`.
    pub open spec fn inspected(self, pid: u32, read: StatReadView) -> (State, StepView) {
        match ProcessStatus::of_read(pid, read) {
            Ok(status) => self.finish(OutcomeView::Report(status)),
            Err(e) => self.fail(ErrorView::Probe(e)),
        }
    }

    /// How the operation under way goes on after `event`, with a startup
    /// grace period of `grace` seconds.
    pub open spec fn resume(self, grace: u64, event: EventView) -> (State, StepView) {
        match (self.pending, event) {
            (Pending::Launching, EventView::Launched(pid)) => (
                self.waiting(Pending::Settling { pid }),
                StepView::Settle { seconds: grace },
            ),
            (Pending::Launching, EventView::LaunchFailed(reason)) => self.fail(
                ErrorView::Launch(reason),
            ),
            (Pending::Settling { pid }, EventView::Slept) => (
                self.waiting(Pending::Checking { pid }),
                StepView::Probe { pid },
            ),
            (Pending::Checking { pid }, EventView::Probed(read)) => self.checked(pid, read),
            (Pending::Arming { pid }, EventView::Watching) => self.finish(OutcomeView::Done),
            (Pending::Signalling { pid, signal, wait }, EventView::Sent) => if wait {
                (self.waiting(Pending::Departing { pid }), StepView::Probe { pid })
            } else {
                self.finish(OutcomeView::Done)
            },
            (Pending::Signalling { pid, signal, wait }, EventView::SendFailed) => self.fail(
                ErrorView::Signal(signal),
            ),
            (Pending::Departing { pid }, EventView::Probed(read)) => self.departed(pid, read),
            (Pending::Pausing { pid }, EventView::Slept) => (
                self.waiting(Pending::Departing { pid }),
                StepView::Probe { pid },
            ),
            (Pending::Inspecting { pid }, EventView::Probed(read)) => self.inspected(pid, read),
            _ => self.fail(ErrorView::OutOfTurn),
        }
    }
}

/// The supervisor of one child process.
pub struct Process {
    conf: config::Process,
    state: State,
}

impl View for Process {
    type V = State;

    closed spec fn view(&self) -> State {
        self.state
    }
}

impl Process {
    #[verifier::type_invariant]
    spec fn inv(self) -> bool {
        self.state.wf()
    }

    /// The configuration that the supervisor was made with.
    pub closed spec fn spec_conf(&self) -> config::Process {
        self.conf
    }

    /// A supervisor for the program that `conf` describes, and its first
    /// step: the launch of the child where `conf` asks for an automatic
    /// start.
    pub fn new(conf: config::Process) -> (made: (Process, Step))
        ensures
            made.0.spec_conf() == conf,
            (made.0@, made.1@) == State::initial(conf.auto_start),
            made.0@.wf(),
    {
        if conf.auto_start {
            let state = State {
                pid: None,
                desired: Desired::Running,
                pending: Pending::Launching,
            };
            (Process { conf, state }, Step::Launch)
        } else {
            let state = State { pid: None, desired: Desired::Stopped, pending: Pending::Idle };
            (Process { conf, state }, Step::Finished(Outcome::Done))
        }
    }

    /// The configuration that the supervisor was made with.
    pub fn conf(&self) -> (conf: &config::Process)
        ensures
            *conf == self.spec_conf(),
    {
        &self.conf
    }

    /// The state of the supervisor.
    pub fn state(&self) -> (state: State)
        ensures
            state == self@,
            state.wf(),
    {
        proof {
            use_type_invariant(self);
        }
        self.state
    }

    /// The child that is tracked, if one is.
    pub fn pid(&self) -> (pid: Option<u32>)
        ensures
            pid == self@.pid,
    {
        self.state.pid
    }

    /// Whether the child is meant to run.
    pub fn desired(&self) -> (desired: Desired)
        ensures
            desired == self@.desired,
    {
        self.state.desired
    }

    /// Marks the child as meant to run and launches it unless one is tracked.
    pub fn start(&mut self) -> (step: Step)
        ensures
            final(self).spec_conf() == old(self).spec_conf(),
            (final(self)@, step@) == old(self)@.start(),
            final(self)@.wf(),
    {
        if self.state.pid.is_none() {
            self.state = State {
                pid: None,
                desired: Desired::Running,
                pending: Pending::Launching,
            };
            Step::Launch
        } else {
            self.state = State {
                pid: self.state.pid,
                desired: Desired::Running,
                pending: Pending::Idle,
            };
            Step::Finished(Outcome::Done)
        }
    }

    /// Stops the child with `signal`: see [`Process::stop`].
    fn halt(&mut self, signal: Signal) -> (step: Step)
        ensures
            final(self).spec_conf() == old(self).spec_conf(),
            (final(self)@, step@) == old(self)@.halt(signal),
            final(self)@.wf(),
    {
        match self.state.pid {
            Some(pid) => {
                self.state = State {
                    pid: None,
                    desired: Desired::Stopped,
                    pending: Pending::Signalling { pid, signal, wait: true },
                };
                Step::Send { pid, signal }
            },
            None => {
                self.state = State {
                    pid: None,
                    desired: Desired::Stopped,
                    pending: Pending::Idle,
                };
                Step::Finished(Outcome::Done)
            },
        }
    }

    /// Marks the child as meant to stop and forgets it; a child that was
    /// tracked is asked to end, and the operation lasts until it is gone.
    pub fn stop(&mut self) -> (step: Step)
        ensures
            final(self).spec_conf() == old(self).spec_conf(),
            (final(self)@, step@) == old(self)@.halt(Signal::Terminate),
            final(self)@.wf(),
    {
        self.halt(Signal::Terminate)
    }

    /// As [`Process::stop`], with the signal that the child cannot catch.
    pub fn kill(&mut self) -> (step: Step)
        ensures
            final(self).spec_conf() == old(self).spec_conf(),
            (final(self)@, step@) == old(self)@.halt(Signal::Kill),
            final(self)@.wf(),
    {
        self.halt(Signal::Kill)
    }

    /// Asks a tracked child to read its configuration again. What the
    /// supervisor tracks and means stays as it is.
    pub fn reload(&mut self) -> (step: Step)
        ensures
            final(self).spec_conf() == old(self).spec_conf(),
            (final(self)@, step@) == old(self)@.reload(),
            final(self)@.wf(),
    {
        proof {
            use_type_invariant(&*self);
        }
        match self.state.pid {
            Some(pid) => {
                self.state = State {
                    pid: self.state.pid,
                    desired: self.state.desired,
                    pending: Pending::Signalling { pid, signal: Signal::Hangup, wait: false },
                };
                Step::Send { pid, signal: Signal::Hangup }
            },
            None => {
                self.state = State {
                    pid: self.state.pid,
                    desired: self.state.desired,
                    pending: Pending::Idle,
                };
                Step::Finished(Outcome::Done)
            },
        }
    }

    /// Asks for the status of the child: `NotStarted` at once where none is
    /// tracked, else what its status record shows.
    pub fn status(&mut self) -> (step: Step)
        ensures
            final(self).spec_conf() == old(self).spec_conf(),
            (final(self)@, step@) == old(self)@.status(),
            final(self)@.wf(),
    {
        proof {
            use_type_invariant(&*self);
        }
        match self.state.pid {
            Some(pid) => {
                self.state = State {
                    pid: self.state.pid,
                    desired: self.state.desired,
                    pending: Pending::Inspecting { pid },
                };
                Step::Probe { pid }
            },
            None => {
                self.state = State {
                    pid: self.state.pid,
                    desired: self.state.desired,
                    pending: Pending::Idle,
                };
                Step::Finished(Outcome::Report(ProcessStatus::NotStarted))
            },
        }
    }

    /// Takes note that child `pid` has exited, with or without success, and
    /// launches a new child where the restart strategy asks for one.
    pub fn child_exited(&mut self, pid: u32, success: bool) -> (step: Step)
        ensures
            final(self).spec_conf() == old(self).spec_conf(),
            (final(self)@, step@) == old(self)@.child_exited(
                old(self).spec_conf().restart_strategy,
                pid,
                success,
            ),
            final(self)@.wf(),
    {
        proof {
            use_type_invariant(&*self);
        }
        let kept = match self.state.pid {
            Some(p) => if p == pid {
                None
            } else {
                Some(p)
            },
            None => None,
        };
        let again = match self.state.desired {
            Desired::Running => self.conf.restart_strategy.should_restart(success),
            Desired::Stopped => false,
        };
        if again {
            self.state = State {
                pid: kept,
                desired: self.state.desired,
                pending: Pending::Launching,
            };
            Step::Launch
        } else {
            self.state = State {
                pid: kept,
                desired: self.state.desired,
                pending: Pending::Idle,
            };
            Step::Finished(Outcome::Done)
        }
    }

    /// Lets the operation under way wait for `pending`.
    fn wait_for(&mut self, pending: Pending)
        requires
            old(self)@.waiting(pending).wf(),
        ensures
            final(self).spec_conf() == old(self).spec_conf(),
            final(self)@ == old(self)@.waiting(pending),
    {
        self.state = State { pid: self.state.pid, desired: self.state.desired, pending };
    }

    /// Ends the operation under way with `outcome`.
    fn finish(&mut self, outcome: Outcome) -> (step: Step)
        ensures
            final(self).spec_conf() == old(self).spec_conf(),
            (final(self)@, step@) == old(self)@.finish(outcome@),
            final(self)@.wf(),
    {
        proof {
            use_type_invariant(&*self);
        }
        self.state = State {
            pid: self.state.pid,
            desired: self.state.desired,
            pending: Pending::Idle,
        };
        Step::Finished(outcome)
    }

    /// Ends the operation under way with the error `e`.
    fn fail(&mut self, e: ProcessError) -> (step: Step)
        ensures
            final(self).spec_conf() == old(self).spec_conf(),
            (final(self)@, step@) == old(self)@.fail(e@),
            final(self)@.wf(),
    {
        self.finish(Outcome::Failed(e))
    }

    /// Gives the verdict on child `pid` once its grace period is over.
    fn checked(&mut self, pid: u32, read: &StatRead) -> (step: Step)
        requires
            old(self)@.desired == Desired::Running,
        ensures
            final(self).spec_conf() == old(self).spec_conf(),
            (final(self)@, step@) == old(self)@.checked(pid, read@),
            final(self)@.wf(),
    {
        match ProcessStatus::get(pid, read) {
            Ok(ProcessStatus::Running) => {
                self.state = State {
                    pid: Some(pid),
                    desired: self.state.desired,
                    pending: Pending::Arming { pid },
                };
                Step::Watch { pid }
            },
            Ok(ProcessStatus::NotStarted) => self.fail(ProcessError::ExitedTooQuickly),
            Ok(other) => self.fail(ProcessError::UnexpectedState(other)),
            Err(e) => self.fail(ProcessError::Probe(e)),
        }
    }

    /// Takes the next look at `pid`, which was told to end.
    fn departed(&mut self, pid: u32, read: &StatRead) -> (step: Step)
        requires
            old(self)@.pid is None,
        ensures
            final(self).spec_conf() == old(self).spec_conf(),
            (final(self)@, step@) == old(self)@.departed(pid, read@),
            final(self)@.wf(),
    {
        match ProcessStatus::get(pid, read) {
            Ok(ProcessStatus::NotStarted) => self.finish(Outcome::Done),
            Ok(_) => {
                self.wait_for(Pending::Pausing { pid });
                Step::Pause { millis: POLL_MILLIS }
            },
            Err(e) => self.fail(ProcessError::Probe(e)),
        }
    }

    /// Reports on `pid`.
    fn inspected(&mut self, pid: u32, read: &StatRead) -> (step: Step)
        ensures
            final(self).spec_conf() == old(self).spec_conf(),
            (final(self)@, step@) == old(self)@.inspected(pid, read@),
            final(self)@.wf(),
    {
        match ProcessStatus::get(pid, read) {
            Ok(status) => self.finish(Outcome::Report(status)),
            Err(e) => self.fail(ProcessError::Probe(e)),
        }
    }

    /// Goes on with the operation under way, given what came of its last
    /// step. An event that the operation was not waiting for ends it with
    /// [`ProcessError::OutOfTurn`].
    pub fn resume(&mut self, event: Event) -> (step: Step)
        ensures
            final(self).spec_conf() == old(self).spec_conf(),
            (final(self)@, step@) == old(self)@.resume(
                old(self).spec_conf().start_seconds,
                event@,
            ),
            final(self)@.wf(),
    {
        proof {
            use_type_invariant(&*self);
        }
        match self.state.pending {
            Pending::Launching => match event {
                Event::Launched(pid) => {
                    self.wait_for(Pending::Settling { pid });
                    Step::Settle { seconds: self.conf.start_seconds }
                },
                Event::LaunchFailed(reason) => self.fail(ProcessError::Launch(reason)),
                _ => self.fail(ProcessError::OutOfTurn),
            },
            Pending::Settling { pid } => match event {
                Event::Slept => {
                    self.wait_for(Pending::Checking { pid });
                    Step::Probe { pid }
                },
                _ => self.fail(ProcessError::OutOfTurn),
            },
            Pending::Checking { pid } => match event {
                Event::Probed(read) => self.checked(pid, &read),
                _ => self.fail(ProcessError::OutOfTurn),
            },
            Pending::Arming { pid } => match event {
                Event::Watching => self.finish(Outcome::Done),
                _ => self.fail(ProcessError::OutOfTurn),
            },
            Pending::Signalling { pid, signal, wait } => match event {
                Event::Sent => if wait {
                    self.wait_for(Pending::Departing { pid });
                    Step::Probe { pid }
                } else {
                    self.finish(Outcome::Done)
                },
                Event::SendFailed => self.fail(ProcessError::Signal(signal)),
                _ => self.fail(ProcessError::OutOfTurn),
            },
            Pending::Departing { pid } => match event {
                Event::Probed(read) => self.departed(pid, &read),
                _ => self.fail(ProcessError::OutOfTurn),
            },
            Pending::Pausing { pid } => match event {
                Event::Slept => {
                    self.wait_for(Pending::Departing { pid });
                    Step::Probe { pid }
                },
                _ => self.fail(ProcessError::OutOfTurn),
            },
            Pending::Inspecting { pid } => match event {
                Event::Probed(read) => self.inspected(pid, &read),
                _ => self.fail(ProcessError::OutOfTurn),
            },
            Pending::Idle => self.fail(ProcessError::OutOfTurn),
        }
    }
}

/// The state and the step of an operation that began with `begun` and whose
/// steps were answered by `events`, in order.
pub open spec fn run(begun: (State, StepView), grace: u64, events: Seq<EventView>) -> (
    State,
    StepView,
)
    decreases events.len(),
{
    if events.len() == 0 {
        begun
    } else {
        run(begun, grace, events.drop_last()).0.resume(grace, events.last())
    }
}

/// What is tracked agrees with what is meant: a child is tracked exactly
/// while one is meant to run.
pub open spec fn settled(s: State) -> bool {
    s.pid is Some <==> s.desired == Desired::Running
}

/// Every operation keeps [`State::wf`]: whatever is asked and whatever is
/// reported, no child stays tracked while the child is meant to be stopped.
pub proof fn law_operations_keep_wf(
    s: State,
    grace: u64,
    strategy: RestartStrategy,
    pid: u32,
    success: bool,
    signal: Signal,
    event: EventView,
    auto_start: bool,
)
    requires
        s.wf(),
    ensures
        State::initial(auto_start).0.wf(),
        s.start().0.wf(),
        s.halt(signal).0.wf(),
        s.reload().0.wf(),
        s.status().0.wf(),
        s.child_exited(strategy, pid, success).0.wf(),
        s.resume(grace, event).0.wf(),
{
}

/// With the strategy that never restarts, the exit of a child, clean or not,
/// launches nothing: the child is tracked no more, and what is meant stays.
pub proof fn law_never_restarts(s: State, pid: u32, success: bool)
    ensures
        s.child_exited(RestartStrategy::Never, pid, success).1 == StepView::Finished(
            OutcomeView::Done,
        ),
        s.child_exited(RestartStrategy::Never, pid, success).0.desired == s.desired,
        s.child_exited(RestartStrategy::Never, pid, success).0.pid != Some(pid),
        s.pid == Some(pid) ==> s.child_exited(RestartStrategy::Never, pid, success).0.pid is None,
{
}

/// With the strategy that restarts on failure, a clean exit launches nothing,
/// and an exit that was no success launches a new child while the child is
/// meant to run.
pub proof fn law_on_failure_restarts(s: State, pid: u32)
    ensures
        s.child_exited(RestartStrategy::OnFailure, pid, true).1 == StepView::Finished(
            OutcomeView::Done,
        ),
        s.desired == Desired::Running ==> s.child_exited(RestartStrategy::OnFailure, pid, false).1
            == StepView::Launch,
{
}

/// With the strategy that always restarts, every exit launches a new child
/// while the child is meant to run.
pub proof fn law_always_restarts(s: State, pid: u32, success: bool)
    requires
        s.desired == Desired::Running,
    ensures
        s.child_exited(RestartStrategy::Always, pid, success).1 == StepView::Launch,
{
}

/// While the child is meant to be stopped, no exit launches a new child,
/// whatever the strategy.
pub proof fn law_stopped_never_restarts(
    s: State,
    strategy: RestartStrategy,
    pid: u32,
    success: bool,
)
    requires
        s.desired == Desired::Stopped,
    ensures
        s.child_exited(strategy, pid, success).1 == StepView::Finished(OutcomeView::Done),
{
}

/// A launch that was asked for, whose child `pid` is found running when its
/// grace period of `grace` seconds is over, ends with `pid` tracked, and a
/// status asked for then reports what the status record of `pid` shows.
pub proof fn law_launch_tracks_child(
    s: State,
    grace: u64,
    pid: u32,
    read: StatReadView,
    later: StatReadView,
)
    requires
        s.pending == Pending::Launching,
        ProcessStatus::of_read(pid, read) == Ok::<StatusView, ProbeErrorView>(StatusView::Running),
    ensures
        ({
            let events = seq![
                EventView::Launched(pid),
                EventView::Slept,
                EventView::Probed(read),
                EventView::Watching,
            ];
            let (after, step) = run((s, StepView::Launch), grace, events);
            &&& step == StepView::Finished(OutcomeView::Done)
            &&& after.pid == Some(pid)
            &&& after.desired == s.desired
            &&& after.status().1 == StepView::Probe { pid }
            &&& after.status().0.resume(grace, EventView::Probed(later)) == after.inspected(
                pid,
                later,
            )
        }),
{
    let begun = (s, StepView::Launch);
    let launched = EventView::Launched(pid);
    let probed = EventView::Probed(read);
    let events = seq![launched, EventView::Slept, probed, EventView::Watching];
    let three = events.drop_last();
    let two = three.drop_last();
    let one = two.drop_last();
    assert(one.drop_last().len() == 0);
    assert(run(begun, grace, one.drop_last()) == begun);
    assert(one.last() == launched);
    assert(run(begun, grace, one) == begun.0.resume(grace, launched));
    assert(two.last() == EventView::Slept);
    assert(run(begun, grace, two) == run(begun, grace, one).0.resume(grace, EventView::Slept));
    assert(three.last() == probed);
    assert(run(begun, grace, three) == run(begun, grace, two).0.resume(grace, probed));
    assert(events.last() == EventView::Watching);
    assert(run(begun, grace, events) == run(begun, grace, three).0.resume(
        grace,
        EventView::Watching,
    ));
}

/// `stop` (and `kill`) where no child is tracked does nothing and succeeds
/// at once.
pub proof fn law_stop_without_child(s: State, signal: Signal)
    requires
        s.pid is None,
    ensures
        s.halt(signal).1 == StepView::Finished(OutcomeView::Done),
        s.halt(signal).0 == (State {
            pid: None,
            desired: Desired::Stopped,
            pending: Pending::Idle,
        }),
{
}

/// Whether a `stop` or `kill` of `pid` that has been answered by `events` is
/// where it ought to be: nothing is tracked, the child is meant to be stopped,
/// and the operation has succeeded only on a look at `pid` that found it gone.
pub open spec fn halting(
    pid: u32,
    signal: Signal,
    events: Seq<EventView>,
    now: (State, StepView),
) -> bool {
    &&& now.0.pid is None
    &&& now.0.desired == Desired::Stopped
    &&& (now.0.pending == Pending::Idle || now.0.pending == Pending::Signalling {
        pid,
        signal,
        wait: true,
    } || now.0.pending == Pending::Departing { pid } || now.0.pending == Pending::Pausing { pid })
    &&& now.1 == StepView::Finished(OutcomeView::Done) ==> events.len() >= 2 && found_gone(
        pid,
        events.last(),
    )
}

/// `event` is a look at the status record of `pid` that found no such
/// process.
pub open spec fn found_gone(pid: u32, event: EventView) -> bool {
    match event {
        EventView::Probed(read) => ProcessStatus::of_read(pid, read) == Ok::<
            StatusView,
            ProbeErrorView,
        >(StatusView::NotStarted),
        _ => false,
    }
}

/// `stop` (and `kill`) of a tracked child forgets the child at once and
/// succeeds only when a look at the child has found it gone: until then the
/// operation goes on, however often the child is looked at.
pub proof fn law_stop_waits_until_gone(
    s: State,
    signal: Signal,
    grace: u64,
    events: Seq<EventView>,
)
    requires
        s.pid is Some,
    ensures
        halting(s.pid->0, signal, events, run(s.halt(signal), grace, events)),
    decreases events.len(),
{
    if events.len() > 0 {
        law_stop_waits_until_gone(s, signal, grace, events.drop_last());
        let before = run(s.halt(signal), grace, events.drop_last());
        if events.len() == 1 {
            assert(events.drop_last().len() == 0);
            assert(before == s.halt(signal));
        }
    }
}

/// A state in which nothing is tracked, the child is meant to be stopped, and
/// no launch is under way.
pub open spec fn halted(s: State) -> bool {
    &&& s.pid is None
    &&& s.desired == Desired::Stopped
    &&& match s.pending {
        Pending::Idle => true,
        Pending::Signalling { pid, signal, wait } => true,
        Pending::Departing { pid } => true,
        Pending::Pausing { pid } => true,
        _ => false,
    }
}

/// After `stop` (and `kill`), whatever is reported, nothing is tracked and
/// the child is meant to be stopped; a status asked for then is answered
/// `NotStarted`.
pub proof fn law_stop_settles(s: State, signal: Signal, grace: u64, events: Seq<EventView>)
    ensures
        halted(run(s.halt(signal), grace, events).0),
        settled(run(s.halt(signal), grace, events).0),
        run(s.halt(signal), grace, events).0.status().1 == StepView::Finished(
            OutcomeView::Report(StatusView::NotStarted),
        ),
    decreases events.len(),
{
    if events.len() > 0 {
        law_stop_settles(s, signal, grace, events.drop_last());
    }
}

/// Whether a `start` that has been answered by some events is where it ought
/// to be: the child is meant to run, and the operation has succeeded only
/// with a child tracked.
pub open spec fn starting(now: (State, StepView)) -> bool {
    &&& now.0.desired == Desired::Running
    &&& match now.0.pending {
        Pending::Idle => true,
        Pending::Launching => true,
        Pending::Settling { pid } => true,
        Pending::Checking { pid } => true,
        Pending::Arming { pid } => now.0.pid == Some(pid),
        _ => false,
    }
    &&& now.1 == StepView::Finished(OutcomeView::Done) ==> now.0.pid is Some
}

/// A `start` that succeeds leaves a child tracked and meant to run, from
/// whatever state it was asked and whatever was reported on the way.
pub proof fn law_start_settles(s: State, grace: u64, events: Seq<EventView>)
    ensures
        starting(run(s.start(), grace, events)),
        run(s.start(), grace, events).1 == StepView::Finished(OutcomeView::Done) ==> settled(
            run(s.start(), grace, events).0,
        ),
    decreases events.len(),
{
    if events.len() > 0 {
        law_start_settles(s, grace, events.drop_last());
    }
}

/// `start` and `stop` asked one after the other, in either order and from
/// any state, leave the supervisor settled once both have ended: after the
/// stop nothing is tracked and the child is meant to be stopped; after a
/// start that succeeded a child is tracked and meant to run. A start that
/// fails leaves no child tracked though one is meant to run.
pub proof fn law_start_and_stop_settle_in_either_order(
    s: State,
    signal: Signal,
    grace: u64,
    first: Seq<EventView>,
    second: Seq<EventView>,
)
    ensures
        settled(run(run(s.start(), grace, first).0.halt(signal), grace, second).0),
        run(run(s.halt(signal), grace, first).0.start(), grace, second).1 == StepView::Finished(
            OutcomeView::Done,
        ) ==> settled(run(run(s.halt(signal), grace, first).0.start(), grace, second).0),
{
    law_stop_settles(run(s.start(), grace, first).0, signal, grace, second);
    law_start_settles(run(s.halt(signal), grace, first).0, grace, second);
}

/// A supervisor that was made without automatic start and never started
/// reports `NotStarted`, in exactly that word.
pub proof fn law_never_started_status()
    ensures
        State::initial(false).0.status().1 == StepView::Finished(
            OutcomeView::Report(StatusView::NotStarted),
        ),
        ProcessStatus::label_text(StatusView::NotStarted) == "NotStarted"@,
{
}

} // verus!
