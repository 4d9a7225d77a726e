//! The decisions of the relay between the caller and the child process.
//!
//! The program spawns the child, copies the two streams and waits for the
//! child; after each of these it tells the [`Bridge`] what happened, and
//! the bridge answers with what to do next. The bridge itself touches no
//! process and no stream.

use vstd::prelude::*;

verus! {

/// The exit status of the proxy after a failure of its own, and after a
/// child that ended without an exit code.
pub const FAILURE_STATUS: i32 = 1;

/// One of the two directions in which bytes are copied.
#[derive(Clone, Copy, Debug, PartialEq, Eq)]
pub enum Direction {
    /// From the caller's standard input to the child's.
    Input,
    /// From the child's standard output to the caller's.
    Output,
}

/// How the copy in one direction ended.
#[derive(Clone, Copy, Debug, PartialEq, Eq)]
pub enum StreamCopyResult {
    /// The source came to its end after this many bytes, all of them
    /// written to the destination.
    Copied(u64),
    /// Reading or writing failed.
    Failed,
}

/// How far the relay has come.
#[derive(Clone, Copy, Debug, PartialEq, Eq)]
pub enum Phase {
    /// No child yet.
    NotStarted,
    /// The child runs, no copy has begun.
    Spawned,
    /// The copies run, and none has failed.
    Relaying,
    /// The child has ended and its status is known.
    ChildExited,
    /// The status has been reported.
    Done,
    /// The child could not be started, or a copy has failed.
    Failed,
}

/// What went wrong first.
#[derive(Clone, Copy, Debug, PartialEq, Eq)]
pub enum Failure {
    /// The child could not be started.
    Spawn,
    /// The copy in this direction failed.
    Relay(Direction),
    /// The child ended without an exit code.
    AbnormalExit,
}

/// What the program reports to the bridge.
#[derive(Clone, Copy, Debug, PartialEq, Eq)]
pub enum Event {
    /// The child was started, with its standard input and output piped.
    SpawnSucceeded,
    /// The child could not be started.
    SpawnFailed,
    /// Both copies have begun.
    RelayStarted,
    /// The copy in this direction has ended.
    RelayEnded(Direction, StreamCopyResult),
    /// The child ended, with its exit code if it has one.
    ChildExited(Option<i32>),
    /// The status was reported to the caller.
    Reported,
}

/// What the bridge asks the program to do next.
#[derive(Clone, Copy, Debug, PartialEq, Eq)]
pub enum Action {
    /// Start both copies, each making progress on its own.
    StartRelay,
    /// Wait for the next copy to end.
    AwaitRelay,
    /// Wait for the child to end.
    Reap,
    /// Report the failure, if there is one, and end with this status.
    Report(i32),
    /// Nothing is left to do.
    Stop,
    /// The event has no meaning in this state, which is unchanged.
    Ignore,
}

/// The state of one relay.
#[derive(Clone, Copy, Debug, PartialEq, Eq)]
pub struct Bridge {
    /// How far the relay has come.
    pub phase: Phase,
    /// How the copy towards the child ended, once it has.
    pub input: Option<StreamCopyResult>,
    /// How the copy from the child ended, once it has.
    pub output: Option<StreamCopyResult>,
    /// The first failure, if any.
    pub failure: Option<Failure>,
}

/// The status with which the proxy ends: the child's exit code when nothing
/// failed and the child has one, the failure status otherwise.
pub open spec fn spec_exit_code(failure: Option<Failure>, status: Option<i32>) -> i32 {
    match (failure, status) {
        (None, Some(code)) => code,
        _ => FAILURE_STATUS,
    }
}

/// The failure to surface once the child has ended: the one already
/// recorded, else the lack of an exit code.
pub open spec fn spec_final_failure(failure: Option<Failure>, status: Option<i32>) -> Option<
    Failure,
> {
    match (failure, status) {
        (None, None) => Some(Failure::AbnormalExit),
        _ => failure,
    }
}

impl Bridge {
    /// The state before anything has happened.
    pub open spec fn spec_new() -> Bridge {
        Bridge { phase: Phase::NotStarted, input: None, output: None, failure: None }
    }

    /// How the copy in a direction ended, once it has.
    pub open spec fn result(self, direction: Direction) -> Option<StreamCopyResult> {
        match direction {
            Direction::Input => self.input,
            Direction::Output => self.output,
        }
    }

    /// Whether both copies have ended.
    pub open spec fn joined(self) -> bool {
        self.input.is_some() && self.output.is_some()
    }

    /// The states that a relay can be in.
    pub open spec fn wf(self) -> bool {
        &&& match self.phase {
            Phase::NotStarted | Phase::Spawned => self.input.is_none() && self.output.is_none()
                && self.failure.is_none(),
            Phase::Relaying => self.failure.is_none(),
            Phase::Failed => self.failure.is_some() && self.failure != Some(Failure::AbnormalExit)
                && (self.failure == Some(Failure::Spawn) ==> self.input.is_none()
                && self.output.is_none()),
            Phase::ChildExited | Phase::Done => self.joined() && self.failure != Some(
                Failure::Spawn,
            ),
        }
        &&& (self.failure matches Some(Failure::Relay(d)) ==> self.result(d) == Some(
            StreamCopyResult::Failed,
        ))
        &&& (self.input == Some(StreamCopyResult::Failed) || self.output == Some(
            StreamCopyResult::Failed,
        ) ==> self.failure matches Some(Failure::Relay(_)))
    }

    /// Whether the copies are under way: begun, and the child not yet reaped.
    pub open spec fn copying(self) -> bool {
        self.phase == Phase::Relaying || (self.phase == Phase::Failed && self.failure != Some(
            Failure::Spawn,
        ))
    }

    /// The state with the end of the copy in a direction recorded, and its
    /// failure if it is the first.
    pub open spec fn with_result(self, direction: Direction, result: StreamCopyResult) -> Bridge {
        let failed = result == StreamCopyResult::Failed;
        let phase = if failed {
            Phase::Failed
        } else {
            self.phase
        };
        let failure = if failed && self.failure.is_none() {
            Some(Failure::Relay(direction))
        } else {
            self.failure
        };
        match direction {
            Direction::Input => Bridge { phase, failure, input: Some(result), ..self },
            Direction::Output => Bridge { phase, failure, output: Some(result), ..self },
        }
    }

    /// What to do after a copy has ended: reap the child once both have.
    pub open spec fn after_copy(self) -> Action {
        if self.joined() {
            Action::Reap
        } else {
            Action::AwaitRelay
        }
    }

    /// The state after an event, and what the program is to do next.
    pub open spec fn spec_step(self, event: Event) -> (Bridge, Action) {
        match event {
            Event::SpawnSucceeded if self.phase == Phase::NotStarted => (
                Bridge { phase: Phase::Spawned, ..self },
                Action::StartRelay,
            ),
            Event::SpawnFailed if self.phase == Phase::NotStarted => (
                Bridge { phase: Phase::Failed, failure: Some(Failure::Spawn), ..self },
                Action::Report(FAILURE_STATUS),
            ),
            Event::RelayStarted if self.phase == Phase::Spawned => (
                Bridge { phase: Phase::Relaying, ..self },
                Action::AwaitRelay,
            ),
            Event::RelayEnded(d, r) if self.copying() && self.result(d).is_none() => (
                self.with_result(d, r),
                self.with_result(d, r).after_copy(),
            ),
            Event::ChildExited(status) if self.copying() && self.joined() => (
                Bridge {
                    phase: Phase::ChildExited,
                    failure: spec_final_failure(self.failure, status),
                    ..self
                },
                Action::Report(spec_exit_code(self.failure, status)),
            ),
            Event::Reported if self.phase == Phase::ChildExited => (
                Bridge { phase: Phase::Done, ..self },
                Action::Stop,
            ),
            _ => (self, Action::Ignore),
        }
    }

    /// A relay of which nothing has happened yet: the program is to spawn
    /// the child and report how that went.
    pub fn new() -> (bridge: Bridge)
        ensures
            bridge == Bridge::spec_new(),
            bridge.wf(),
    {
        Bridge { phase: Phase::NotStarted, input: None, output: None, failure: None }
    }

    fn is_copying(&self) -> (b: bool)
        ensures
            b == self.copying(),
    {
        match self.phase {
            Phase::Relaying => true,
            Phase::Failed => match self.failure {
                Some(Failure::Spawn) => false,
                _ => true,
            },
            _ => false,
        }
    }

    fn has_ended(&self, direction: Direction) -> (b: bool)
        ensures
            b == self.result(direction).is_some(),
    {
        match direction {
            Direction::Input => self.input.is_some(),
            Direction::Output => self.output.is_some(),
        }
    }

    fn record(&mut self, direction: Direction, result: StreamCopyResult) -> (action: Action)
        ensures
            *final(self) == old(self).with_result(direction, result),
            action == final(self).after_copy(),
    {
        match result {
            StreamCopyResult::Failed => {
                self.phase = Phase::Failed;
                if self.failure.is_none() {
                    self.failure = Some(Failure::Relay(direction));
                }
            },
            StreamCopyResult::Copied(_) => {},
        }
        match direction {
            Direction::Input => {
                self.input = Some(result);
            },
            Direction::Output => {
                self.output = Some(result);
            },
        }
        if self.input.is_some() && self.output.is_some() {
            Action::Reap
        } else {
            Action::AwaitRelay
        }
    }

    /// Takes an event in and says what to do next. An event that has no
    /// meaning in the present state changes nothing and is answered with
    /// `Action::Ignore`.
    pub fn step(&mut self, event: Event) -> (action: Action)
        ensures
            (*final(self), action) == old(self).spec_step(event),
            old(self).wf() ==> final(self).wf(),
    {
        proof {
            if self.wf() {
                lemma_step_keeps_wf(*self, event);
            }
        }
        match event {
            Event::SpawnSucceeded => match self.phase {
                Phase::NotStarted => {
                    self.phase = Phase::Spawned;
                    Action::StartRelay
                },
                _ => Action::Ignore,
            },
            Event::SpawnFailed => match self.phase {
                Phase::NotStarted => {
                    self.phase = Phase::Failed;
                    self.failure = Some(Failure::Spawn);
                    Action::Report(FAILURE_STATUS)
                },
                _ => Action::Ignore,
            },
            Event::RelayStarted => match self.phase {
                Phase::Spawned => {
                    self.phase = Phase::Relaying;
                    Action::AwaitRelay
                },
                _ => Action::Ignore,
            },
            Event::RelayEnded(d, r) => {
                if self.is_copying() && !self.has_ended(d) {
                    self.record(d, r)
                } else {
                    Action::Ignore
                }
            },
            Event::ChildExited(status) => {
                if self.is_copying() && self.input.is_some() && self.output.is_some() {
                    let code: i32 = exit_code(self.failure, status);
                    self.phase = Phase::ChildExited;
                    self.failure = final_failure(self.failure, status);
                    Action::Report(code)
                } else {
                    Action::Ignore
                }
            },
            Event::Reported => match self.phase {
                Phase::ChildExited => {
                    self.phase = Phase::Done;
                    Action::Stop
                },
                _ => Action::Ignore,
            },
        }
    }
}

/// No event leads out of the states that a relay can be in.
pub proof fn lemma_step_keeps_wf(bridge: Bridge, event: Event)
    requires
        bridge.wf(),
    ensures
        bridge.spec_step(event).0.wf(),
{
}

/// The status with which the proxy ends, from the first failure of the
/// relay, if any, and the child's exit code, if it has one. It is the
/// child's code exactly when nothing failed.
pub fn exit_code(failure: Option<Failure>, status: Option<i32>) -> (code: i32)
    ensures
        code == spec_exit_code(failure, status),
{
    match failure {
        Some(_) => FAILURE_STATUS,
        None => match status {
            Some(code) => code,
            None => FAILURE_STATUS,
        },
    }
}

/// The failure to surface once the child has ended: the first one of the
/// relay, else `Failure::AbnormalExit` if the child has no exit code.
pub fn final_failure(failure: Option<Failure>, status: Option<i32>) -> (surfaced: Option<Failure>)
    ensures
        surfaced == spec_final_failure(failure, status),
{
    match failure {
        Some(f) => Some(f),
        None => match status {
            Some(_) => None,
            None => Some(Failure::AbnormalExit),
        },
    }
}

impl Direction {
    /// The other direction.
    pub open spec fn opposite(self) -> Direction {
        match self {
            Direction::Input => Direction::Output,
            Direction::Output => Direction::Input,
        }
    }
}

/// The state in which both copies run: the child was started and the
/// copies have begun.
pub open spec fn spec_relaying() -> Bridge {
    Bridge::spec_new().spec_step(Event::SpawnSucceeded).0.spec_step(Event::RelayStarted).0
}

/// The state in which both copies have ended, `first` before the other.
pub open spec fn spec_joined(
    first: Direction,
    result_first: StreamCopyResult,
    result_second: StreamCopyResult,
) -> Bridge {
    spec_relaying().spec_step(Event::RelayEnded(first, result_first)).0.spec_step(
        Event::RelayEnded(first.opposite(), result_second),
    ).0
}

/// A child that starts is followed by both copies, and the child is reaped
/// when the second of them has ended, in whichever order they end and
/// whether or not one failed: a failure in one direction leaves the other
/// one running.
pub proof fn lemma_both_copies_run(
    first: Direction,
    result_first: StreamCopyResult,
    result_second: StreamCopyResult,
)
    ensures
        Bridge::spec_new().spec_step(Event::SpawnSucceeded).1 == Action::StartRelay,
        spec_relaying().spec_step(Event::RelayEnded(first, result_first)).1 == Action::AwaitRelay,
        spec_relaying().spec_step(Event::RelayEnded(first, result_first)).0.spec_step(
            Event::RelayEnded(first.opposite(), result_second),
        ).1 == Action::Reap,
        spec_joined(first, result_first, result_second).result(first) == Some(result_first),
        spec_joined(first, result_first, result_second).result(first.opposite()) == Some(
            result_second,
        ),
{
}

/// When both copies end without failure, the proxy ends with the child's
/// exit code, whatever it is, and no failure is recorded.
pub proof fn lemma_exit_code_propagates(first: Direction, sent: u64, received: u64, code: i32)
    ensures
        ({
            let joined = spec_joined(
                first,
                StreamCopyResult::Copied(sent),
                StreamCopyResult::Copied(received),
            );
            let (exited, action) = joined.spec_step(Event::ChildExited(Some(code)));
            &&& action == Action::Report(code)
            &&& exited.phase == Phase::ChildExited
            &&& exited.failure.is_none()
            &&& exited.spec_step(Event::Reported) == (
                Bridge { phase: Phase::Done, ..exited },
                Action::Stop,
            )
        }),
{
}

/// A child that ends without an exit code, after copies that did not fail,
/// gives the failure status, and that is what is recorded as the failure.
pub proof fn lemma_abnormal_exit(first: Direction, sent: u64, received: u64)
    ensures
        ({
            let joined = spec_joined(
                first,
                StreamCopyResult::Copied(sent),
                StreamCopyResult::Copied(received),
            );
            let (exited, action) = joined.spec_step(Event::ChildExited(None));
            &&& action == Action::Report(FAILURE_STATUS)
            &&& exited.failure == Some(Failure::AbnormalExit)
        }),
{
}

/// When a copy fails, the proxy ends with the failure status whatever the
/// child's own status is, and the failure recorded is that of the copy
/// that failed first.
pub proof fn lemma_relay_failure_surfaces(
    first: Direction,
    result_first: StreamCopyResult,
    result_second: StreamCopyResult,
    status: Option<i32>,
)
    requires
        result_first == StreamCopyResult::Failed || result_second == StreamCopyResult::Failed,
    ensures
        ({
            let joined = spec_joined(first, result_first, result_second);
            let (exited, action) = joined.spec_step(Event::ChildExited(status));
            &&& action == Action::Report(FAILURE_STATUS)
            &&& exited.failure == Some(
                Failure::Relay(
                    if result_first == StreamCopyResult::Failed {
                        first
                    } else {
                        first.opposite()
                    },
                ),
            )
        }),
{
}

/// A child that cannot be started gives the failure status at once, which
/// is not zero, and no copy is ever asked for: every later event is
/// ignored.
pub proof fn lemma_spawn_failure_is_final(event: Event)
    ensures
        ({
            let (failed, action) = Bridge::spec_new().spec_step(Event::SpawnFailed);
            &&& action == Action::Report(FAILURE_STATUS)
            &&& FAILURE_STATUS != 0
            &&& failed.phase == Phase::Failed
            &&& failed.failure == Some(Failure::Spawn)
            &&& failed.spec_step(event) == (failed, Action::Ignore)
        }),
{
}

/// Once the status has been reported, every event is ignored.
pub proof fn lemma_done_is_final(bridge: Bridge, event: Event)
    requires
        bridge.phase == Phase::Done,
    ensures
        bridge.spec_step(event) == (bridge, Action::Ignore),
{
}

/// The first failure stays: no event replaces a failure that is recorded.
pub proof fn lemma_first_failure_stays(bridge: Bridge, event: Event)
    requires
        bridge.wf(),
        bridge.failure.is_some(),
    ensures
        bridge.spec_step(event).0.failure == bridge.failure,
{
}

/// What is recorded of a copy that has ended stays as it is.
pub proof fn lemma_result_stays(bridge: Bridge, event: Event, direction: Direction)
    requires
        bridge.result(direction).is_some(),
    ensures
        bridge.spec_step(event).0.result(direction) == bridge.result(direction),
{
}

/// The child is reaped at the event that ends the second copy, and at no
/// other: the answer `Action::Reap` is given once, when both have ended.
pub proof fn lemma_reap_once(bridge: Bridge, event: Event)
    ensures
        bridge.spec_step(event).1 == Action::Reap <==> (bridge.copying() && !bridge.joined()
            && bridge.spec_step(event).0.joined()),
{
}

/// The proxy ends with status zero only for a child that ended with exit
/// code zero after a relay without any failure.
pub proof fn lemma_zero_means_success(bridge: Bridge, event: Event)
    requires
        bridge.wf(),
        bridge.spec_step(event).1 == Action::Report(0),
    ensures
        event == Event::ChildExited(Some(0)),
        bridge.joined(),
        bridge.input != Some(StreamCopyResult::Failed),
        bridge.output != Some(StreamCopyResult::Failed),
        bridge.spec_step(event).0.failure.is_none(),
{
}

} // verus!
