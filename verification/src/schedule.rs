//! The run of one task: waiting for the next instant of its schedule,
//! running its script, and stopping.

use vstd::prelude::*;
use std::str::FromStr;
use cron::Schedule;
use crate::task::Task;

verus! {

/// A schedule of the `cron` crate, read from a cron expression.
#[verifier::external_type_specification]
#[verifier::external_body]
pub struct ExSchedule(Schedule);

/// Why a run failed.
#[derive(Debug, Clone, Copy, PartialEq, Eq, Structural)]
pub enum RunError {
    /// The task's cron expression cannot be read.
    InvalidCron,
    /// The schedule has no instant left.
    ScheduleExhausted,
    /// The schedule's next instant lies before the present.
    InstantPassed,
    /// The script failed. A failed script ends the run.
    ScriptFailed,
}

/// How a run ended.
#[derive(Debug, Clone, Copy, PartialEq, Eq, Structural)]
pub enum StopReason {
    /// The script ran as often as the task allows.
    Completed,
    /// Cancellation arrived.
    Cancelled,
    Failed(RunError),
}

/// Where a run stands.
#[derive(Debug, Clone, Copy, PartialEq, Eq, Structural)]
pub enum RunPhase {
    /// Waiting for the next instant of the schedule.
    Waiting,
    /// The script is running.
    Running,
    Ended(StopReason),
}

/// What happened to a run.
#[derive(Debug, Clone, Copy, PartialEq, Eq, Structural)]
pub enum RunEvent {
    /// The wait is over.
    TimerElapsed,
    /// Cancellation arrived.
    Cancelled,
    ScriptSucceeded,
    ScriptFailed,
}

/// What to do next for a run.
#[derive(Debug, Clone, Copy, PartialEq, Eq, Structural)]
pub enum RunAction {
    /// Wait this long, or until cancellation arrives.
    Sleep { millis: u64 },
    /// Run the script once.
    RunScript,
    /// The run is over.
    Stop(StopReason),
    /// The event means nothing where the run stands.
    Ignore,
}

/// The run of one task.
pub struct RunLoop {
    schedule: Option<Schedule>,
    max_executions: Option<u32>,
    completed: u32,
    phase: RunPhase,
}

/// What a [`RunLoop`] is: how often the script may run, how often it has
/// run, and where the run stands.
pub struct RunLoopView {
    pub max_executions: Option<u32>,
    pub completed: nat,
    pub phase: RunPhase,
}

impl View for RunLoop {
    type V = RunLoopView;

    closed spec fn view(&self) -> RunLoopView {
        RunLoopView {
            max_executions: self.max_executions,
            completed: self.completed as nat,
            phase: self.phase,
        }
    }
}

/// Whether a cron expression can be read as a schedule.
pub uninterp spec fn cron_is_valid(expr: Seq<char>) -> bool;

/// Reads a cron expression with `cron::Schedule::from_str`.
#[verifier::external_body]
fn parse_schedule(expr: &str) -> (r: Option<Schedule>)
    ensures
        r is Some <==> cron_is_valid(expr@),
{
    Schedule::from_str(expr).ok()
}

/// The present by `chrono::Local::now`, in milliseconds since the Unix
/// epoch. Nothing is claimed of it.
#[verifier::external_body]
pub(crate) fn now_millis() -> i64 {
    chrono::Local::now().timestamp_millis()
}

/// An instant in the year 2103, in milliseconds since the Unix epoch. No
/// schedule holds an instant after the year 2100.
pub const SCHEDULE_HORIZON_MILLIS: i64 = 4_200_000_000_000;

/// The first instant of the schedule behind `now`, as
/// `cron::Schedule::after` gives it; both in milliseconds since the Unix
/// epoch. The schedule is read in the offset from UTC that local time has
/// at `now`, held fixed: a clock change between `now` and the instant is
/// not followed, and no day of the schedule lacks or repeats an hour. The
/// instants admitted lie far inside the range of dates, so that the
/// second which the search adds to `now` stays inside it. Nothing is
/// claimed of the outcome.
#[verifier::external_body]
fn next_fire_millis(schedule: &Schedule, now: i64) -> Option<i64>
    requires
        0 <= now <= SCHEDULE_HORIZON_MILLIS,
{
    let local = chrono::TimeZone::timestamp_millis_opt(&chrono::Local, now).single()?;
    schedule.after(&local.fixed_offset()).next().map(|t| t.timestamp_millis())
}

/// The first instant of the schedule behind `now`, if there is one. There
/// is none behind the horizon, and none is looked for before the epoch.
fn next_instant(schedule: &Schedule, now: i64) -> Option<i64> {
    if now < 0 || now > SCHEDULE_HORIZON_MILLIS {
        None
    } else {
        next_fire_millis(schedule, now)
    }
}

/// How long to wait at `now` for the instant `next`.
pub open spec fn plan_wait(now: int, next: Option<int>) -> Result<int, RunError> {
    match next {
        None => Err(RunError::ScheduleExhausted),
        Some(t) => if t < now {
            Err(RunError::InstantPassed)
        } else {
            Ok(t - now)
        },
    }
}

/// Whether the script has run as often as the task allows.
pub open spec fn is_exhausted(s: RunLoopView) -> bool {
    s.max_executions matches Some(n) && s.completed >= n
}

/// A run at its beginning or between two iterations: it stops if the
/// script has run often enough, and waits for the next instant otherwise.
pub open spec fn next_round(s: RunLoopView, plan: Result<int, RunError>) -> (RunLoopView, RunAction) {
    if is_exhausted(s) {
        (
            RunLoopView { phase: RunPhase::Ended(StopReason::Completed), ..s },
            RunAction::Stop(StopReason::Completed),
        )
    } else {
        match plan {
            Ok(millis) => (
                RunLoopView { phase: RunPhase::Waiting, ..s },
                RunAction::Sleep { millis: millis as u64 },
            ),
            Err(e) => (
                RunLoopView { phase: RunPhase::Ended(StopReason::Failed(e)), ..s },
                RunAction::Stop(StopReason::Failed(e)),
            ),
        }
    }
}

/// A run that has ended for `reason`.
pub open spec fn ended(s: RunLoopView, reason: StopReason) -> (RunLoopView, RunAction) {
    (RunLoopView { phase: RunPhase::Ended(reason), ..s }, RunAction::Stop(reason))
}

/// The count of iterations after one more, which stays at the largest
/// number once there.
pub open spec fn one_more(completed: nat) -> nat {
    if completed < u32::MAX {
        completed + 1
    } else {
        completed
    }
}

/// What an event does to a run, where `plan` is the wait for the
/// schedule's next instant. Cancellation is heeded while the run waits; a
/// script that runs is not interrupted, and a run that has ended stays
/// ended.
pub open spec fn step_spec(s: RunLoopView, event: RunEvent, plan: Result<int, RunError>) -> (
    RunLoopView,
    RunAction,
) {
    match (s.phase, event) {
        (RunPhase::Waiting, RunEvent::TimerElapsed) => (
            RunLoopView { phase: RunPhase::Running, ..s },
            RunAction::RunScript,
        ),
        (RunPhase::Waiting, RunEvent::Cancelled) => ended(s, StopReason::Cancelled),
        (RunPhase::Running, RunEvent::ScriptSucceeded) => next_round(
            RunLoopView { completed: one_more(s.completed), ..s },
            plan,
        ),
        (RunPhase::Running, RunEvent::ScriptFailed) => ended(
            s,
            StopReason::Failed(RunError::ScriptFailed),
        ),
        (RunPhase::Ended(reason), _) => (s, RunAction::Stop(reason)),
        _ => (s, RunAction::Ignore),
    }
}

/// The run of a task at its beginning, where `valid` says whether its
/// cron expression can be read and `plan` is the wait for the first
/// instant.
pub open spec fn begin_spec(max_executions: Option<u32>, valid: bool, plan: Result<int, RunError>) -> (
    RunLoopView,
    RunAction,
) {
    let fresh = RunLoopView { max_executions, completed: 0, phase: RunPhase::Waiting };
    if !valid {
        ended(fresh, StopReason::Failed(RunError::InvalidCron))
    } else {
        next_round(fresh, plan)
    }
}

/// How long to wait at `now` for the instant `next`, both in milliseconds
/// since the Unix epoch.
pub fn wait_for(now: i64, next: Option<i64>) -> (plan: Result<u64, RunError>)
    ensures
        match plan {
            Ok(millis) => plan_wait(now as int, wide(next)) == Ok::<int, RunError>(millis as int),
            Err(e) => plan_wait(now as int, wide(next)) == Err::<int, RunError>(e),
        },
{
    match next {
        None => Err(RunError::ScheduleExhausted),
        Some(t) => {
            if t < now {
                Err(RunError::InstantPassed)
            } else {
                let gap: i128 = t as i128 - now as i128;
                Ok(gap as u64)
            }
        },
    }
}

/// An optional instant as an integer.
pub open spec fn wide(next: Option<i64>) -> Option<int> {
    match next {
        Some(t) => Some(t as int),
        None => None,
    }
}

impl RunLoop {
    /// The schedule that the run consults, read once from the task's cron
    /// expression; none where the expression cannot be read.
    pub closed spec fn schedule(&self) -> Option<Schedule> {
        self.schedule
    }

    /// Whether the script has run as often as the task allows.
    fn exhausted(&self) -> (yes: bool)
        ensures
            yes == is_exhausted(self@),
    {
        match self.max_executions {
            Some(n) => self.completed >= n,
            None => false,
        }
    }

    fn end(&mut self, reason: StopReason) -> (action: RunAction)
        ensures
            (final(self)@, action) == ended(old(self)@, reason),
            final(self).schedule() == old(self).schedule(),
    {
        self.phase = RunPhase::Ended(reason);
        RunAction::Stop(reason)
    }

    fn round(&mut self, now: i64, next: Option<i64>) -> (action: RunAction)
        ensures
            (final(self)@, action) == next_round(old(self)@, plan_wait(now as int, wide(next))),
            final(self).schedule() == old(self).schedule(),
    {
        if self.exhausted() {
            return self.end(StopReason::Completed);
        }
        match wait_for(now, next) {
            Ok(millis) => {
                self.phase = RunPhase::Waiting;
                RunAction::Sleep { millis }
            },
            Err(e) => self.end(StopReason::Failed(e)),
        }
    }

    /// Whether the event makes the run look for the schedule's next
    /// instant.
    pub open spec fn consults_schedule(s: RunLoopView, event: RunEvent) -> bool {
        s.phase == RunPhase::Running && event == RunEvent::ScriptSucceeded && !is_exhausted(
            RunLoopView { completed: one_more(s.completed), ..s },
        )
    }

    /// The step that `event` makes, with the present `now` and the
    /// schedule's next instant `next`, both in milliseconds since the Unix
    /// epoch.
    pub fn step_at(&mut self, event: RunEvent, now: i64, next: Option<i64>) -> (action: RunAction)
        ensures
            (final(self)@, action) == step_spec(
                old(self)@,
                event,
                plan_wait(now as int, wide(next)),
            ),
            final(self).schedule() == old(self).schedule(),
    {
        match self.phase {
            RunPhase::Waiting => match event {
                RunEvent::TimerElapsed => {
                    self.phase = RunPhase::Running;
                    RunAction::RunScript
                },
                RunEvent::Cancelled => self.end(StopReason::Cancelled),
                _ => RunAction::Ignore,
            },
            RunPhase::Running => match event {
                RunEvent::ScriptSucceeded => {
                    if self.completed < u32::MAX {
                        self.completed = self.completed + 1;
                    }
                    self.round(now, next)
                },
                RunEvent::ScriptFailed => self.end(StopReason::Failed(RunError::ScriptFailed)),
                _ => RunAction::Ignore,
            },
            RunPhase::Ended(reason) => RunAction::Stop(reason),
        }
    }

    /// The step that `event` makes. Where the run goes on to wait, the
    /// clock and the schedule say for how long.
    pub fn step(&mut self, event: RunEvent) -> (action: RunAction)
        ensures
            exists|now: int, next: Option<int>|
                (final(self)@, action) == step_spec(old(self)@, event, plan_wait(now, next)),
            !Self::consults_schedule(old(self)@, event) ==> (final(self)@, action) == step_spec(
                old(self)@,
                event,
                Err(RunError::ScheduleExhausted),
            ),
            final(self).schedule() == old(self).schedule(),
    {
        let looks = match (&self.phase, &event, &self.schedule) {
            (RunPhase::Running, RunEvent::ScriptSucceeded, Some(_)) => true,
            _ => false,
        };
        let now = if looks { now_millis() } else { 0 };
        let next = match &self.schedule {
            Some(schedule) => if looks { next_instant(schedule, now) } else { None },
            None => None,
        };
        let action = self.step_at(event, now, next);
        assert((self@, action) == step_spec(old(self)@, event, plan_wait(now as int, wide(next))));
        action
    }

    /// Where the run stands.
    pub fn phase(&self) -> (p: RunPhase)
        ensures
            p == self@.phase,
    {
        self.phase
    }

    /// How often the script has run to its end.
    pub fn completed(&self) -> (n: u32)
        ensures
            n == self@.completed,
    {
        self.completed
    }
}

impl Task {
    /// Begins the run of the task with its schedule already read, at the
    /// present `now` and with the schedule's next instant `next`.
    pub fn run_at(&self, schedule: Option<Schedule>, now: i64, next: Option<i64>) -> (r: (
        RunLoop,
        RunAction,
    ))
        ensures
            (r.0@, r.1) == begin_spec(
                self.max_executions,
                schedule is Some,
                plan_wait(now as int, wide(next)),
            ),
            r.0.schedule() == schedule,
    {
        let mut run = RunLoop {
            schedule,
            max_executions: self.max_executions,
            completed: 0,
            phase: RunPhase::Waiting,
        };
        let action = if run.schedule.is_none() {
            run.end(StopReason::Failed(RunError::InvalidCron))
        } else {
            run.round(now, next)
        };
        (run, action)
    }

    /// Begins the run of the task: reads its cron expression once and
    /// says what to do first. A task that may run zero times is over at
    /// once; an expression that cannot be read fails the run.
    pub fn run(&self) -> (r: (RunLoop, RunAction))
        ensures
            exists|now: int, next: Option<int>|
                (r.0@, r.1) == begin_spec(
                    self.max_executions,
                    cron_is_valid(self.cron@),
                    plan_wait(now, next),
                ),
            !cron_is_valid(self.cron@) ==> r.1 == RunAction::Stop(
                StopReason::Failed(RunError::InvalidCron),
            ),
            cron_is_valid(self.cron@) && self.max_executions == Some(0u32) ==> r.1
                == RunAction::Stop(StopReason::Completed),
            r.0.schedule() is Some <==> cron_is_valid(self.cron@),
    {
        let schedule = parse_schedule(self.cron.as_str());
        let now = now_millis();
        let next = match &schedule {
            Some(s) => next_instant(s, now),
            None => None,
        };
        let r = self.run_at(schedule, now, next);
        assert((r.0@, r.1) == begin_spec(
            self.max_executions,
            cron_is_valid(self.cron@),
            plan_wait(now as int, wide(next)),
        ));
        r
    }
}

/// The run after `k` more iterations in each of which the wait ends, the
/// script succeeds and the schedule's next instant is `gap` away.
pub open spec fn after_rounds(s: RunLoopView, k: nat, gap: int) -> RunLoopView
    decreases k,
{
    if k == 0 {
        s
    } else {
        let before = after_rounds(s, (k - 1) as nat, gap);
        let fired = step_spec(before, RunEvent::TimerElapsed, Ok(gap)).0;
        step_spec(fired, RunEvent::ScriptSucceeded, Ok(gap)).0
    }
}

/// How often the script is run in those `k` iterations.
pub open spec fn scripts_run(s: RunLoopView, k: nat, gap: int) -> nat
    decreases k,
{
    if k == 0 {
        0
    } else {
        let before = after_rounds(s, (k - 1) as nat, gap);
        let ran: nat = if step_spec(before, RunEvent::TimerElapsed, Ok(gap)).1
            == RunAction::RunScript {
            1
        } else {
            0
        };
        scripts_run(s, (k - 1) as nat, gap) + ran
    }
}

/// A task that may run `n` times, and whose schedule always has a next
/// instant, runs its script exactly `n` times however long it is driven:
/// after fewer than `n` iterations it waits for the next one, and from the
/// `n`-th on it has ended as completed, with no cancellation.
pub proof fn lemma_bounded_run(n: u32, k: nat, gap: int)
    requires
        0 <= gap,
    ensures
        ({
            let start = begin_spec(Some(n), true, Ok(gap)).0;
            let end = after_rounds(start, k, gap);
            &&& end.max_executions == Some(n)
            &&& k < n ==> end.phase == RunPhase::Waiting && end.completed == k && scripts_run(
                start,
                k,
                gap,
            ) == k
            &&& k >= n ==> end.phase == RunPhase::Ended(StopReason::Completed) && end.completed
                == n && scripts_run(start, k, gap) == n
        }),
    decreases k,
{
    let start = begin_spec(Some(n), true, Ok(gap)).0;
    if k == 0 {
        assert(after_rounds(start, 0, gap) == start);
        assert(scripts_run(start, 0, gap) == 0);
    } else {
        lemma_bounded_run(n, (k - 1) as nat, gap);
        let before = after_rounds(start, (k - 1) as nat, gap);
        let fired = step_spec(before, RunEvent::TimerElapsed, Ok(gap));
        let done = step_spec(fired.0, RunEvent::ScriptSucceeded, Ok(gap));
        assert(after_rounds(start, k, gap) == done.0);
        assert(scripts_run(start, k, gap) == scripts_run(start, (k - 1) as nat, gap) + (if fired.1
            == RunAction::RunScript {
            1nat
        } else {
            0nat
        }));
        if k - 1 < n {
            assert(fired.1 == RunAction::RunScript);
            assert(one_more(before.completed) == k);
            assert(done.0.completed == k);
        } else {
            assert(fired.1 == RunAction::Stop(StopReason::Completed));
            assert(done.0 == before);
        }
    }
}

/// A run whose task sets no bound never ends as completed by a step: it
/// ends only by cancellation or failure.
pub proof fn lemma_unbounded_run_never_completes(
    s: RunLoopView,
    event: RunEvent,
    plan: Result<int, RunError>,
)
    requires
        s.max_executions is None,
        s.phase != RunPhase::Ended(StopReason::Completed),
    ensures
        step_spec(s, event, plan).0.phase != RunPhase::Ended(StopReason::Completed),
        step_spec(s, event, plan).0.max_executions is None,
{
}

} // verus!
