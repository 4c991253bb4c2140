use vstd::prelude::*;

use crate::hours::{Hours, HoursSum};
use crate::stamp::{adjusted_start, adjusted_start_of};

verus! {

/// The period that a listing of activities covers.
#[derive(Clone, Copy, Debug, PartialEq, Eq, Structural)]
pub enum DateRange {
    Today,
    Week,
    Month,
}

/// The period that the flags select: today before week before month, and the
/// current week when no flag is given.
pub open spec fn range_of(today: bool, week: bool, month: bool) -> DateRange {
    if today {
        DateRange::Today
    } else if week {
        DateRange::Week
    } else if month {
        DateRange::Month
    } else {
        DateRange::Week
    }
}

/// Picks the listing period from the `--today`, `--week` and `--month` flags.
pub fn select_range(today: bool, week: bool, month: bool) -> (r: DateRange)
    ensures
        r == range_of(today, week, month),
{
    if today {
        DateRange::Today
    } else if week {
        DateRange::Week
    } else if month {
        DateRange::Month
    } else {
        DateRange::Week
    }
}

/// What the engine needs to know of a remote activity.
#[derive(Clone, Copy, Debug, PartialEq, Eq, Structural)]
pub struct ActivityStatus {
    pub id: i64,
    pub hours: Hours,
    /// Whether the remote service reports a timer running on it.
    pub timer_running: bool,
}

/// The two controls of a remote activity timer.
#[derive(Clone, Copy, Debug, PartialEq, Eq, Structural)]
pub enum TimerControl {
    Start,
    Stop,
}

/// A mutating command that the engine carries out.
#[derive(Clone, Copy, Debug, PartialEq, Eq, Structural)]
pub enum Operation {
    /// Create an activity; no hours means a timer that starts now.
    Create { hours: Option<Hours> },
    Edit { activity_id: i64 },
    Delete { activity_id: i64 },
    StartTimer { activity_id: i64 },
    StopTimer,
    Report,
}

/// Why a command ended without its work done.
#[derive(Clone, Copy, Debug, PartialEq, Eq, Structural)]
pub enum Failure {
    /// A call to the remote service failed.
    Remote,
    /// An event came that the current step does not wait for.
    UnexpectedEvent,
    /// The adjusted start of a timer lies outside the representable times.
    TimeOutOfRange,
}

/// How a command ended.
#[derive(Clone, Copy, Debug, PartialEq, Eq, Structural)]
pub enum Outcome {
    /// The work is done and the snapshot was written; `activity` is the
    /// activity as the remote service holds it afterwards, where fetched.
    Completed { activity: Option<ActivityStatus>, variation: Hours, today: HoursSum },
    /// The remote timer runs and the local marker was written.
    TimerStarted { started: ActivityStatus },
    /// No remote timer was running; the local marker is gone.
    AlreadyStopped,
    Failed { failure: Failure },
}

/// What the engine asks its caller to do next.
#[derive(Clone, Copy, Debug, PartialEq, Eq, Structural)]
pub enum Action {
    /// Send the create request of the command to the remote service.
    SendCreate,
    /// Send the edit request of the command to the remote service.
    SendEdit,
    SendDelete { activity_id: i64 },
    ControlTimer { activity_id: i64, control: TimerControl },
    FetchActivity { activity_id: i64 },
    ListActivities { range: DateRange },
    /// Fetch the performance report; answer with its variation until today.
    FetchReport,
    /// Answer with the current Unix time in seconds.
    ReadClock,
    /// Overwrite the timer marker with these two Unix times.
    WriteTimerMarker { now: i64, start: i64 },
    /// Delete the timer marker.
    RemoveTimerMarker,
    /// Overwrite the report snapshot with the text of these two values.
    WriteSnapshot { variation: Hours, today: HoursSum },
    /// The command is over.
    Finish { outcome: Outcome },
}

/// What the caller reports back after an action.
#[derive(Debug)]
pub enum Event {
    /// The action succeeded and returns nothing.
    Done,
    /// `RemoveTimerMarker` found no marker to delete.
    MarkerAbsent,
    Fetched { activity: ActivityStatus },
    Listed { activities: Vec<ActivityStatus> },
    /// The variation until today of the performance report.
    Reported { variation: Hours },
    Clock { now: i64 },
    /// The remote call failed.
    Failed,
}

/// Where the engine stands.
#[derive(Clone, Copy, Debug, PartialEq, Eq, Structural)]
pub enum Stage {
    AwaitMutation,
    AwaitActivity,
    AwaitClock,
    AwaitMarkerWrite,
    AwaitMarkerRemoval,
    AwaitRunning,
    AwaitPeriod,
    AwaitReport { today: HoursSum },
    AwaitSnapshotWrite { variation: Hours, today: HoursSum },
    Finished,
}

/// The reconciliation engine: it runs one command against the remote service
/// and keeps the timer marker and the report snapshot in step with it.
#[derive(Clone, Copy, Debug, PartialEq, Eq, Structural)]
pub struct Engine {
    pub op: Operation,
    pub stage: Stage,
    /// The activity that the command acts on, as last fetched.
    pub subject: Option<ActivityStatus>,
}

/// The first activity in `s` with a running timer.
pub open spec fn first_running(s: Seq<ActivityStatus>) -> Option<ActivityStatus>
    decreases s.len(),
{
    if s.len() == 0 {
        None
    } else if s[0].timer_running {
        Some(s[0])
    } else {
        first_running(s.drop_first())
    }
}

/// The sum of the hours of the activities in `s`, in micro-hours.
pub open spec fn logged_total(s: Seq<ActivityStatus>) -> int
    decreases s.len(),
{
    if s.len() == 0 {
        0
    } else {
        logged_total(s.drop_last()) + s.last().hours.micros
    }
}

pub open spec fn fits_i64(x: int) -> bool {
    i64::MIN <= x <= i64::MAX
}

/// Whether a created activity with these hours starts a timer.
pub open spec fn starts_timer(hours: Option<Hours>) -> bool {
    match hours {
        None => true,
        Some(h) => h.micros == 0,
    }
}

pub open spec fn goto(e: Engine, stage: Stage, a: Action) -> (Engine, Action) {
    (Engine { stage, ..e }, a)
}

pub open spec fn finish(e: Engine, outcome: Outcome) -> (Engine, Action) {
    goto(e, Stage::Finished, Action::Finish { outcome })
}

pub open spec fn fail(e: Engine, failure: Failure) -> (Engine, Action) {
    finish(e, Outcome::Failed { failure })
}

/// Every mutation ends by recomputing the snapshot from the current week.
pub open spec fn recompute(e: Engine) -> (Engine, Action) {
    goto(e, Stage::AwaitPeriod, Action::ListActivities { range: DateRange::Week })
}

/// The engine for `op` and the first action it asks for.
pub open spec fn begin(op: Operation) -> (Engine, Action) {
    let e = Engine { op, stage: Stage::AwaitMutation, subject: None };
    match op {
        Operation::Create { .. } => (e, Action::SendCreate),
        Operation::Edit { .. } => (e, Action::SendEdit),
        Operation::Delete { activity_id } => (e, Action::SendDelete { activity_id }),
        Operation::StartTimer { activity_id } => (
            e,
            Action::ControlTimer { activity_id, control: TimerControl::Start },
        ),
        Operation::StopTimer => goto(e, Stage::AwaitMarkerRemoval, Action::RemoveTimerMarker),
        Operation::Report => recompute(e),
    }
}

/// The transition table: the engine after `ev`, and the action it asks for.
pub open spec fn next(e: Engine, ev: Event) -> (Engine, Action) {
    if e.stage is Finished {
        (e, Action::Finish { outcome: Outcome::Failed { failure: Failure::UnexpectedEvent } })
    } else if ev is Failed {
        fail(e, Failure::Remote)
    } else {
        match (e.stage, ev) {
            (Stage::AwaitMutation, Event::Done) => match e.op {
                Operation::Create { hours } => if starts_timer(hours) {
                    goto(e, Stage::AwaitClock, Action::ReadClock)
                } else {
                    recompute(e)
                },
                Operation::Edit { activity_id } => goto(
                    e,
                    Stage::AwaitActivity,
                    Action::FetchActivity { activity_id },
                ),
                Operation::Delete { .. } => recompute(e),
                Operation::StartTimer { activity_id } => goto(
                    e,
                    Stage::AwaitActivity,
                    Action::FetchActivity { activity_id },
                ),
                Operation::StopTimer => match e.subject {
                    Some(a) => goto(
                        e,
                        Stage::AwaitActivity,
                        Action::FetchActivity { activity_id: a.id },
                    ),
                    None => fail(e, Failure::UnexpectedEvent),
                },
                Operation::Report => fail(e, Failure::UnexpectedEvent),
            },
            (Stage::AwaitActivity, Event::Fetched { activity }) => {
                let e2 = Engine { subject: Some(activity), ..e };
                match e.op {
                    Operation::StartTimer { .. } => goto(e2, Stage::AwaitClock, Action::ReadClock),
                    Operation::Edit { .. } => recompute(e2),
                    Operation::StopTimer => recompute(e2),
                    _ => fail(e, Failure::UnexpectedEvent),
                }
            },
            (Stage::AwaitClock, Event::Clock { now }) => match e.op {
                Operation::Create { .. } => goto(
                    e,
                    Stage::AwaitMarkerWrite,
                    Action::WriteTimerMarker { now, start: now },
                ),
                Operation::StartTimer { .. } => match e.subject {
                    Some(a) => if fits_i64(adjusted_start_of(now as int, a.hours)) {
                        goto(
                            e,
                            Stage::AwaitMarkerWrite,
                            Action::WriteTimerMarker {
                                now,
                                start: adjusted_start_of(now as int, a.hours) as i64,
                            },
                        )
                    } else {
                        fail(e, Failure::TimeOutOfRange)
                    },
                    None => fail(e, Failure::UnexpectedEvent),
                },
                _ => fail(e, Failure::UnexpectedEvent),
            },
            (Stage::AwaitMarkerWrite, Event::Done) => match e.op {
                Operation::Create { .. } => recompute(e),
                Operation::StartTimer { .. } => match e.subject {
                    Some(a) => finish(e, Outcome::TimerStarted { started: a }),
                    None => fail(e, Failure::UnexpectedEvent),
                },
                _ => fail(e, Failure::UnexpectedEvent),
            },
            (Stage::AwaitMarkerRemoval, Event::Done) => goto(
                e,
                Stage::AwaitRunning,
                Action::ListActivities { range: DateRange::Today },
            ),
            (Stage::AwaitMarkerRemoval, Event::MarkerAbsent) => goto(
                e,
                Stage::AwaitRunning,
                Action::ListActivities { range: DateRange::Today },
            ),
            (Stage::AwaitRunning, Event::Listed { activities }) => match first_running(
                activities@,
            ) {
                Some(a) => goto(
                    Engine { subject: Some(a), ..e },
                    Stage::AwaitMutation,
                    Action::ControlTimer { activity_id: a.id, control: TimerControl::Stop },
                ),
                None => finish(e, Outcome::AlreadyStopped),
            },
            (Stage::AwaitPeriod, Event::Listed { activities }) => {
                let today = HoursSum { micros: logged_total(activities@) as i128 };
                goto(e, Stage::AwaitReport { today }, Action::FetchReport)
            },
            (Stage::AwaitReport { today }, Event::Reported { variation }) => goto(
                e,
                Stage::AwaitSnapshotWrite { variation, today },
                Action::WriteSnapshot { variation, today },
            ),
            (Stage::AwaitSnapshotWrite { variation, today }, Event::Done) => finish(
                e,
                Outcome::Completed { activity: e.subject, variation, today },
            ),
            _ => fail(e, Failure::UnexpectedEvent),
        }
    }
}

/// The actions that the engine asks for while it is handed `evs` in turn.
pub open spec fn run(e: Engine, evs: Seq<Event>) -> Seq<Action>
    decreases evs.len(),
{
    if evs.len() == 0 {
        Seq::empty()
    } else {
        let (e2, a) = next(e, evs[0]);
        seq![a] + run(e2, evs.drop_first())
    }
}

/// The actions of a whole command: the first one, then one for each event.
pub open spec fn trace(op: Operation, evs: Seq<Event>) -> Seq<Action> {
    seq![begin(op).1] + run(begin(op).0, evs)
}

/// The first activity of `v` with a running timer.
pub fn find_running(v: &Vec<ActivityStatus>) -> (r: Option<ActivityStatus>)
    ensures
        r == first_running(v@),
{
    let mut i: usize = 0;
    proof {
        assert(v@.subrange(0, v@.len() as int) =~= v@);
    }
    while i < v.len()
        invariant
            i <= v.len(),
            first_running(v@) == first_running(v@.subrange(i as int, v@.len() as int)),
        decreases v.len() - i,
    {
        let ghost rest = v@.subrange(i as int, v@.len() as int);
        proof {
            assert(rest.drop_first() =~= v@.subrange(i as int + 1, v@.len() as int));
        }
        if v[i].timer_running {
            return Some(v[i]);
        }
        i = i + 1;
    }
    proof {
        assert(v@.subrange(i as int, v@.len() as int) =~= Seq::<ActivityStatus>::empty());
    }
    None
}

/// The hours logged in `v`. The sum is exact, whatever the order of `v`.
pub fn period_hours(v: &Vec<ActivityStatus>) -> (r: HoursSum)
    ensures
        r.micros == logged_total(v@),
{
    let mut acc: i128 = 0;
    let mut i: usize = 0;
    while i < v.len()
        invariant
            i <= v.len(),
            acc == logged_total(v@.take(i as int)),
            -(i as int) * 0x8000_0000_0000_0000 <= acc <= (i as int) * 0x8000_0000_0000_0000,
        decreases v.len() - i,
    {
        proof {
            assert(v@.take(i as int + 1).drop_last() =~= v@.take(i as int));
        }
        acc = acc + v[i].hours.micros as i128;
        i = i + 1;
    }
    proof {
        assert(v@.take(i as int) =~= v@);
    }
    HoursSum { micros: acc }
}

impl Engine {
    /// The engine for `op`, and the first action that it asks for.
    pub fn new(op: Operation) -> (r: (Engine, Action))
        ensures
            r == begin(op),
    {
        let e = Engine { op, stage: Stage::AwaitMutation, subject: None };
        match op {
            Operation::Create { .. } => (e, Action::SendCreate),
            Operation::Edit { .. } => (e, Action::SendEdit),
            Operation::Delete { activity_id } => (e, Action::SendDelete { activity_id }),
            Operation::StartTimer { activity_id } => (
                e,
                Action::ControlTimer { activity_id, control: TimerControl::Start },
            ),
            Operation::StopTimer => (
                Engine { stage: Stage::AwaitMarkerRemoval, ..e },
                Action::RemoveTimerMarker,
            ),
            Operation::Report => (
                Engine { stage: Stage::AwaitPeriod, ..e },
                Action::ListActivities { range: DateRange::Week },
            ),
        }
    }

    fn move_to(&mut self, stage: Stage, a: Action) -> (r: Action)
        ensures
            (*final(self), r) == goto(*old(self), stage, a),
    {
        self.stage = stage;
        a
    }

    fn fail_with(&mut self, failure: Failure) -> (r: Action)
        ensures
            (*final(self), r) == fail(*old(self), failure),
    {
        self.move_to(Stage::Finished, Action::Finish { outcome: Outcome::Failed { failure } })
    }

    fn start_recompute(&mut self) -> (r: Action)
        ensures
            (*final(self), r) == recompute(*old(self)),
    {
        self.move_to(Stage::AwaitPeriod, Action::ListActivities { range: DateRange::Week })
    }

    /// Hands the engine the result of its last action; returns the next one.
    pub fn step(&mut self, ev: Event) -> (r: Action)
        ensures
            (*final(self), r) == next(*old(self), ev),
    {
        if let Stage::Finished = self.stage {
            return Action::Finish { outcome: Outcome::Failed { failure: Failure::UnexpectedEvent } };
        }
        if let Event::Failed = ev {
            return self.fail_with(Failure::Remote);
        }
        match (self.stage, ev) {
            (Stage::AwaitMutation, Event::Done) => match self.op {
                Operation::Create { hours } => {
                    let starts = match hours {
                        None => true,
                        Some(h) => h.micros == 0,
                    };
                    if starts {
                        self.move_to(Stage::AwaitClock, Action::ReadClock)
                    } else {
                        self.start_recompute()
                    }
                },
                Operation::Edit { activity_id } => self.move_to(
                    Stage::AwaitActivity,
                    Action::FetchActivity { activity_id },
                ),
                Operation::Delete { .. } => self.start_recompute(),
                Operation::StartTimer { activity_id } => self.move_to(
                    Stage::AwaitActivity,
                    Action::FetchActivity { activity_id },
                ),
                Operation::StopTimer => match self.subject {
                    Some(a) => self.move_to(
                        Stage::AwaitActivity,
                        Action::FetchActivity { activity_id: a.id },
                    ),
                    None => self.fail_with(Failure::UnexpectedEvent),
                },
                Operation::Report => self.fail_with(Failure::UnexpectedEvent),
            },
            (Stage::AwaitActivity, Event::Fetched { activity }) => match self.op {
                Operation::StartTimer { .. } => {
                    self.subject = Some(activity);
                    self.move_to(Stage::AwaitClock, Action::ReadClock)
                },
                Operation::Edit { .. } | Operation::StopTimer => {
                    self.subject = Some(activity);
                    self.start_recompute()
                },
                _ => self.fail_with(Failure::UnexpectedEvent),
            },
            (Stage::AwaitClock, Event::Clock { now }) => match self.op {
                Operation::Create { .. } => self.move_to(
                    Stage::AwaitMarkerWrite,
                    Action::WriteTimerMarker { now, start: now },
                ),
                Operation::StartTimer { .. } => match self.subject {
                    Some(a) => match adjusted_start(now, a.hours) {
                        Some(start) => self.move_to(
                            Stage::AwaitMarkerWrite,
                            Action::WriteTimerMarker { now, start },
                        ),
                        None => self.fail_with(Failure::TimeOutOfRange),
                    },
                    None => self.fail_with(Failure::UnexpectedEvent),
                },
                _ => self.fail_with(Failure::UnexpectedEvent),
            },
            (Stage::AwaitMarkerWrite, Event::Done) => match self.op {
                Operation::Create { .. } => self.start_recompute(),
                Operation::StartTimer { .. } => match self.subject {
                    Some(a) => self.move_to(
                        Stage::Finished,
                        Action::Finish { outcome: Outcome::TimerStarted { started: a } },
                    ),
                    None => self.fail_with(Failure::UnexpectedEvent),
                },
                _ => self.fail_with(Failure::UnexpectedEvent),
            },
            (Stage::AwaitMarkerRemoval, Event::Done)
            | (Stage::AwaitMarkerRemoval, Event::MarkerAbsent) => self.move_to(
                Stage::AwaitRunning,
                Action::ListActivities { range: DateRange::Today },
            ),
            (Stage::AwaitRunning, Event::Listed { activities }) => match find_running(
                &activities,
            ) {
                Some(a) => {
                    self.subject = Some(a);
                    self.move_to(
                        Stage::AwaitMutation,
                        Action::ControlTimer { activity_id: a.id, control: TimerControl::Stop },
                    )
                },
                None => self.move_to(
                    Stage::Finished,
                    Action::Finish { outcome: Outcome::AlreadyStopped },
                ),
            },
            (Stage::AwaitPeriod, Event::Listed { activities }) => {
                let today = period_hours(&activities);
                self.move_to(Stage::AwaitReport { today }, Action::FetchReport)
            },
            (Stage::AwaitReport { today }, Event::Reported { variation }) => self.move_to(
                Stage::AwaitSnapshotWrite { variation, today },
                Action::WriteSnapshot { variation, today },
            ),
            (Stage::AwaitSnapshotWrite { variation, today }, Event::Done) => {
                let activity = self.subject;
                self.move_to(
                    Stage::Finished,
                    Action::Finish { outcome: Outcome::Completed { activity, variation, today } },
                )
            },
            _ => self.fail_with(Failure::UnexpectedEvent),
        }
    }
}

} // verus!
