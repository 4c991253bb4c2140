use vstd::prelude::*;

use crate::engine::{
    begin, first_running, fits_i64, logged_total, next, run, starts_timer, trace, Action,
    ActivityStatus, DateRange, Event, Operation, Outcome, TimerControl,
};
use crate::hours::{snapshot_text, Hours, HoursSum};
use crate::stamp::adjusted_start_of;

verus! {

proof fn lemma_run_step(e: crate::engine::Engine, evs: Seq<Event>)
    requires
        evs.len() > 0,
    ensures
        run(e, evs) == seq![next(e, evs[0]).1] + run(next(e, evs[0]).0, evs.drop_first()),
{
}

proof fn lemma_none_running(s: Seq<ActivityStatus>)
    requires
        forall|i: int| 0 <= i < s.len() ==> !s[i].timer_running,
    ensures
        first_running(s) is None,
    decreases s.len(),
{
    if s.len() > 0 {
        assert forall|i: int| 0 <= i < s.drop_first().len() implies !s.drop_first()[i].timer_running by {
            assert(s.drop_first()[i] == s[i + 1]);
        }
        lemma_none_running(s.drop_first());
    }
}

proof fn lemma_first_running_at(s: Seq<ActivityStatus>, k: int)
    requires
        0 <= k < s.len(),
        s[k].timer_running,
        forall|i: int| 0 <= i < k ==> !s[i].timer_running,
    ensures
        first_running(s) == Some(s[k]),
    decreases k,
{
    if k > 0 {
        let t = s.drop_first();
        assert forall|i: int| 0 <= i < k - 1 implies !t[i].timer_running by {
            assert(t[i] == s[i + 1]);
        }
        assert(t[k - 1] == s[k]);
        lemma_first_running_at(t, k - 1);
    }
}

/// A created activity without hours, or with zero hours, starts a timer
/// without a remote timer call: once the remote create succeeds, the engine
/// reads the clock and writes a marker whose adjusted start is that same
/// instant, and then recomputes the snapshot.
pub proof fn created_timer_starts_now(hours: Option<Hours>, now: i64)
    requires
        starts_timer(hours),
    ensures
        trace(Operation::Create { hours }, seq![Event::Done, Event::Clock { now }, Event::Done])
            == seq![
            Action::SendCreate,
            Action::ReadClock,
            Action::WriteTimerMarker { now, start: now },
            Action::ListActivities { range: DateRange::Week },
        ],
{
    let op = Operation::Create { hours };
    let evs = seq![Event::Done, Event::Clock { now }, Event::Done];
    let e0 = begin(op).0;
    lemma_run_step(e0, evs);
    let e1 = next(e0, evs[0]).0;
    lemma_run_step(e1, evs.drop_first());
    let e2 = next(e1, evs[1]).0;
    lemma_run_step(e2, evs.drop_first().drop_first());
    assert(evs.drop_first().drop_first().drop_first().len() == 0);
    assert(trace(op, evs) =~= seq![
        Action::SendCreate,
        Action::ReadClock,
        Action::WriteTimerMarker { now, start: now },
        Action::ListActivities { range: DateRange::Week },
    ]);
}

/// A created activity with hours other than zero writes no timer marker: once
/// the remote create succeeds, the engine goes straight to the snapshot.
pub proof fn created_with_hours_writes_no_marker(h: Hours)
    requires
        h.micros != 0,
    ensures
        trace(Operation::Create { hours: Some(h) }, seq![Event::Done]) == seq![
            Action::SendCreate,
            Action::ListActivities { range: DateRange::Week },
        ],
{
    let op = Operation::Create { hours: Some(h) };
    let evs = seq![Event::Done];
    lemma_run_step(begin(op).0, evs);
    assert(evs.drop_first().len() == 0);
    assert(trace(op, evs) =~= seq![
        Action::SendCreate,
        Action::ListActivities { range: DateRange::Week },
    ]);
}

/// Starting the timer of an activity that has `h` hours logged writes a marker
/// whose adjusted start lies `h` hours, to the second, before its time of
/// writing; the hours are those that the remote service reports after the start.
pub proof fn started_timer_counts_logged_time(activity_id: i64, fetched: ActivityStatus, now: i64)
    requires
        fits_i64(adjusted_start_of(now as int, fetched.hours)),
    ensures
        trace(
            Operation::StartTimer { activity_id },
            seq![Event::Done, Event::Fetched { activity: fetched }, Event::Clock { now }, Event::Done],
        ) == seq![
            Action::ControlTimer { activity_id, control: TimerControl::Start },
            Action::FetchActivity { activity_id },
            Action::ReadClock,
            Action::WriteTimerMarker {
                now,
                start: adjusted_start_of(now as int, fetched.hours) as i64,
            },
            Action::Finish { outcome: Outcome::TimerStarted { started: fetched } },
        ],
{
    let op = Operation::StartTimer { activity_id };
    let evs = seq![Event::Done, Event::Fetched { activity: fetched }, Event::Clock { now }, Event::Done];
    let e0 = begin(op).0;
    lemma_run_step(e0, evs);
    let e1 = next(e0, evs[0]).0;
    lemma_run_step(e1, evs.drop_first());
    let e2 = next(e1, evs[1]).0;
    lemma_run_step(e2, evs.drop_first().drop_first());
    let e3 = next(e2, evs[2]).0;
    lemma_run_step(e3, evs.drop_first().drop_first().drop_first());
    assert(evs.drop_first().drop_first().drop_first().drop_first().len() == 0);
    assert(trace(op, evs) =~= seq![
        Action::ControlTimer { activity_id, control: TimerControl::Start },
        Action::FetchActivity { activity_id },
        Action::ReadClock,
        Action::WriteTimerMarker { now, start: adjusted_start_of(now as int, fetched.hours) as i64 },
        Action::Finish { outcome: Outcome::TimerStarted { started: fetched } },
    ]);
}

/// Stopping when no activity of today has a running timer: the marker is
/// removed (or was already absent), no remote stop is sent, and the command
/// reports that the timer was already stopped.
pub proof fn stop_without_running_timer(removed: Event, today: Vec<ActivityStatus>)
    requires
        removed is Done || removed is MarkerAbsent,
        forall|i: int| 0 <= i < today@.len() ==> !today@[i].timer_running,
    ensures
        trace(Operation::StopTimer, seq![removed, Event::Listed { activities: today }]) == seq![
            Action::RemoveTimerMarker,
            Action::ListActivities { range: DateRange::Today },
            Action::Finish { outcome: Outcome::AlreadyStopped },
        ],
{
    lemma_none_running(today@);
    let op = Operation::StopTimer;
    let evs = seq![removed, Event::Listed { activities: today }];
    let e0 = begin(op).0;
    lemma_run_step(e0, evs);
    let e1 = next(e0, evs[0]).0;
    lemma_run_step(e1, evs.drop_first());
    assert(evs.drop_first().drop_first().len() == 0);
    assert(trace(op, evs) =~= seq![
        Action::RemoveTimerMarker,
        Action::ListActivities { range: DateRange::Today },
        Action::Finish { outcome: Outcome::AlreadyStopped },
    ]);
}

/// Stopping when exactly one activity of today, at `k`, has a running timer:
/// after the marker is removed, the remote stop goes to that activity's id,
/// the activity is fetched again, and the snapshot is recomputed from the
/// current week and the report.
pub proof fn stop_with_running_timer(
    today: Vec<ActivityStatus>,
    k: int,
    fetched: ActivityStatus,
    week: Vec<ActivityStatus>,
    variation: Hours,
)
    requires
        0 <= k < today@.len(),
        today@[k].timer_running,
        forall|i: int| 0 <= i < today@.len() && i != k ==> !today@[i].timer_running,
    ensures
        trace(
            Operation::StopTimer,
            seq![
                Event::Done,
                Event::Listed { activities: today },
                Event::Done,
                Event::Fetched { activity: fetched },
                Event::Listed { activities: week },
                Event::Reported { variation },
            ],
        ) == seq![
            Action::RemoveTimerMarker,
            Action::ListActivities { range: DateRange::Today },
            Action::ControlTimer { activity_id: today@[k].id, control: TimerControl::Stop },
            Action::FetchActivity { activity_id: today@[k].id },
            Action::ListActivities { range: DateRange::Week },
            Action::FetchReport,
            Action::WriteSnapshot {
                variation,
                today: HoursSum { micros: logged_total(week@) as i128 },
            },
        ],
{
    lemma_first_running_at(today@, k);
    let op = Operation::StopTimer;
    let evs = seq![
        Event::Done,
        Event::Listed { activities: today },
        Event::Done,
        Event::Fetched { activity: fetched },
        Event::Listed { activities: week },
        Event::Reported { variation },
    ];
    let e0 = begin(op).0;
    lemma_run_step(e0, evs);
    let r1 = evs.drop_first();
    let e1 = next(e0, evs[0]).0;
    lemma_run_step(e1, r1);
    let r2 = r1.drop_first();
    let e2 = next(e1, r1[0]).0;
    lemma_run_step(e2, r2);
    let r3 = r2.drop_first();
    let e3 = next(e2, r2[0]).0;
    lemma_run_step(e3, r3);
    let r4 = r3.drop_first();
    let e4 = next(e3, r3[0]).0;
    lemma_run_step(e4, r4);
    let r5 = r4.drop_first();
    let e5 = next(e4, r4[0]).0;
    lemma_run_step(e5, r5);
    assert(r5.drop_first().len() == 0);
    assert(trace(op, evs) =~= seq![
        Action::RemoveTimerMarker,
        Action::ListActivities { range: DateRange::Today },
        Action::ControlTimer { activity_id: today@[k].id, control: TimerControl::Stop },
        Action::FetchActivity { activity_id: today@[k].id },
        Action::ListActivities { range: DateRange::Week },
        Action::FetchReport,
        Action::WriteSnapshot { variation, today: HoursSum { micros: logged_total(week@) as i128 } },
    ]);
}

/// Recomputing the snapshot depends on the remote state alone: two runs handed
/// the same activities of the week and the same report ask for the same
/// snapshot, whose text is therefore the same bytes.
pub proof fn snapshot_is_stable(first: Vec<ActivityStatus>, second: Vec<ActivityStatus>, variation: Hours)
    requires
        first@ == second@,
    ensures
        trace(
            Operation::Report,
            seq![Event::Listed { activities: first }, Event::Reported { variation }],
        ) == trace(
            Operation::Report,
            seq![Event::Listed { activities: second }, Event::Reported { variation }],
        ),
        trace(
            Operation::Report,
            seq![Event::Listed { activities: first }, Event::Reported { variation }],
        )[2] == (Action::WriteSnapshot {
            variation,
            today: HoursSum { micros: logged_total(first@) as i128 },
        }),
        snapshot_text(variation.micros as int, logged_total(first@)) == snapshot_text(
            variation.micros as int,
            logged_total(second@),
        ),
{
    let op = Operation::Report;
    let a = seq![Event::Listed { activities: first }, Event::Reported { variation }];
    let b = seq![Event::Listed { activities: second }, Event::Reported { variation }];
    let e0 = begin(op).0;
    lemma_run_step(e0, a);
    lemma_run_step(e0, b);
    let e1 = next(e0, a[0]).0;
    assert(next(e0, b[0]).0 == e1);
    lemma_run_step(e1, a.drop_first());
    lemma_run_step(e1, b.drop_first());
    assert(a.drop_first().drop_first().len() == 0);
    assert(b.drop_first().drop_first().len() == 0);
    let expected = seq![
        Action::ListActivities { range: DateRange::Week },
        Action::FetchReport,
        Action::WriteSnapshot { variation, today: HoursSum { micros: logged_total(first@) as i128 } },
    ];
    assert(trace(op, a) =~= expected);
    assert(trace(op, b) =~= expected);
}

} // verus!
