//! What holds of whole runs: of every sequence of events, whatever the
//! database, the file system and the clock do.

use vstd::prelude::*;
use crate::args::COMMAND_LINE_WORDS;
use crate::clock::Moment;
use crate::logline::file_name_text;
use crate::monitor::{
    first_actions,
    next,
    started,
    ActionView,
    EventView,
    MonitorView,
    Phase,
    PAUSE_SECONDS,
};
use crate::decimal::decimal;
use crate::query::{count_of, count_query_text, first_value, keyspace_text, Rows, Value};
use crate::report::{
    failure_text,
    fatal_text,
    law_failure_line,
    law_success_line,
    log_file_notice_text,
    log_refused_text,
    starting_text,
    success_text,
};

verus! {

/// The state after a sequence of events, and all the actions that answered
/// them, in order.
pub open spec fn run(m: MonitorView, events: Seq<EventView>) -> (MonitorView, Seq<ActionView>)
    decreases events.len(),
{
    if events.len() == 0 {
        (m, Seq::empty())
    } else {
        let (after_first, first) = next(m, events[0]);
        let (after_all, rest) = run(after_first, events.drop_first());
        (after_all, first + rest)
    }
}

/// `block` written `times` times over.
pub open spec fn repeated<A>(block: Seq<A>, times: nat) -> Seq<A>
    decreases times,
{
    if times == 0 {
        Seq::empty()
    } else {
        block + repeated(block, (times - 1) as nat)
    }
}

/// The events of one poll that was answered with `rows`.
pub open spec fn answered_round(rows: Rows) -> Seq<EventView> {
    seq![EventView::QueryAnswered(rows), EventView::PauseOver]
}

/// What the monitor does in one poll that was answered with `rows`: it logs
/// the count, pauses, and asks again.
pub open spec fn answered_round_actions(rows: Rows) -> Seq<ActionView> {
    seq![
        ActionView::Log(success_text(count_of(rows))),
        ActionView::Pause(PAUSE_SECONDS),
        ActionView::Query(count_query_text()),
    ]
}

/// The events of one poll that failed with `description`.
pub open spec fn failed_round(description: Seq<char>) -> Seq<EventView> {
    seq![EventView::QueryFailed(description), EventView::PauseOver]
}

/// What the monitor does in one poll that failed with `description`: it
/// logs the error, pauses, and asks again.
pub open spec fn failed_round_actions(description: Seq<char>) -> Seq<ActionView> {
    seq![
        ActionView::Log(failure_text(description)),
        ActionView::Pause(PAUSE_SECONDS),
        ActionView::Query(count_query_text()),
    ]
}

/// A run of events followed by more events is the two runs one after the
/// other.
pub proof fn lemma_run_append(m: MonitorView, head: Seq<EventView>, tail: Seq<EventView>)
    ensures
        run(m, head + tail).0 == run(run(m, head).0, tail).0,
        run(m, head + tail).1 == run(m, head).1 + run(run(m, head).0, tail).1,
    decreases head.len(),
{
    if head.len() == 0 {
        assert(head + tail =~= tail);
        assert(run(m, head).1 + run(m, tail).1 =~= run(m, tail).1);
    } else {
        let (after_first, first) = next(m, head[0]);
        assert((head + tail)[0] == head[0]);
        assert((head + tail).drop_first() =~= head.drop_first() + tail);
        lemma_run_append(after_first, head.drop_first(), tail);
        let rest_head = run(after_first, head.drop_first());
        assert(first + (rest_head.1 + run(rest_head.0, tail).1) =~= (first + rest_head.1) + run(
            rest_head.0,
            tail,
        ).1);
    }
}

/// Once the monitor polls, it polls after every event.
pub proof fn law_polling_goes_on(m: MonitorView, event: EventView)
    requires
        m.phase.polling(),
    ensures
        next(m, event).0.phase.polling(),
        forall|i: int|
            0 <= i < next(m, event).1.len() ==> !(#[trigger] next(m, event).1[i] is Abort),
{
}

/// Once the monitor polls, no sequence of events ends the polling, and none
/// makes the monitor abort.
pub proof fn law_polling_never_ends(m: MonitorView, events: Seq<EventView>)
    requires
        m.phase.polling(),
    ensures
        run(m, events).0.phase.polling(),
        forall|i: int|
            0 <= i < run(m, events).1.len() ==> !(#[trigger] run(m, events).1[i] is Abort),
    decreases events.len(),
{
    if events.len() > 0 {
        let (after_first, first) = next(m, events[0]);
        law_polling_goes_on(m, events[0]);
        law_polling_never_ends(after_first, events.drop_first());
        let rest = run(after_first, events.drop_first()).1;
        assert forall|i: int| 0 <= i < run(m, events).1.len() implies !(#[trigger] run(
            m,
            events,
        ).1[i] is Abort) by {
            if i < first.len() {
                assert(run(m, events).1[i] == first[i]);
            } else {
                assert(run(m, events).1[i] == rest[i - first.len()]);
            }
        }
    }
}

/// No event makes the monitor open a log file: only the start does.
pub proof fn lemma_step_opens_no_log(m: MonitorView, event: EventView)
    ensures
        forall|i: int|
            0 <= i < next(m, event).1.len() ==> !(#[trigger] next(m, event).1[i] is OpenLog),
{
}

/// No sequence of events makes the monitor open a log file.
pub proof fn lemma_run_opens_no_log(m: MonitorView, events: Seq<EventView>)
    ensures
        forall|i: int|
            0 <= i < run(m, events).1.len() ==> !(#[trigger] run(m, events).1[i] is OpenLog),
    decreases events.len(),
{
    if events.len() > 0 {
        let (after_first, first) = next(m, events[0]);
        lemma_step_opens_no_log(m, events[0]);
        lemma_run_opens_no_log(after_first, events.drop_first());
        let rest = run(after_first, events.drop_first()).1;
        assert forall|i: int| 0 <= i < run(m, events).1.len() implies !(#[trigger] run(
            m,
            events,
        ).1[i] is OpenLog) by {
            if i < first.len() {
                assert(run(m, events).1[i] == first[i]);
            } else {
                assert(run(m, events).1[i] == rest[i - first.len()]);
            }
        }
    }
}

/// Everything that a run with an accepted command line does, from its
/// start at `started_at` through `events`.
pub open spec fn whole_run(
    args: Seq<Seq<char>>,
    started_at: Moment,
    events: Seq<EventView>,
) -> Seq<ActionView> {
    first_actions(started_at) + run(started(args, started_at), events).1
}

/// A run opens its log file exactly once: as its very first action, before
/// anything is logged, and under the name that the start time gives.
pub proof fn law_log_opened_once(
    args: Seq<Seq<char>>,
    started_at: Moment,
    events: Seq<EventView>,
)
    requires
        args.len() == COMMAND_LINE_WORDS,
    ensures
        whole_run(args, started_at, events).len() >= 1,
        whole_run(args, started_at, events)[0] == ActionView::OpenLog(
            file_name_text(started_at),
        ),
        forall|i: int|
            1 <= i < whole_run(args, started_at, events).len() ==> !(#[trigger] whole_run(
                args,
                started_at,
                events,
            )[i] is OpenLog),
{
    let m = started(args, started_at);
    lemma_run_opens_no_log(m, events);
    let later = run(m, events).1;
    assert forall|i: int| 1 <= i < whole_run(args, started_at, events).len() implies !(
    #[trigger] whole_run(args, started_at, events)[i] is OpenLog) by {
        assert(whole_run(args, started_at, events)[i] == later[i - 1]);
    }
}

/// After a failed start the monitor does nothing more, whatever comes.
pub proof fn law_failed_is_final(m: MonitorView, events: Seq<EventView>)
    requires
        m.phase == Phase::Failed,
    ensures
        run(m, events).0 == m,
        run(m, events).1 == Seq::<ActionView>::empty(),
    decreases events.len(),
{
    if events.len() > 0 {
        law_failed_is_final(m, events.drop_first());
        assert(run(m, events).1 =~= Seq::<ActionView>::empty());
    }
}

/// A failed start is final: when an event makes the start fail, the answer
/// to that event is all that the monitor ever does from there, whatever
/// comes after. Nothing is tried again.
pub proof fn law_failed_start_is_final(
    m: MonitorView,
    event: EventView,
    later: Seq<EventView>,
)
    requires
        next(m, event).0.phase == Phase::Failed,
    ensures
        run(m, seq![event] + later) == next(m, event),
{
    let (failed, answer) = next(m, event);
    let events = seq![event] + later;
    assert(events[0] == event);
    assert(events.drop_first() =~= later);
    law_failed_is_final(failed, later);
    assert(run(m, events).1 =~= answer);
}

/// Where the log file cannot be opened, the run ends there: all it ever
/// does is open the file and abort. Nothing is logged and no connection is
/// asked for, whatever comes after.
pub proof fn law_no_log_no_run(
    args: Seq<Seq<char>>,
    started_at: Moment,
    reason: Seq<char>,
    later: Seq<EventView>,
)
    requires
        args.len() == COMMAND_LINE_WORDS,
    ensures
        whole_run(args, started_at, seq![EventView::LogRefused(reason)] + later) == seq![
            ActionView::OpenLog(file_name_text(started_at)),
            ActionView::Abort(fatal_text(log_refused_text(), reason)),
        ],
{
    law_failed_start_is_final(started(args, started_at), EventView::LogRefused(reason), later);
    assert(whole_run(args, started_at, seq![EventView::LogRefused(reason)] + later) =~= seq![
        ActionView::OpenLog(file_name_text(started_at)),
        ActionView::Abort(fatal_text(log_refused_text(), reason)),
    ]);
}

/// The events with which a start goes well.
pub open spec fn good_start() -> Seq<EventView> {
    seq![EventView::LogOpened, EventView::Connected, EventView::KeyspaceSelected]
}

/// A start that goes well brings the monitor to its first query: the log
/// file is opened, the two opening messages are logged, the session is made
/// with the given credentials, the keyspace is selected and the count is
/// asked for.
pub proof fn law_good_start(args: Seq<Seq<char>>, started_at: Moment)
    requires
        args.len() == COMMAND_LINE_WORDS,
    ensures
        run(started(args, started_at), good_start()).0 == started(args, started_at).at(
            Phase::Querying,
        ),
        whole_run(args, started_at, good_start()) == seq![
            ActionView::OpenLog(file_name_text(started_at)),
            ActionView::Log(starting_text()),
            ActionView::Log(log_file_notice_text(file_name_text(started_at))),
            ActionView::Connect { contact_point: args[1], username: args[2], password: args[3] },
            ActionView::UseKeyspace { name: keyspace_text(), case_sensitive: false },
            ActionView::Query(count_query_text()),
        ],
{
    let m = started(args, started_at);
    let events = good_start();
    let e1 = events.drop_first();
    let e2 = e1.drop_first();
    let e3 = e2.drop_first();
    assert(e3.len() == 0);
    let (m1, a1) = next(m, events[0]);
    let (m2, a2) = next(m1, e1[0]);
    let (m3, a3) = next(m2, e2[0]);
    assert(run(m3, e3) == (m3, Seq::<ActionView>::empty()));
    assert(run(m2, e2).1 =~= a3);
    assert(run(m1, e1).1 =~= a2 + a3);
    assert(run(m, events).1 =~= a1 + a2 + a3);
    assert(whole_run(args, started_at, events) =~= seq![
        ActionView::OpenLog(file_name_text(started_at)),
        ActionView::Log(starting_text()),
        ActionView::Log(log_file_notice_text(file_name_text(started_at))),
        ActionView::Connect { contact_point: args[1], username: args[2], password: args[3] },
        ActionView::UseKeyspace { name: keyspace_text(), case_sensitive: false },
        ActionView::Query(count_query_text()),
    ]);
}

/// One answered poll logs the count that the answer carries and leaves the
/// monitor as it was.
pub proof fn law_answered_round(m: MonitorView, rows: Rows)
    requires
        m.phase == Phase::Querying,
    ensures
        run(m, answered_round(rows)) == (m, answered_round_actions(rows)),
{
    let events = answered_round(rows);
    let e1 = events.drop_first();
    let e2 = e1.drop_first();
    assert(e2.len() == 0);
    let (m1, a1) = next(m, events[0]);
    let (m2, a2) = next(m1, e1[0]);
    assert(m2 == m);
    assert(run(m2, e2) == (m2, Seq::<ActionView>::empty()));
    assert(run(m1, e1).1 =~= a2);
    assert(run(m, events).1 =~= answered_round_actions(rows));
}

/// One failed poll logs the error and leaves the monitor as it was.
pub proof fn law_failed_round(m: MonitorView, description: Seq<char>)
    requires
        m.phase == Phase::Querying,
    ensures
        run(m, failed_round(description)) == (m, failed_round_actions(description)),
{
    let events = failed_round(description);
    let e1 = events.drop_first();
    let e2 = e1.drop_first();
    assert(e2.len() == 0);
    let (m1, a1) = next(m, events[0]);
    let (m2, a2) = next(m1, e1[0]);
    assert(m2 == m);
    assert(run(m2, e2) == (m2, Seq::<ActionView>::empty()));
    assert(run(m1, e1).1 =~= a2);
    assert(run(m, events).1 =~= failed_round_actions(description));
}

/// Polling a table that does not change is stable: as long as every poll is
/// answered with the same rows, every poll logs the same count, and the
/// monitor is left as it was.
pub proof fn law_repeated_polls(m: MonitorView, rows: Rows, times: nat)
    requires
        m.phase == Phase::Querying,
    ensures
        run(m, repeated(answered_round(rows), times)) == (
            m,
            repeated(answered_round_actions(rows), times),
        ),
    decreases times,
{
    if times > 0 {
        let fewer = (times - 1) as nat;
        law_answered_round(m, rows);
        law_repeated_polls(m, rows, fewer);
        lemma_run_append(m, answered_round(rows), repeated(answered_round(rows), fewer));
    }
}

/// A table of `n` rows that nobody writes to is reported as it is, poll
/// after poll: as long as the count comes back as `n`, every poll logs
/// `SUCCESS: Row count in comments: ` and `n` in decimal, pauses and asks
/// again, and the monitor is left as it was.
pub proof fn law_stable_table(m: MonitorView, rows: Rows, n: i64, times: nat)
    requires
        m.phase == Phase::Querying,
        first_value(rows) == Some(Value::BigInt(n)),
    ensures
        run(m, repeated(answered_round(rows), times)) == (
            m,
            repeated(
                seq![
                    ActionView::Log("SUCCESS: Row count in comments: "@ + decimal(n as int)),
                    ActionView::Pause(PAUSE_SECONDS),
                    ActionView::Query(count_query_text()),
                ],
                times,
            ),
        ),
{
    law_repeated_polls(m, rows, times);
    law_success_line(n as int);
}

/// An answer without a count is no error: where the first value is absent
/// (no rows, no columns, or a null) the poll logs the count `0` like any
/// other, and pauses.
pub proof fn law_absent_count_logs_zero(m: MonitorView, rows: Rows)
    requires
        m.phase == Phase::Querying,
        first_value(rows) is None,
    ensures
        next(m, EventView::QueryAnswered(rows)) == (
            m.at(Phase::Pausing),
            seq![
                ActionView::Log("SUCCESS: Row count in comments: 0"@),
                ActionView::Pause(PAUSE_SECONDS),
            ],
        ),
{
    law_success_line(0);
    reveal_strlit("SUCCESS: Row count in comments: ");
    reveal_strlit("SUCCESS: Row count in comments: 0");
    assert(decimal(0) =~= seq!['0']);
    assert("SUCCESS: Row count in comments: "@ + decimal(0)
        =~= "SUCCESS: Row count in comments: 0"@);
}

/// While the database cannot be reached the monitor goes on: every poll
/// logs its error, and the monitor is left as it was.
pub proof fn law_repeated_failures(m: MonitorView, description: Seq<char>, times: nat)
    requires
        m.phase == Phase::Querying,
    ensures
        run(m, repeated(failed_round(description), times)) == (
            m,
            repeated(failed_round_actions(description), times),
        ),
    decreases times,
{
    if times > 0 {
        let fewer = (times - 1) as nat;
        law_failed_round(m, description);
        law_repeated_failures(m, description, fewer);
        lemma_run_append(m, failed_round(description), repeated(failed_round(description), fewer));
    }
}

/// Whether `action` logs the message of an answered query.
pub open spec fn logs_success(action: ActionView) -> bool {
    exists|count: int| action == ActionView::Log(#[trigger] success_text(count))
}

/// A polling monitor that is never answered never logs a success.
pub proof fn law_no_success_without_answer(m: MonitorView, events: Seq<EventView>)
    requires
        m.phase.polling(),
        forall|i: int| 0 <= i < events.len() ==> !(#[trigger] events[i] is QueryAnswered),
    ensures
        forall|i: int|
            0 <= i < run(m, events).1.len() ==> !logs_success(#[trigger] run(m, events).1[i]),
    decreases events.len(),
{
    if events.len() > 0 {
        let (after_first, first) = next(m, events[0]);
        let later = events.drop_first();
        assert forall|i: int| 0 <= i < later.len() implies !(#[trigger] later[i]
            is QueryAnswered) by {
            assert(later[i] == events[i + 1]);
        }
        law_polling_goes_on(m, events[0]);
        law_no_success_without_answer(after_first, later);
        let rest = run(after_first, later).1;
        assert forall|i: int| 0 <= i < first.len() implies !logs_success(#[trigger] first[i]) by {
            if logs_success(first[i]) {
                let count = choose|count: int|
                    first[i] == ActionView::Log(#[trigger] success_text(count));
                if let EventView::QueryFailed(description) = events[0] {
                    law_failure_line(description, count);
                }
            }
        }
        assert forall|i: int| 0 <= i < run(m, events).1.len() implies !logs_success(
            #[trigger] run(m, events).1[i],
        ) by {
            if i < first.len() {
                assert(run(m, events).1[i] == first[i]);
            } else {
                assert(run(m, events).1[i] == rest[i - first.len()]);
            }
        }
    }
}

} // verus!
