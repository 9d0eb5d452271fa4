//! What holds of every run of the worker.
//!
//! A run is the sequence of answers that the worker gave to its engine,
//! from the engine's first command on. [`Engine::step`](crate::engine::Engine::step)
//! takes the engine from one state of the run to the next, so what is proved
//! here of [`run_of`] holds of the engine that a worker drives. Nothing is
//! assumed of the answers: the laws hold whatever the command, the channels
//! and the clock do.

use crate::engine::{
    is_banner, line_failure, next, reported_event, reports, Action, CommandView, EngineView,
    ResponseView, POLL_BOUND, READ_BOUND,
};
use crate::event::{law_sentinel_is_absent, EventView};
use crate::lines::{
    after_line, first_line, has_line, lemma_first_line_of_joined, lemma_line_splits, unbroken,
    LINE_END,
};
use crate::time::Timestamp;
use vstd::prelude::*;
use vstd::utf8::decode_utf8;

verus! {

/// One answer of the worker, and the clock's reading when it was given.
pub struct Answer {
    pub response: ResponseView,
    pub now: Timestamp,
}

/// What a run has come to.
pub struct Run {
    /// The engine after the last answer.
    pub engine: EngineView,
    /// All the output that was read.
    pub received: Seq<u8>,
    /// The lines that were taken out of the output, in order, each without
    /// its end.
    pub taken: Seq<Seq<u8>>,
    /// The clock's reading when each of these lines was taken.
    pub clocks: Seq<Timestamp>,
    /// The events that the receiver took, in order.
    pub delivered: Seq<EventView>,
    /// How often the receiver took the `None` that closes the stream.
    pub closes: nat,
    /// The command's end was seen to: it was found to have exited, or its
    /// termination was tried.
    pub reaped: bool,
    /// The longest that the worker can have waited in all, in milliseconds.
    pub waited: nat,
}

/// The output from which the engine takes a line on `response`, if it takes
/// one: what was pending, after a read together with what the read brought.
pub open spec fn source_of_line(engine: EngineView, response: ResponseView) -> Option<Seq<u8>> {
    match (engine.command, response) {
        (CommandView::Read, ResponseView::Bytes(chunk)) => if has_line(engine.pending + chunk) {
            Some(engine.pending + chunk)
        } else {
            None
        },
        (CommandView::PollAction, ResponseView::Action(Action::Noop))
        | (CommandView::PollAction, ResponseView::NoAction) => if has_line(engine.pending) {
            Some(engine.pending)
        } else {
            None
        },
        _ => None,
    }
}

/// The run of a worker that has given no answer yet.
pub open spec fn start() -> Run {
    Run {
        engine: EngineView::initial(),
        received: Seq::empty(),
        taken: Seq::empty(),
        clocks: Seq::empty(),
        delivered: Seq::empty(),
        closes: 0,
        reaped: false,
        waited: 0,
    }
}

/// The run after one more answer.
pub open spec fn extend(run: Run, answer: Answer) -> Run {
    let command = run.engine.command;
    let response = answer.response;
    let source = source_of_line(run.engine, response);
    Run {
        engine: next(run.engine, response, answer.now),
        received: match (command, response) {
            (CommandView::Read, ResponseView::Bytes(chunk)) => run.received + chunk,
            _ => run.received,
        },
        taken: match source {
            Some(bytes) => run.taken.push(first_line(bytes)),
            None => run.taken,
        },
        clocks: match source {
            Some(_) => run.clocks.push(answer.now),
            None => run.clocks,
        },
        delivered: match (command, response) {
            (CommandView::Send(Some(event)), ResponseView::Sent) => run.delivered.push(event),
            _ => run.delivered,
        },
        closes: match (command, response) {
            (CommandView::Send(None), ResponseView::Sent) => run.closes + 1,
            _ => run.closes,
        },
        reaped: run.reaped || match (command, response) {
            (CommandView::CheckExit, ResponseView::Exited) => true,
            (CommandView::Kill, ResponseView::Killed) => true,
            (CommandView::Kill, ResponseView::KillFailed(_)) => true,
            _ => false,
        },
        waited: run.waited + command.wait_bound(),
    }
}

/// The run that these answers make, the first answer first.
pub open spec fn run_of(answers: Seq<Answer>) -> Run
    decreases answers.len(),
{
    if answers.len() == 0 {
        start()
    } else {
        extend(run_of(answers.drop_last()), answers.last())
    }
}

/// The bytes that these lines make, each followed by its end.
pub open spec fn joined(lines: Seq<Seq<u8>>) -> Seq<u8>
    decreases lines.len(),
{
    if lines.len() == 0 {
        Seq::empty()
    } else {
        joined(lines.drop_last()) + lines.last() + seq![LINE_END]
    }
}

/// The events that these lines report, in the order of the lines. A banner
/// and a line that cannot be read report nothing.
pub open spec fn reports_of(lines: Seq<Seq<u8>>, clocks: Seq<Timestamp>) -> Seq<EventView>
    decreases lines.len(),
{
    if lines.len() == 0 {
        Seq::empty()
    } else {
        let before = reports_of(lines.drop_last(), clocks.drop_last());
        if reports(lines.last()) {
            before.push(reported_event(lines.last(), clocks.last()))
        } else {
            before
        }
    }
}

/// The lines of `bytes`: each whole line in order, without its end. What
/// follows the last line end is no line.
pub open spec fn lines_of(bytes: Seq<u8>) -> Seq<Seq<u8>>
    decreases bytes.len(),
    via lines_of_decreases
{
    if has_line(bytes) {
        seq![first_line(bytes)] + lines_of(after_line(bytes))
    } else {
        Seq::empty()
    }
}

#[via_fn]
proof fn lines_of_decreases(bytes: Seq<u8>) {
    if has_line(bytes) {
        lemma_line_splits(bytes);
    }
}

/// What holds of a run at every moment.
///
/// The output that was read is the lines that were taken, each with its
/// end, and then what is pending. The events that the receiver took are the
/// first of those that the taken lines report, in their order: all of them
/// while the worker is running, all but the one that is being sent while
/// one is, and all of them at the end unless something failed. The stream
/// is closed at most once, and only by a worker that returns then; a worker
/// that closes the stream or returns has seen to the command's end.
pub open spec fn sound(run: Run) -> bool {
    let due = reports_of(run.taken, run.clocks);
    &&& run.received == joined(run.taken) + run.engine.pending
    &&& run.clocks.len() == run.taken.len()
    &&& forall|i: int| 0 <= i < run.taken.len() ==> unbroken(#[trigger] run.taken[i])
    &&& run.engine.failure is None ==> forall|i: int|
        0 <= i < run.taken.len() ==> line_failure(#[trigger] run.taken[i]) is None
    &&& run.delivered.is_prefix_of(due)
    &&& run.engine.failure is None ==> run.delivered == match run.engine.command {
        CommandView::Send(Some(event)) => due.drop_last(),
        _ => due,
    }
    &&& match run.engine.command {
        CommandView::Read | CommandView::CheckExit | CommandView::PollAction => {
            &&& run.engine.failure is None
            &&& run.closes == 0
        },
        CommandView::Send(Some(event)) => {
            &&& run.engine.failure is None
            &&& run.closes == 0
            &&& due.len() > 0
            &&& due.last() == event
        },
        CommandView::Kill => run.closes == 0,
        CommandView::Send(None) => run.closes == 0 && run.reaped,
        CommandView::Finish(outcome) => {
            &&& run.closes <= 1
            &&& run.reaped
            &&& outcome is Ok <==> run.engine.failure is None
            &&& outcome is Ok ==> run.closes == 1
        },
    }
}

/// Taking one more line adds that line and its end to what the lines make.
proof fn lemma_joined_push(lines: Seq<Seq<u8>>, line: Seq<u8>)
    ensures
        joined(lines.push(line)) == joined(lines) + line + seq![LINE_END],
{
    assert(lines.push(line).drop_last() =~= lines);
}

/// Taking one more line adds what that line reports, if it reports.
proof fn lemma_reports_push(
    lines: Seq<Seq<u8>>,
    clocks: Seq<Timestamp>,
    line: Seq<u8>,
    now: Timestamp,
)
    ensures
        reports_of(lines.push(line), clocks.push(now)) == if reports(line) {
            reports_of(lines, clocks).push(reported_event(line, now))
        } else {
            reports_of(lines, clocks)
        },
{
    assert(lines.push(line).drop_last() =~= lines);
    assert(clocks.push(now).drop_last() =~= clocks);
}

/// One more answer keeps a run sound.
pub proof fn lemma_extend_sound(run: Run, answer: Answer)
    requires
        sound(run),
    ensures
        sound(extend(run, answer)),
{
    let after = extend(run, answer);
    let due = reports_of(run.taken, run.clocks);
    match source_of_line(run.engine, answer.response) {
        Some(bytes) => {
            let line = first_line(bytes);
            lemma_line_splits(bytes);
            lemma_joined_push(run.taken, line);
            lemma_reports_push(run.taken, run.clocks, line, answer.now);
            assert(after.received =~= joined(after.taken) + after.engine.pending);
            if reports(line) {
                let event = reported_event(line, answer.now);
                assert(due.push(event).drop_last() =~= due);
            }
        },
        None => {
            assert(after.received =~= joined(after.taken) + after.engine.pending);
            match (run.engine.command, answer.response) {
                (CommandView::Send(Some(event)), ResponseView::Sent) => {
                    assert(due.drop_last().push(event) =~= due);
                },
                _ => {},
            }
        },
    }
}

/// Every run is sound.
pub proof fn lemma_run_sound(answers: Seq<Answer>)
    ensures
        sound(run_of(answers)),
    decreases answers.len(),
{
    if answers.len() == 0 {
        assert(joined(Seq::<Seq<u8>>::empty()) + Seq::<u8>::empty() =~= Seq::<u8>::empty());
    } else {
        lemma_run_sound(answers.drop_last());
        lemma_extend_sound(run_of(answers.drop_last()), answers.last());
    }
}

/// The lines that are joined come out again: where every line is unbroken
/// and `rest` holds no line end, the lines of what they make, followed by
/// `rest`, are those lines.
pub proof fn lemma_lines_of_joined(lines: Seq<Seq<u8>>, rest: Seq<u8>)
    requires
        forall|i: int| 0 <= i < lines.len() ==> unbroken(#[trigger] lines[i]),
        !has_line(rest),
    ensures
        lines_of(joined(lines) + rest) == lines,
    decreases lines.len(),
{
    if lines.len() == 0 {
        assert(joined(lines) + rest =~= rest);
    } else {
        let head = lines.first();
        let tail = lines.drop_first();
        lemma_joined_front(head, tail);
        assert(seq![head] + tail =~= lines);
        let after = joined(tail) + rest;
        assert(joined(lines) + rest =~= head + seq![LINE_END] + after);
        lemma_first_line_of_joined(head, after);
        assert forall|i: int| 0 <= i < tail.len() implies unbroken(#[trigger] tail[i]) by {
            assert(tail[i] == lines[i + 1]);
        }
        lemma_lines_of_joined(tail, rest);
        assert(seq![head] + lines_of(after) =~= lines);
    }
}

/// What lines make begins with the first line and its end.
proof fn lemma_joined_front(head: Seq<u8>, tail: Seq<Seq<u8>>)
    ensures
        joined(seq![head] + tail) == head + seq![LINE_END] + joined(tail),
    decreases tail.len(),
{
    let all = seq![head] + tail;
    if tail.len() == 0 {
        assert(all.drop_last() =~= tail);
        assert(all.last() == head);
        assert(joined(tail) =~= Seq::<u8>::empty());
        assert(joined(all) =~= head + seq![LINE_END] + joined(tail));
    } else {
        assert(all.drop_last() =~= seq![head] + tail.drop_last());
        assert(all.last() == tail.last());
        lemma_joined_front(head, tail.drop_last());
        assert(joined(all) =~= head + seq![LINE_END] + joined(tail));
    }
}

/// Events arrive in the order of their lines, and the end of the stream
/// arrives last and once.
///
/// Of a worker that has returned success: the events that the receiver took
/// are those that the taken lines report, one for each line that reports,
/// in the order of the lines; after them the receiver took `None`, once.
/// The taken lines are the first lines of the output that was read, and
/// all of them where no whole line was left pending.
pub proof fn law_events_in_order(answers: Seq<Answer>)
    requires
        run_of(answers).engine.command == CommandView::Finish(Ok(())),
    ensures
        ({
            let run = run_of(answers);
            &&& run.delivered == reports_of(run.taken, run.clocks)
            &&& run.closes == 1
            &&& run.taken.is_prefix_of(lines_of(run.received))
            &&& !has_line(run.engine.pending) ==> run.taken == lines_of(run.received)
        }),
{
    let run = run_of(answers);
    lemma_run_sound(answers);
    lemma_taken_lines_lead(run);
}

/// The lines that a run took are the first lines of the output that it
/// read, and all of them where no whole line is pending.
pub proof fn lemma_taken_lines_lead(run: Run)
    requires
        sound(run),
    ensures
        run.taken.is_prefix_of(lines_of(run.received)),
        !has_line(run.engine.pending) ==> run.taken == lines_of(run.received),
{
    lemma_lines_lead(run.taken, run.engine.pending);
    if !has_line(run.engine.pending) {
        lemma_lines_of_joined(run.taken, run.engine.pending);
    }
}

/// The lines of what unbroken lines make, followed by anything, begin with
/// those lines.
proof fn lemma_lines_lead(lines: Seq<Seq<u8>>, rest: Seq<u8>)
    requires
        forall|i: int| 0 <= i < lines.len() ==> unbroken(#[trigger] lines[i]),
    ensures
        lines.is_prefix_of(lines_of(joined(lines) + rest)),
    decreases lines.len(),
{
    if lines.len() == 0 {
    } else {
        let head = lines.first();
        let tail = lines.drop_first();
        lemma_joined_front(head, tail);
        assert(seq![head] + tail =~= lines);
        let after = joined(tail) + rest;
        assert(joined(lines) + rest =~= head + seq![LINE_END] + after);
        lemma_first_line_of_joined(head, after);
        assert forall|i: int| 0 <= i < tail.len() implies unbroken(#[trigger] tail[i]) by {
            assert(tail[i] == lines[i + 1]);
        }
        lemma_lines_lead(tail, rest);
        let all = lines_of(joined(lines) + rest);
        assert(all =~= seq![head] + lines_of(after));
        assert(all.subrange(0, lines.len() as int) =~= lines) by {
            assert(lines_of(after).subrange(0, tail.len() as int) == tail);
            assert forall|i: int| 0 <= i < lines.len() implies all[i] == lines[i] by {
                if i > 0 {
                    assert(all[i] == lines_of(after)[i - 1]);
                    assert(lines_of(after).subrange(0, tail.len() as int)[i - 1] == tail[i - 1]);
                }
            }
        }
    }
}

/// Events follow the output, line by line, in every run.
///
/// Whatever the answers were: the lines that were taken are the first
/// lines of the output that was read, the events that the receiver took are
/// the first of the events that these lines report, in their order, and the
/// receiver took the end of the stream once at most.
pub proof fn law_events_follow_lines(answers: Seq<Answer>)
    ensures
        ({
            let run = run_of(answers);
            &&& run.taken.is_prefix_of(lines_of(run.received))
            &&& run.delivered.is_prefix_of(reports_of(run.taken, run.clocks))
            &&& run.closes <= 1
        }),
{
    lemma_run_sound(answers);
    lemma_taken_lines_lead(run_of(answers));
}

/// Lines that all report have one event each.
pub proof fn lemma_reports_of_reporting_lines(lines: Seq<Seq<u8>>, clocks: Seq<Timestamp>)
    requires
        clocks.len() == lines.len(),
        forall|i: int| 0 <= i < lines.len() ==> reports(#[trigger] lines[i]),
    ensures
        reports_of(lines, clocks).len() == lines.len(),
        forall|i: int|
            0 <= i < lines.len() ==> #[trigger] reports_of(lines, clocks)[i] == reported_event(
                lines[i],
                clocks[i],
            ),
    decreases lines.len(),
{
    if lines.len() > 0 {
        lemma_reports_of_reporting_lines(lines.drop_last(), clocks.drop_last());
    }
}

/// As many events as lines, in the same order, and then the end.
///
/// Of a worker that has returned success and left no whole line pending,
/// where no line of the output is a banner: the receiver took one event for
/// each line of the output that was read, the event that the line reports,
/// in the order of the lines, and after them `None`, once.
pub proof fn law_one_event_per_line(answers: Seq<Answer>)
    requires
        run_of(answers).engine.command == CommandView::Finish(Ok(())),
        !has_line(run_of(answers).engine.pending),
        forall|i: int|
            0 <= i < lines_of(run_of(answers).received).len() ==> !is_banner(
                #[trigger] lines_of(run_of(answers).received)[i],
            ),
    ensures
        ({
            let run = run_of(answers);
            let lines = lines_of(run.received);
            &&& run.delivered.len() == lines.len()
            &&& run.clocks.len() == lines.len()
            &&& forall|i: int|
                0 <= i < lines.len() ==> #[trigger] run.delivered[i] == reported_event(
                    lines[i],
                    run.clocks[i],
                )
            &&& run.closes == 1
        }),
{
    let run = run_of(answers);
    law_events_in_order(answers);
    lemma_run_sound(answers);
    assert forall|i: int| 0 <= i < run.taken.len() implies reports(#[trigger] run.taken[i]) by {
        assert(line_failure(run.taken[i]) is None);
    }
    lemma_reports_of_reporting_lines(run.taken, run.clocks);
}

/// What lines report holds no sentinel.
proof fn lemma_reports_hold_no_sentinel(lines: Seq<Seq<u8>>, clocks: Seq<Timestamp>)
    ensures
        forall|i: int|
            0 <= i < reports_of(lines, clocks).len() ==> (#[trigger] reports_of(
                lines,
                clocks,
            )[i]).sentinel_free(),
    decreases lines.len(),
{
    if lines.len() > 0 {
        let before = reports_of(lines.drop_last(), clocks.drop_last());
        lemma_reports_hold_no_sentinel(lines.drop_last(), clocks.drop_last());
        law_sentinel_is_absent(decode_utf8(lines.last()), clocks.last());
        let all = reports_of(lines, clocks);
        assert forall|i: int| 0 <= i < all.len() implies (#[trigger] all[i]).sentinel_free() by {
            if i < before.len() {
                assert(all[i] == before[i]);
            }
        }
    }
}

/// No event that arrives holds the sentinel.
///
/// Whatever the answers were and whatever the output held: in every event
/// that the receiver took, a field without a value is absent.
pub proof fn law_delivered_events_hold_no_sentinel(answers: Seq<Answer>)
    ensures
        forall|i: int|
            0 <= i < run_of(answers).delivered.len() ==> (#[trigger] run_of(
                answers,
            ).delivered[i]).sentinel_free(),
{
    let run = run_of(answers);
    lemma_run_sound(answers);
    lemma_reports_hold_no_sentinel(run.taken, run.clocks);
    let due = reports_of(run.taken, run.clocks);
    let delivered = run.delivered;
    assert forall|i: int| 0 <= i < delivered.len() implies (#[trigger] delivered[i]).sentinel_free(
    ) by {
        assert(delivered[i] == due.subrange(0, delivered.len() as int)[i]);
        assert(due[i].sentinel_free());
    }
}

/// Nothing arrives after the end of the stream.
///
/// Once the receiver has taken `None`, no answer makes the worker send
/// again: what was delivered stays as it is, and the worker has returned.
pub proof fn law_end_of_stream_is_last(answers: Seq<Answer>, answer: Answer)
    requires
        run_of(answers).closes >= 1,
    ensures
        run_of(answers).engine.command is Finish,
        extend(run_of(answers), answer).delivered == run_of(answers).delivered,
        extend(run_of(answers), answer).closes == 1,
        extend(run_of(answers), answer).engine == run_of(answers).engine,
{
    lemma_run_sound(answers);
}

/// The command is never left behind.
///
/// A worker that returns, with success or failure, has seen to the
/// command's end before: it found that the command had exited, or it tried
/// to terminate it.
pub proof fn law_command_is_reaped(answers: Seq<Answer>)
    requires
        run_of(answers).engine.command is Finish,
    ensures
        run_of(answers).reaped,
{
    lemma_run_sound(answers);
}

/// A worker that is told to stop reads no more.
///
/// Once the worker is stopping or has returned, no answer brings it back to
/// running: it never reads, polls or sends an event again.
pub proof fn law_stopping_is_final(engine: EngineView, response: ResponseView, now: Timestamp)
    requires
        !(engine.state() is Running),
    ensures
        !(next(engine, response, now).state() is Running),
        next(engine, response, now).pending == engine.pending,
{
}

/// `Stop` is honoured at the next poll, also by an idle worker.
///
/// A worker whose read brings nothing goes on to check for the command's
/// exit and, the command being alive, to poll for an action. `Stop` then
/// has the command terminated and the stream closed, and the worker
/// returns: no output is needed for any of this, and none is read. From the
/// read to the end the worker waits no longer than one read and one poll
/// may take, which is less than half a second.
pub proof fn law_stop_while_idle(run: Run, clocks: Seq<Timestamp>)
    requires
        sound(run),
        run.engine.command is Read,
        clocks.len() == 5,
    ensures
        ({
            let silent = extend(run, Answer { response: ResponseView::NoOutput, now: clocks[0] });
            let alive = extend(silent, Answer { response: ResponseView::Alive, now: clocks[1] });
            let told = extend(
                alive,
                Answer { response: ResponseView::Action(Action::Stop), now: clocks[2] },
            );
            let killed = extend(told, Answer { response: ResponseView::Killed, now: clocks[3] });
            let closed = extend(killed, Answer { response: ResponseView::Sent, now: clocks[4] });
            &&& silent.engine.command is CheckExit
            &&& alive.engine.command is PollAction
            &&& told.engine.command is Kill
            &&& told.engine.state() is Stopping
            &&& killed.engine.command == CommandView::Send(None)
            &&& closed.engine.command == CommandView::Finish(Ok(()))
            &&& closed.closes == 1
            &&& closed.reaped
            &&& closed.delivered == run.delivered
            &&& closed.received == run.received
            &&& closed.waited == run.waited + READ_BOUND + POLL_BOUND
            &&& closed.waited - run.waited < 500
        }),
{
}

/// A worker that is stopping returns after two more steps.
///
/// Whether or not the command can be terminated and whether or not the
/// receiver takes the end of the stream, the worker returns, with the
/// failure that came first or, without one, with success.
pub proof fn law_stopping_ends(
    engine: EngineView,
    killing: ResponseView,
    closing: ResponseView,
    clocks: Seq<Timestamp>,
)
    requires
        engine.command is Kill,
        killing is Killed || killing is KillFailed,
        closing is Sent || closing is SendFailed,
        clocks.len() == 2,
    ensures
        next(engine, killing, clocks[0]).command == CommandView::Send(None),
        next(next(engine, killing, clocks[0]), closing, clocks[1]).command is Finish,
        engine.failure is Some ==> next(
            next(engine, killing, clocks[0]),
            closing,
            clocks[1],
        ).command == CommandView::Finish(Err(engine.failure.unwrap())),
        engine.failure is None && killing is Killed && closing is Sent ==> next(
            next(engine, killing, clocks[0]),
            closing,
            clocks[1],
        ).command == CommandView::Finish(Ok(())),
{
}

/// A line that cannot be read stops the worker, and is its result.
///
/// Where the first whole line of the output is not UTF-8, or has a head
/// whose time token does not follow the format, no event is made of it: the
/// command is terminated, and the worker returns with this failure.
pub proof fn law_unreadable_line_stops_the_worker(
    engine: EngineView,
    chunk: Seq<u8>,
    clocks: Seq<Timestamp>,
)
    requires
        engine.command is Read,
        engine.failure is None,
        has_line(engine.pending + chunk),
        line_failure(first_line(engine.pending + chunk)) is Some,
        clocks.len() == 3,
    ensures
        ({
            let failure = line_failure(first_line(engine.pending + chunk)).unwrap();
            let read = next(engine, ResponseView::Bytes(chunk), clocks[0]);
            let killed = next(read, ResponseView::Killed, clocks[1]);
            let closed = next(killed, ResponseView::Sent, clocks[2]);
            &&& read.command is Kill
            &&& killed.command == CommandView::Send(None)
            &&& closed.command == CommandView::Finish(Err(failure))
        }),
{
}

/// `Stop` is honoured at every poll, whatever is pending.
pub proof fn law_stop_at_poll(engine: EngineView, now: Timestamp)
    requires
        engine.command is PollAction,
    ensures
        next(engine, ResponseView::Action(Action::Stop), now) == engine.with(CommandView::Kill),
{
}

} // verus!
