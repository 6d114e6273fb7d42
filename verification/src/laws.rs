use vstd::prelude::*;

use crate::levels::LogLevel;
use crate::prelude::{after_event, after_put, batch_step, entry_text, opt_text, panic_text, put_of, EntryView, Event, HandleView};
use crate::region::chosen_region_name;

verus! {

/// The log line, if any, that an event hands to the batch.
pub open spec fn entry_of(event: Event) -> Seq<EntryView> {
    match event {
        Event::Received(level, timestamp) => match entry_text(level) {
            Some(text) => seq![(text, timestamp)],
            None => Seq::empty(),
        },
        Event::TimedOut => Seq::empty(),
        Event::Closed => Seq::empty(),
    }
}

/// The log lines that a sequence of events hands to the batch, in order.
pub open spec fn received_entries(events: Seq<Event>) -> Seq<EntryView>
    decreases events.len(),
{
    if events.len() == 0 {
        Seq::empty()
    } else {
        entry_of(events[0]) + received_entries(events.drop_first())
    }
}

/// Runs the batching rule over a sequence of events: the lines still pending
/// at the end, and the batches sent, in order.
pub open spec fn run_batches(pending: Seq<EntryView>, max_log_count: nat, events: Seq<Event>) -> (Seq<EntryView>, Seq<Seq<EntryView>>)
    decreases events.len(),
{
    if events.len() == 0 {
        (pending, Seq::empty())
    } else {
        let (next, sent) = batch_step(pending, max_log_count, events[0]);
        let (last, later) = run_batches(next, max_log_count, events.drop_first());
        (last, if sent.len() > 0 { seq![sent] + later } else { later })
    }
}

/// One event neither loses nor reorders lines: what is sent, followed by what
/// stays pending, is what was pending followed by the event's line.
pub proof fn lemma_step_keeps_every_line(pending: Seq<EntryView>, max_log_count: nat, event: Event)
    ensures
        batch_step(pending, max_log_count, event).1 + batch_step(pending, max_log_count, event).0
            == pending + entry_of(event),
{
    let (next, sent) = batch_step(pending, max_log_count, event);
    assert(sent + next =~= pending + entry_of(event));
}

/// Every line is sent exactly once and in the order it was logged: over any
/// sequence of events, the batches sent, one after the other, followed by the
/// lines still pending, are the lines pending at the start followed by the
/// lines of the events' messages.
pub proof fn lemma_every_line_sent_once_in_order(pending: Seq<EntryView>, max_log_count: nat, events: Seq<Event>)
    ensures
        run_batches(pending, max_log_count, events).1.flatten() + run_batches(pending, max_log_count, events).0
            == pending + received_entries(events),
    decreases events.len(),
{
    if events.len() > 0 {
        let (next, sent) = batch_step(pending, max_log_count, events[0]);
        let (last, later) = run_batches(next, max_log_count, events.drop_first());
        lemma_every_line_sent_once_in_order(next, max_log_count, events.drop_first());
        lemma_step_keeps_every_line(pending, max_log_count, events[0]);
        let batches = run_batches(pending, max_log_count, events).1;
        if sent.len() > 0 {
            assert((seq![sent] + later).drop_first() =~= later);
            assert(batches.flatten() == sent + later.flatten());
        } else {
            assert(sent =~= Seq::<EntryView>::empty());
            assert(batches.flatten() =~= sent + later.flatten());
        }
        assert(batches.flatten() + last =~= sent + (later.flatten() + last));
        assert(sent + (next + received_entries(events.drop_first())) =~= (sent + next) + received_entries(events.drop_first()));
        assert(pending + received_entries(events) =~= (pending + entry_of(events[0])) + received_entries(events.drop_first()));
    }
}

/// Batches are never empty and never larger than the batch size, and fewer
/// lines than a full batch stay pending: over any sequence of events that
/// starts from a well-formed batch.
pub proof fn lemma_batches_are_bounded(pending: Seq<EntryView>, max_log_count: nat, events: Seq<Event>)
    requires
        1 <= max_log_count,
        pending.len() < max_log_count,
    ensures
        run_batches(pending, max_log_count, events).0.len() < max_log_count,
        forall|i: int|
            0 <= i < run_batches(pending, max_log_count, events).1.len() ==> 0 < #[trigger] run_batches(
                pending,
                max_log_count,
                events,
            ).1[i].len() <= max_log_count,
    decreases events.len(),
{
    if events.len() > 0 {
        let (next, sent) = batch_step(pending, max_log_count, events[0]);
        let (last, later) = run_batches(next, max_log_count, events.drop_first());
        lemma_pending_stays_below_batch_size(pending, max_log_count, events[0]);
        lemma_batches_are_bounded(next, max_log_count, events.drop_first());
        let batches = run_batches(pending, max_log_count, events).1;
        if sent.len() > 0 {
            assert forall|i: int| 0 <= i < batches.len() implies 0 < #[trigger] batches[i].len() <= max_log_count by {
                if i > 0 {
                    assert(batches[i] == later[i - 1]);
                }
            }
        }
    }
}

/// One event keeps the batch well formed: fewer lines than a full batch stay
/// pending, and what is sent is at most one full batch.
pub proof fn lemma_pending_stays_below_batch_size(pending: Seq<EntryView>, max_log_count: nat, event: Event)
    requires
        1 <= max_log_count,
        pending.len() < max_log_count,
    ensures
        batch_step(pending, max_log_count, event).0.len() < max_log_count,
        batch_step(pending, max_log_count, event).1.len() <= max_log_count,
{
}

/// An error, a panic, a flush request, an elapsed interval or the closing of
/// the channel leaves nothing pending; an informational line is held back
/// while the batch is not full.
pub proof fn lemma_when_lines_are_sent(pending: Seq<EntryView>, max_log_count: nat, event: Event)
    ensures
        !(event matches Event::Received(LogLevel::Info(_), _)) ==> batch_step(pending, max_log_count, event).0.len() == 0,
        (event matches Event::Received(LogLevel::Info(_), _)) && pending.len() + 1 < max_log_count
            ==> batch_step(pending, max_log_count, event).1.len() == 0,
        (event matches Event::Received(LogLevel::Error(_), _)) || (event matches Event::Received(LogLevel::Panic(_), _))
            ==> batch_step(pending, max_log_count, event).1.len() > 0,
{
}

/// A sequence token is used for one call only: once a batch has gone out with
/// it, the next batch carries no token unless a successful reply brought a
/// new one in between.
pub proof fn lemma_sequence_token_spent(h: HandleView, first: Event, second: Event)
    requires
        after_event(h, first).1 is Some,
    ensures
        after_event(after_event(h, first).0, second).1 matches Some(p) ==> p.sequence_token is None,
{
}

/// The token of a successful reply is the token of the next batch.
pub proof fn lemma_reply_token_is_used_next(h: HandleView, next: Option<String>, event: Event)
    ensures
        after_event(after_put(h, Ok(next)), event).1 matches Some(p) ==> p.sequence_token == opt_text(next),
{
}

/// A full batch is sent whole: when an informational line arrives while one
/// line short of a full batch is pending, one call carries every pending line
/// followed by the new one, in order, and nothing stays pending.
pub proof fn lemma_full_batch_sent_whole(h: HandleView, m: String, timestamp: i64)
    requires
        1 <= h.max_log_count,
        h.pending.len() + 1 == h.max_log_count,
    ensures
        after_event(h, Event::Received(LogLevel::Info(m), timestamp)).0.pending.len() == 0,
        after_event(h, Event::Received(LogLevel::Info(m), timestamp)).0.sequence_token is None,
        after_event(h, Event::Received(LogLevel::Info(m), timestamp)).1 == Some(
            put_of(h, h.pending.push(("INFO: "@ + m@, timestamp))),
        ),
{
}

/// An informational line that does not fill the batch is held: it is added
/// after the pending lines and no call is made.
pub proof fn lemma_info_held_below_batch_size(h: HandleView, m: String, timestamp: i64)
    requires
        h.pending.len() + 1 < h.max_log_count,
    ensures
        after_event(h, Event::Received(LogLevel::Info(m), timestamp)).0.pending == h.pending.push(("INFO: "@ + m@, timestamp)),
        after_event(h, Event::Received(LogLevel::Info(m), timestamp)).0.sequence_token == h.sequence_token,
        after_event(h, Event::Received(LogLevel::Info(m), timestamp)).1 is None,
{
}

/// An error line goes out at once, after every pending line, in one call;
/// nothing stays pending.
pub proof fn lemma_error_sent_with_pending(h: HandleView, m: String, timestamp: i64)
    ensures
        after_event(h, Event::Received(LogLevel::Error(m), timestamp)).0.pending.len() == 0,
        after_event(h, Event::Received(LogLevel::Error(m), timestamp)).1 == Some(
            put_of(h, h.pending.push(("ERROR: "@ + m@, timestamp))),
        ),
{
}

/// A panic line goes out at once, unchanged, after every pending line, in one
/// call; nothing stays pending.
pub proof fn lemma_panic_sent_with_pending(h: HandleView, m: String, timestamp: i64)
    ensures
        after_event(h, Event::Received(LogLevel::Panic(m), timestamp)).0.pending.len() == 0,
        after_event(h, Event::Received(LogLevel::Panic(m), timestamp)).1 == Some(
            put_of(h, h.pending.push((m@, timestamp))),
        ),
{
}

/// A flush request, an elapsed interval and the closing of the channel send
/// every pending line, in order, in one call (none when nothing is pending),
/// and leave nothing pending.
pub proof fn lemma_flush_sends_every_pending_line(h: HandleView, event: Event)
    requires
        (event matches Event::Received(LogLevel::Flush, _)) || event is TimedOut || event is Closed,
    ensures
        after_event(h, event).0.pending.len() == 0,
        h.pending.len() > 0 ==> after_event(h, event).1 == Some(put_of(h, h.pending)),
        h.pending.len() == 0 ==> after_event(h, event).1 is None,
        h.pending.len() == 0 ==> after_event(h, event).0 == h,
{
    if h.pending.len() == 0 {
        assert(after_event(h, event).0.pending =~= h.pending);
    }
}

/// The panic line holds the whole payload: it is the prefix `PANIC at '`, the
/// location, `': ` and then the payload, which it ends with whatever its
/// length.
pub proof fn lemma_panic_line_keeps_payload(payload: Seq<char>, location: Seq<char>)
    ensures
        panic_text(Some(payload), location) == "PANIC at '"@ + location + "': "@ + payload,
        panic_text(Some(payload), location).len() == "PANIC at '"@.len() + location.len() + "': "@.len() + payload.len(),
        panic_text(Some(payload), location).subrange(
            panic_text(Some(payload), location).len() - payload.len(),
            panic_text(Some(payload), location).len() as int,
        ) == payload,
{
    let t = panic_text(Some(payload), location);
    assert(t.subrange(t.len() - payload.len(), t.len() as int) =~= payload);
}

/// A panic without a string payload is logged with the fixed text.
pub proof fn lemma_panic_line_unknown_payload(location: Seq<char>)
    ensures
        panic_text(None, location) == "PANIC at '"@ + location + "': "@ + "Panic with unknown payload"@,
{
}

/// A set `AWS_REGION` is used as it is, whatever its length or text; only an
/// unset variable falls back to `us-east-1`.
pub proof fn lemma_region_name_from_environment(name: String)
    ensures
        chosen_region_name(Some(name)) == name@,
        chosen_region_name(None) == "us-east-1"@,
{
}

} // verus!
