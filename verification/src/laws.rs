//! What holds of every run, whatever its events are.

use crate::response::{PayloadView, ResponseView};
use crate::run::{lemma_after_push, EventView, Phase, RunView, PREVIEW_LINES};
use vstd::prelude::*;

verus! {

/// The events without the reporter's ticks.
pub open spec fn without_ticks(events: Seq<EventView>) -> Seq<EventView>
    decreases events.len(),
{
    if events.len() == 0 {
        events
    } else if events.last() is Tick {
        without_ticks(events.drop_last())
    } else {
        without_ticks(events.drop_last()).push(events.last())
    }
}

/// The responses without the progress reports.
pub open spec fn without_progress(responses: Seq<ResponseView>) -> Seq<ResponseView>
    decreases responses.len(),
{
    if responses.len() == 0 {
        responses
    } else if responses.last().payload is Progress {
        without_progress(responses.drop_last())
    } else {
        without_progress(responses.drop_last()).push(responses.last())
    }
}

/// One event for each line.
pub open spec fn line_events(lines: Seq<Seq<char>>) -> Seq<EventView> {
    Seq::new(lines.len(), |i: int| EventView::Line(lines[i]))
}

/// The events of a run whose child process is created, writes `lines` and then
/// ends its output.
pub open spec fn reading(lines: Seq<Seq<char>>) -> Seq<EventView> {
    seq![EventView::Spawned] + line_events(lines) + seq![EventView::EndOfStream]
}

/// The count that a progress report carries.
pub open spec fn progress_total(r: ResponseView) -> Option<nat> {
    match r.payload {
        PayloadView::Progress { total } => Some(total),
        _ => None,
    }
}

/// The final response of a run that saw `total` lines.
pub open spec fn final_response(id: u64, total: nat, lines: Option<Seq<Seq<char>>>) -> ResponseView {
    ResponseView { id, payload: PayloadView::Final { total, lines } }
}

/// The response that carries the preview `lines`.
pub open spec fn preview_response(id: u64, lines: Seq<Seq<char>>) -> ResponseView {
    ResponseView { id, payload: PayloadView::Preview { lines } }
}

proof fn lemma_without_progress_push(responses: Seq<ResponseView>, r: ResponseView)
    ensures
        without_progress(responses.push(r)) == if r.payload is Progress {
            without_progress(responses)
        } else {
            without_progress(responses).push(r)
        },
{
    assert(responses.push(r).drop_last() =~= responses);
}

proof fn lemma_after_concat(s: RunView, a: Seq<EventView>, b: Seq<EventView>)
    ensures
        s.after(a + b) == s.after(a).after(b),
        s.responses(a + b) == s.responses(a) + s.after(a).responses(b),
    decreases b.len(),
{
    if b.len() > 0 {
        lemma_after_concat(s, a, b.drop_last());
        assert((a + b).drop_last() =~= a + b.drop_last());
    }
}

proof fn lemma_ticks_transparent(s: RunView, events: Seq<EventView>)
    ensures
        s.after(events) == s.after(without_ticks(events)),
        without_progress(s.responses(events)) == s.responses(without_ticks(events)),
    decreases events.len(),
{
    if events.len() > 0 {
        let earlier = events.drop_last();
        let event = events.last();
        lemma_ticks_transparent(s, earlier);
        let mid = s.after(earlier);
        match mid.emits(event) {
            Some(r) => lemma_without_progress_push(s.responses(earlier), r),
            None => {},
        }
        if !(event is Tick) {
            lemma_after_push(s, without_ticks(earlier), event);
        }
    }
}

/// What reading lines does to a running run: each line is counted, the buffer
/// takes the lines up to the size of a preview, and the preview leaves once,
/// with the line that finds the buffer full.
proof fn lemma_reading_lines(s: RunView, lines: Seq<Seq<char>>)
    requires
        s.phase == Phase::Running,
        s.wf(),
        s.line_count + lines.len() <= usize::MAX,
    ensures
        ({
            let t = s.after(line_events(lines));
            let all = s.preview_buffer + lines;
            &&& t.phase == Phase::Running
            &&& t.wf()
            &&& t.request_id == s.request_id
            &&& t.line_count == s.line_count + lines.len()
            &&& t.preview_buffer == if all.len() <= PREVIEW_LINES {
                all
            } else {
                all.take(PREVIEW_LINES as int)
            }
            &&& s.responses(line_events(lines)) == if !s.preview_sent && t.preview_sent {
                seq![t.preview()]
            } else {
                Seq::empty()
            }
        }),
    decreases lines.len(),
{
    if lines.len() > 0 {
        let earlier = lines.drop_last();
        lemma_reading_lines(s, earlier);
        assert(line_events(lines).drop_last() =~= line_events(earlier));
        let all_earlier = s.preview_buffer + earlier;
        assert(all_earlier.len() == PREVIEW_LINES ==> all_earlier.take(PREVIEW_LINES as int)
            =~= all_earlier);
    }
}

/// A run whose output is no longer than a preview sends no preview and ends
/// with one final response, which holds the count and all the lines in their
/// order. The ticks of the reporter, wherever they fall, change nothing of it.
pub proof fn law_short_output(request_id: u64, lines: Seq<Seq<char>>, events: Seq<EventView>)
    requires
        lines.len() <= PREVIEW_LINES,
        without_ticks(events) == reading(lines),
    ensures
        without_progress(RunView::initial(request_id).responses(events)) == seq![
            final_response(request_id, lines.len(), Some(lines)),
        ],
{
    let s = RunView::initial(request_id);
    lemma_ticks_transparent(s, events);
    lemma_reading_from_start(request_id, lines);
}

/// A run whose output is longer than a preview sends one preview, which holds
/// the first lines in their order, and then one final response, which holds the
/// count and no lines. The ticks of the reporter, wherever they fall, change
/// nothing of it.
pub proof fn law_long_output(request_id: u64, lines: Seq<Seq<char>>, events: Seq<EventView>)
    requires
        lines.len() > PREVIEW_LINES,
        lines.len() <= usize::MAX,
        without_ticks(events) == reading(lines),
    ensures
        without_progress(RunView::initial(request_id).responses(events)) == seq![
            preview_response(request_id, lines.take(PREVIEW_LINES as int)),
            final_response(request_id, lines.len(), None),
        ],
{
    let s = RunView::initial(request_id);
    lemma_ticks_transparent(s, events);
    lemma_reading_from_start(request_id, lines);
}

proof fn lemma_reading_from_start(request_id: u64, lines: Seq<Seq<char>>)
    requires
        lines.len() <= usize::MAX,
    ensures
        RunView::initial(request_id).responses(reading(lines)) == if lines.len()
            <= PREVIEW_LINES {
            seq![final_response(request_id, lines.len(), Some(lines))]
        } else {
            seq![
                preview_response(request_id, lines.take(PREVIEW_LINES as int)),
                final_response(request_id, lines.len(), None),
            ]
        },
{
    let s = RunView::initial(request_id);
    let spawned = seq![EventView::Spawned];
    let ended = seq![EventView::EndOfStream];
    lemma_after_push(s, Seq::empty(), EventView::Spawned);
    let running = s.after(spawned);
    lemma_reading_lines(running, lines);
    let read = running.after(line_events(lines));
    lemma_after_push(read, Seq::empty(), EventView::EndOfStream);
    lemma_after_concat(s, spawned, line_events(lines));
    lemma_after_concat(s, spawned + line_events(lines), ended);
    let got = s.responses(reading(lines));
    if lines.len() <= PREVIEW_LINES {
        assert(got =~= seq![final_response(request_id, lines.len(), Some(lines))]);
    } else {
        assert(got =~= seq![
            preview_response(request_id, lines.take(PREVIEW_LINES as int)),
            final_response(request_id, lines.len(), None),
        ]);
    }
}

/// The line count never falls, and every progress report carries a count
/// that lies between the count before the events and the count after them.
proof fn lemma_progress_bounds(s: RunView, events: Seq<EventView>)
    ensures
        s.line_count <= s.after(events).line_count,
        forall|k: int|
            0 <= k < s.responses(events).len() ==> (#[trigger] progress_total(
                s.responses(events)[k],
            ) matches Some(total) ==> s.line_count <= total <= s.after(events).line_count),
    decreases events.len(),
{
    if events.len() > 0 {
        lemma_progress_bounds(s, events.drop_last());
    }
}

/// The counts that the progress reports of a run carry never fall from one
/// report to a later one.
pub proof fn law_progress_never_falls(s: RunView, events: Seq<EventView>)
    ensures
        forall|i: int, j: int|
            0 <= i <= j < s.responses(events).len() ==> (#[trigger] progress_total(
                s.responses(events)[i],
            ) matches Some(first) ==> (#[trigger] progress_total(s.responses(events)[j])
                matches Some(second) ==> first <= second)),
    decreases events.len(),
{
    if events.len() > 0 {
        law_progress_never_falls(s, events.drop_last());
        lemma_progress_bounds(s, events.drop_last());
    }
}

/// The line count of a run never falls, and a preview that was sent stays sent.
pub proof fn law_counters_only_grow(s: RunView, events: Seq<EventView>)
    ensures
        s.line_count <= s.after(events).line_count,
        s.preview_sent ==> s.after(events).preview_sent,
        s.stop ==> s.after(events).stop,
    decreases events.len(),
{
    if events.len() > 0 {
        law_counters_only_grow(s, events.drop_last());
    }
}

/// Every event keeps a run well formed.
pub proof fn law_events_keep_wf(s: RunView, events: Seq<EventView>)
    requires
        s.wf(),
    ensures
        s.after(events).wf(),
    decreases events.len(),
{
    if events.len() > 0 {
        law_events_keep_wf(s, events.drop_last());
    }
}

/// Once a run has sent its final response it is completed and its stop signal
/// is set, whatever follows.
pub proof fn law_final_sets_stop(s: RunView, events: Seq<EventView>)
    ensures
        forall|k: int|
            0 <= k < s.responses(events).len() && (#[trigger] s.responses(
                events,
            )[k]).payload is Final ==> s.after(events).stop && s.after(events).phase
                == Phase::Completed,
    decreases events.len(),
{
    if events.len() > 0 {
        law_final_sets_stop(s, events.drop_last());
    }
}

/// No progress report follows the final response of a run.
pub proof fn law_no_progress_after_final(s: RunView, events: Seq<EventView>)
    ensures
        forall|i: int, j: int|
            0 <= i < j < s.responses(events).len() && (#[trigger] s.responses(
                events,
            )[i]).payload is Final ==> !((#[trigger] s.responses(events)[j]).payload is Progress),
    decreases events.len(),
{
    if events.len() > 0 {
        law_no_progress_after_final(s, events.drop_last());
        law_final_sets_stop(s, events.drop_last());
    }
}

/// A run sends its preview at most once and its final response at most once,
/// and no preview follows the final response.
pub proof fn law_preview_and_final_come_once(s: RunView, events: Seq<EventView>)
    ensures
        forall|i: int, j: int|
            0 <= i < j < s.responses(events).len() && (#[trigger] s.responses(
                events,
            )[i]).payload is Preview ==> !((#[trigger] s.responses(events)[j]).payload is Preview),
        forall|i: int, j: int|
            0 <= i < j < s.responses(events).len() && (#[trigger] s.responses(
                events,
            )[i]).payload is Final ==> !((#[trigger] s.responses(events)[j]).payload is Final)
                && !(s.responses(events)[j].payload is Preview),
    decreases events.len(),
{
    if events.len() > 0 {
        law_preview_and_final_come_once(s, events.drop_last());
        law_final_sets_stop(s, events.drop_last());
        lemma_preview_is_remembered(s, events.drop_last());
    }
}

proof fn lemma_preview_is_remembered(s: RunView, events: Seq<EventView>)
    ensures
        forall|k: int|
            0 <= k < s.responses(events).len() && (#[trigger] s.responses(
                events,
            )[k]).payload is Preview ==> s.after(events).preview_sent,
    decreases events.len(),
{
    if events.len() > 0 {
        lemma_preview_is_remembered(s, events.drop_last());
    }
}

/// Every response of a run carries the request that the run answers.
pub proof fn law_responses_carry_the_request(s: RunView, events: Seq<EventView>)
    ensures
        s.after(events).request_id == s.request_id,
        forall|k: int|
            0 <= k < s.responses(events).len() ==> (#[trigger] s.responses(events)[k]).id
                == s.request_id,
    decreases events.len(),
{
    if events.len() > 0 {
        law_responses_carry_the_request(s, events.drop_last());
    }
}

/// A run whose stop signal is set keeps it set and reports nothing but
/// failures: no progress, no preview and no final response.
pub proof fn law_stopped_run_is_silent(s: RunView, events: Seq<EventView>)
    requires
        s.wf(),
        s.stop,
    ensures
        s.after(events).stop,
        forall|k: int|
            0 <= k < s.responses(events).len() ==> (#[trigger] s.responses(events)[k]).payload
                is Error,
    decreases events.len(),
{
    if events.len() > 0 {
        law_stopped_run_is_silent(s, events.drop_last());
        law_events_keep_wf(s, events.drop_last());
    }
}

/// Two sequences of events that differ only in where the reporter's ticks fall
/// leave a run in the same state and draw the same responses from it, but for
/// the progress reports.
pub proof fn law_same_output_again(s: RunView, first: Seq<EventView>, second: Seq<EventView>)
    requires
        without_ticks(first) == without_ticks(second),
    ensures
        s.after(first) == s.after(second),
        without_progress(s.responses(first)) == without_progress(s.responses(second)),
{
    lemma_ticks_transparent(s, first);
    lemma_ticks_transparent(s, second);
}

} // verus!
