//! One run of a command on behalf of one request: its phases, its counters,
//! and the response that each event calls for.

use crate::response::{response_views, texts, Payload, PayloadView, Response, ResponseView};
use vstd::prelude::*;
use vstd::string::StringExecFns;

verus! {

/// The number of lines that a preview holds.
pub const PREVIEW_LINES: usize = 500;

/// The time from one tick of the reporter to the next, in milliseconds.
pub const TICK_MILLIS: u64 = 30;

/// Where a run stands.
#[derive(Clone, Copy, Debug, PartialEq, Eq, Structural)]
pub enum Phase {
    /// The child process has not been created yet.
    Spawning,
    /// The child process exists and its output is being read.
    Running,
    /// The output has ended and the final response has been sent.
    Completed,
    /// The run has failed.
    Failed,
}

/// What can go wrong with a run. Each failure but the missing handle carries
/// the text that describes it.
#[derive(Debug, PartialEq, Eq)]
pub enum RunError {
    /// The child process could not be created.
    SpawnFailure(String),
    /// The child process came without a handle to its standard output.
    MissingOutputHandle,
    /// Waiting for the child process to exit failed.
    ChildWaitFailure(String),
    /// Reading a line of the output failed.
    StreamReadFailure(String),
}

pub enum RunErrorView {
    SpawnFailure(Seq<char>),
    MissingOutputHandle,
    ChildWaitFailure(Seq<char>),
    StreamReadFailure(Seq<char>),
}

impl View for RunError {
    type V = RunErrorView;

    open spec fn view(&self) -> RunErrorView {
        match *self {
            RunError::SpawnFailure(text) => RunErrorView::SpawnFailure(text@),
            RunError::MissingOutputHandle => RunErrorView::MissingOutputHandle,
            RunError::ChildWaitFailure(text) => RunErrorView::ChildWaitFailure(text@),
            RunError::StreamReadFailure(text) => RunErrorView::StreamReadFailure(text@),
        }
    }
}

impl RunErrorView {
    /// The message that reports the failure to the client.
    pub open spec fn message(self) -> Seq<char> {
        match self {
            RunErrorView::SpawnFailure(text) => text,
            RunErrorView::MissingOutputHandle => "child did not have a handle to stdout"@,
            RunErrorView::ChildWaitFailure(text) => text,
            RunErrorView::StreamReadFailure(text) => text,
        }
    }
}

impl RunError {
    /// The message that reports the failure to the client.
    pub fn message(&self) -> (m: String)
        ensures
            m@ == self@.message(),
    {
        match self {
            RunError::SpawnFailure(text) => text.clone(),
            RunError::MissingOutputHandle => String::from_str(
                "child did not have a handle to stdout",
            ),
            RunError::ChildWaitFailure(text) => text.clone(),
            RunError::StreamReadFailure(text) => text.clone(),
        }
    }
}

/// What happens to a run.
#[derive(Debug, PartialEq, Eq)]
pub enum Event {
    /// The child process was created and its standard output is at hand.
    Spawned,
    /// The child process wrote a line.
    Line(String),
    /// The output of the child process ended.
    EndOfStream,
    /// The reporter's interval elapsed.
    Tick,
    /// Something went wrong.
    Failure(RunError),
}

pub enum EventView {
    Spawned,
    Line(Seq<char>),
    EndOfStream,
    Tick,
    Failure(RunErrorView),
}

impl View for Event {
    type V = EventView;

    open spec fn view(&self) -> EventView {
        match *self {
            Event::Spawned => EventView::Spawned,
            Event::Line(line) => EventView::Line(line@),
            Event::EndOfStream => EventView::EndOfStream,
            Event::Tick => EventView::Tick,
            Event::Failure(err) => EventView::Failure(err@),
        }
    }
}

/// The views of a list of events.
pub open spec fn event_views(events: Seq<Event>) -> Seq<EventView> {
    Seq::new(events.len(), |i: int| events[i]@)
}

/// The response that an event called for, if it called for one.
pub open spec fn emitted(r: Option<Response>) -> Option<ResponseView> {
    match r {
        Some(r) => Some(r@),
        None => None,
    }
}

/// The state of a run as contracts see it.
#[verifier::ext_equal]
pub struct RunView {
    pub request_id: u64,
    pub phase: Phase,
    pub line_count: nat,
    pub stop: bool,
    pub preview_buffer: Seq<Seq<char>>,
    pub preview_sent: bool,
}

impl RunView {
    /// A run before its child process exists.
    pub open spec fn initial(request_id: u64) -> RunView {
        RunView {
            request_id,
            phase: Phase::Spawning,
            line_count: 0,
            stop: false,
            preview_buffer: Seq::empty(),
            preview_sent: false,
        }
    }

    /// The run is over: nothing more is read or reported.
    pub open spec fn is_over(self) -> bool {
        self.phase == Phase::Completed || self.phase == Phase::Failed
    }

    /// What holds of every run that began with `initial`: the stop signal is
    /// set exactly when the run is over, the buffer holds the first lines up to
    /// the size of a preview, and the preview has been sent exactly when more
    /// lines than that have been seen.
    pub open spec fn wf(self) -> bool {
        &&& self.line_count <= usize::MAX
        &&& self.stop <==> self.is_over()
        &&& self.preview_sent <==> self.line_count > PREVIEW_LINES
        &&& self.preview_buffer.len() == if self.line_count < PREVIEW_LINES {
            self.line_count
        } else {
            PREVIEW_LINES as nat
        }
        &&& self.phase == Phase::Spawning ==> self.line_count == 0
    }

    /// The line count after one more line. The counter stays at the largest
    /// value it can hold.
    pub open spec fn next_count(self) -> nat {
        if self.line_count < usize::MAX {
            self.line_count + 1
        } else {
            self.line_count
        }
    }

    /// A line arrives while no preview has been sent and the lines seen before it
    /// already fill one: this is the line that releases the preview.
    pub open spec fn releases_preview(self) -> bool {
        !self.preview_sent && self.line_count >= PREVIEW_LINES
    }

    /// The state after a line was read.
    pub open spec fn with_line(self, line: Seq<char>) -> RunView {
        RunView {
            line_count: self.next_count(),
            preview_buffer: if !self.preview_sent && self.line_count < PREVIEW_LINES {
                self.preview_buffer.push(line)
            } else {
                self.preview_buffer
            },
            preview_sent: self.preview_sent || self.line_count >= PREVIEW_LINES,
            ..self
        }
    }

    /// The response that carries the preview.
    pub open spec fn preview(self) -> ResponseView {
        ResponseView {
            id: self.request_id,
            payload: PayloadView::Preview { lines: self.preview_buffer },
        }
    }

    /// The response that carries the running count.
    pub open spec fn progress(self) -> ResponseView {
        ResponseView {
            id: self.request_id,
            payload: PayloadView::Progress { total: self.line_count },
        }
    }

    /// The response that ends a run whose output was read to its end. It holds
    /// the buffered lines where no preview carried them before.
    pub open spec fn summary(self) -> ResponseView {
        ResponseView {
            id: self.request_id,
            payload: PayloadView::Final {
                total: self.line_count,
                lines: if self.preview_sent {
                    None
                } else {
                    Some(self.preview_buffer)
                },
            },
        }
    }

    /// The response that reports a failure.
    pub open spec fn failure(self, err: RunErrorView) -> ResponseView {
        ResponseView { id: self.request_id, payload: PayloadView::Error { message: err.message() } }
    }

    /// The state after a failure: the stop signal is set, and the run has
    /// failed unless it was completed before.
    pub open spec fn failed(self) -> RunView {
        RunView {
            phase: if self.phase == Phase::Completed {
                Phase::Completed
            } else {
                Phase::Failed
            },
            stop: true,
            ..self
        }
    }

    /// The state after an event.
    pub open spec fn step(self, event: EventView) -> RunView {
        match event {
            EventView::Spawned => if self.phase == Phase::Spawning {
                RunView { phase: Phase::Running, ..self }
            } else {
                self
            },
            EventView::Line(line) => if self.phase == Phase::Running {
                self.with_line(line)
            } else {
                self
            },
            EventView::EndOfStream => if self.phase == Phase::Running {
                RunView { phase: Phase::Completed, stop: true, ..self }
            } else {
                self
            },
            EventView::Tick => self,
            EventView::Failure(_) => self.failed(),
        }
    }

    /// The response that an event calls for.
    pub open spec fn emits(self, event: EventView) -> Option<ResponseView> {
        match event {
            EventView::Spawned => None,
            EventView::Line(_) => if self.phase == Phase::Running && self.releases_preview() {
                Some(self.preview())
            } else {
                None
            },
            EventView::EndOfStream => if self.phase == Phase::Running {
                Some(self.summary())
            } else {
                None
            },
            EventView::Tick => if self.phase == Phase::Running {
                Some(self.progress())
            } else {
                None
            },
            EventView::Failure(err) => Some(self.failure(err)),
        }
    }

    /// The state after a sequence of events.
    pub open spec fn after(self, events: Seq<EventView>) -> RunView
        decreases events.len(),
    {
        if events.len() == 0 {
            self
        } else {
            self.after(events.drop_last()).step(events.last())
        }
    }

    /// The responses that a sequence of events calls for, in their order.
    pub open spec fn responses(self, events: Seq<EventView>) -> Seq<ResponseView>
        decreases events.len(),
    {
        if events.len() == 0 {
            Seq::empty()
        } else {
            let earlier = self.responses(events.drop_last());
            match self.after(events.drop_last()).emits(events.last()) {
                Some(r) => earlier.push(r),
                None => earlier,
            }
        }
    }
}

/// One more event at the end of a sequence is one more step.
pub proof fn lemma_after_push(s: RunView, events: Seq<EventView>, event: EventView)
    ensures
        s.after(events.push(event)) == s.after(events).step(event),
        s.responses(events.push(event)) == match s.after(events).emits(event) {
            Some(r) => s.responses(events).push(r),
            None => s.responses(events),
        },
{
    assert(events.push(event).drop_last() =~= events);
}

/// One run of a command.
pub struct Run {
    /// The request that the run answers.
    request_id: u64,
    /// Where the run stands.
    phase: Phase,
    /// The number of lines seen so far.
    line_count: usize,
    /// Tells the reporter to stop.
    stop: bool,
    /// The first lines of the output, up to the size of a preview.
    preview_buffer: Vec<String>,
    /// Whether the preview has been sent.
    preview_sent: bool,
}

impl View for Run {
    type V = RunView;

    closed spec fn view(&self) -> RunView {
        RunView {
            request_id: self.request_id,
            phase: self.phase,
            line_count: self.line_count as nat,
            stop: self.stop,
            preview_buffer: texts(self.preview_buffer@),
            preview_sent: self.preview_sent,
        }
    }
}

fn copy_lines(lines: &Vec<String>) -> (copy: Vec<String>)
    ensures
        copy@ == lines@,
{
    let mut copy: Vec<String> = Vec::new();
    let mut i: usize = 0;
    while i < lines.len()
        invariant
            i <= lines.len(),
            copy@ == lines@.take(i as int),
        decreases lines.len() - i,
    {
        copy.push(lines[i].clone());
        i += 1;
    }
    copy
}

impl Run {
    /// A run for the request `request_id`, before its child process exists.
    pub fn new(request_id: u64) -> (run: Run)
        ensures
            run@ == RunView::initial(request_id),
            run@.wf(),
    {
        Run {
            request_id,
            phase: Phase::Spawning,
            line_count: 0,
            stop: false,
            preview_buffer: Vec::new(),
            preview_sent: false,
        }
    }

    /// The child process was created: the run is running.
    pub fn on_spawned(&mut self)
        ensures
            final(self)@ == old(self)@.step(EventView::Spawned),
            old(self)@.wf() ==> final(self)@.wf(),
    {
        if self.phase == Phase::Spawning {
            self.phase = Phase::Running;
        }
    }

    /// The child process wrote a line. While the run is running the line is
    /// counted; it is buffered while the buffer has room, and the first line
    /// that finds the buffer full releases the preview.
    pub fn on_line(&mut self, line: String) -> (r: Option<Response>)
        ensures
            final(self)@ == old(self)@.step(EventView::Line(line@)),
            emitted(r) == old(self)@.emits(EventView::Line(line@)),
            old(self)@.wf() ==> final(self)@.wf(),
    {
        if self.phase != Phase::Running {
            return None;
        }
        let seen_before = self.line_count;
        if seen_before < usize::MAX {
            self.line_count = seen_before + 1;
        }
        if self.preview_sent {
            None
        } else if seen_before < PREVIEW_LINES {
            self.preview_buffer.push(line);
            None
        } else {
            self.preview_sent = true;
            let lines = copy_lines(&self.preview_buffer);
            Some(Response { id: self.request_id, payload: Payload::Preview { lines } })
        }
    }

    /// The output of the child process ended. A running run sets the stop
    /// signal, is completed, and owes the final response.
    pub fn on_end_of_stream(&mut self) -> (r: Option<Response>)
        ensures
            final(self)@ == old(self)@.step(EventView::EndOfStream),
            emitted(r) == old(self)@.emits(EventView::EndOfStream),
            old(self)@.wf() ==> final(self)@.wf(),
    {
        if self.phase != Phase::Running {
            return None;
        }
        self.stop = true;
        self.phase = Phase::Completed;
        let lines = if self.preview_sent {
            None
        } else {
            Some(copy_lines(&self.preview_buffer))
        };
        Some(Response {
            id: self.request_id,
            payload: Payload::Final { total: self.line_count, lines },
        })
    }

    /// The reporter's interval elapsed. A running run owes the running count;
    /// on any other run the reporter has nothing to send and ends.
    pub fn on_tick(&self) -> (r: Option<Response>)
        ensures
            emitted(r) == self@.emits(EventView::Tick),
    {
        if self.phase == Phase::Running {
            Some(Response {
                id: self.request_id,
                payload: Payload::Progress { total: self.line_count },
            })
        } else {
            None
        }
    }

    /// Something went wrong. The failure is reported, the stop signal is set,
    /// and the run has failed unless it was completed before.
    pub fn on_failure(&mut self, err: RunError) -> (r: Response)
        ensures
            final(self)@ == old(self)@.step(EventView::Failure(err@)),
            Some(r@) == old(self)@.emits(EventView::Failure(err@)),
            old(self)@.wf() ==> final(self)@.wf(),
    {
        if self.phase != Phase::Completed {
            self.phase = Phase::Failed;
        }
        self.stop = true;
        Response { id: self.request_id, payload: Payload::Error { message: err.message() } }
    }

    /// The request that the run answers.
    pub fn request_id(&self) -> (id: u64)
        ensures
            id == self@.request_id,
    {
        self.request_id
    }

    /// Where the run stands.
    pub fn phase(&self) -> (phase: Phase)
        ensures
            phase == self@.phase,
    {
        self.phase
    }

    /// The number of lines seen so far.
    pub fn line_count(&self) -> (count: usize)
        ensures
            count == self@.line_count,
    {
        self.line_count
    }

    /// Whether the reporter has been told to stop.
    pub fn stop(&self) -> (stop: bool)
        ensures
            stop == self@.stop,
    {
        self.stop
    }

    /// Whether the preview has been sent.
    pub fn preview_sent(&self) -> (sent: bool)
        ensures
            sent == self@.preview_sent,
    {
        self.preview_sent
    }

    /// The lines that are held for the preview.
    pub fn preview_buffer(&self) -> (lines: &Vec<String>)
        ensures
            texts(lines@) == self@.preview_buffer,
    {
        &self.preview_buffer
    }

    /// Takes one event and returns the response that it calls for.
    pub fn step(&mut self, event: Event) -> (r: Option<Response>)
        ensures
            final(self)@ == old(self)@.step(event@),
            emitted(r) == old(self)@.emits(event@),
            old(self)@.wf() ==> final(self)@.wf(),
    {
        match event {
            Event::Spawned => {
                self.on_spawned();
                None
            },
            Event::Line(line) => self.on_line(line),
            Event::EndOfStream => self.on_end_of_stream(),
            Event::Tick => self.on_tick(),
            Event::Failure(err) => Some(self.on_failure(err)),
        }
    }

    /// Takes a sequence of events and returns the responses that they call for,
    /// in their order.
    pub fn feed(&mut self, events: Vec<Event>) -> (out: Vec<Response>)
        ensures
            final(self)@ == old(self)@.after(event_views(events@)),
            response_views(out@) == old(self)@.responses(event_views(events@)),
            old(self)@.wf() ==> final(self)@.wf(),
    {
        let ghost all = event_views(events@);
        let ghost start = self@;
        let mut out: Vec<Response> = Vec::new();
        for event in it: events
            invariant
                all == event_views(it.seq()),
                self@ == start.after(all.take(it.index() as int)),
                response_views(out@) == start.responses(all.take(it.index() as int)),
                start.wf() ==> self@.wf(),
        {
            proof {
                lemma_after_push(start, all.take(it.index() as int), event@);
                assert(all.take(it.index() + 1) =~= all.take(it.index() as int).push(event@));
            }
            if let Some(r) = self.step(event) {
                out.push(r);
            }
        }
        assert(all.take(all.len() as int) =~= all);
        out
    }
}

} // verus!
