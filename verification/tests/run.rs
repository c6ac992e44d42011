use stream_runner::response::{Payload, Response};
use stream_runner::run::{Event, Phase, Run, RunError, PREVIEW_LINES};

fn numbered(n: usize) -> Vec<String> {
    (0..n).map(|i| format!("line {}", i)).collect()
}

fn reading(lines: &[String]) -> Vec<Event> {
    let mut events = vec![Event::Spawned];
    events.extend(lines.iter().map(|l| Event::Line(l.clone())));
    events.push(Event::EndOfStream);
    events
}

fn totals(responses: &[Response]) -> Vec<usize> {
    responses
        .iter()
        .filter_map(|r| match &r.payload {
            Payload::Progress { total } => Some(*total),
            _ => None,
        })
        .collect()
}

fn without_progress(responses: Vec<Response>) -> Vec<Response> {
    responses.into_iter().filter(|r| !matches!(r.payload, Payload::Progress { .. })).collect()
}

#[test]
fn three_lines_give_one_final_response_with_the_lines() {
    let lines = vec!["l1".to_string(), "l2".to_string(), "l3".to_string()];
    let mut run = Run::new(11);
    let out = run.feed(reading(&lines));
    assert_eq!(
        out,
        vec![Response { id: 11, payload: Payload::Final { total: 3, lines: Some(lines) } }]
    );
    assert_eq!(run.phase(), Phase::Completed);
    assert!(run.stop());
    assert!(!run.preview_sent());
}

#[test]
fn five_hundred_and_ten_lines_give_a_preview_and_a_bare_final_response() {
    let lines = numbered(510);
    let mut run = Run::new(4);
    let out = run.feed(reading(&lines));
    assert_eq!(
        out,
        vec![
            Response { id: 4, payload: Payload::Preview { lines: lines[..500].to_vec() } },
            Response { id: 4, payload: Payload::Final { total: 510, lines: None } },
        ]
    );
    assert!(run.stop());
    assert!(run.preview_sent());
}

#[test]
fn no_output_gives_a_final_response_without_a_line() {
    let mut run = Run::new(1);
    let out = run.feed(reading(&[]));
    assert_eq!(
        out,
        vec![Response { id: 1, payload: Payload::Final { total: 0, lines: Some(vec![]) } }]
    );
}

#[test]
fn exactly_a_preview_of_lines_sends_no_preview() {
    let lines = numbered(PREVIEW_LINES);
    let mut run = Run::new(2);
    let out = run.feed(reading(&lines));
    assert_eq!(
        out,
        vec![Response { id: 2, payload: Payload::Final { total: 500, lines: Some(lines) } }]
    );
    assert!(!run.preview_sent());
}

#[test]
fn the_line_after_the_buffer_is_full_releases_the_preview() {
    let lines = numbered(501);
    let mut run = Run::new(2);
    run.on_spawned();
    for line in &lines[..500] {
        assert_eq!(run.on_line(line.clone()), None);
    }
    assert!(!run.preview_sent());
    assert_eq!(run.preview_buffer().len(), 500);
    let released = run.on_line(lines[500].clone());
    assert_eq!(
        released,
        Some(Response { id: 2, payload: Payload::Preview { lines: lines[..500].to_vec() } })
    );
    assert!(run.preview_sent());
    assert_eq!(run.line_count(), 501);
    assert_eq!(run.preview_buffer().len(), 500);
    assert_eq!(run.on_line("one more".to_string()), None);
    assert_eq!(run.preview_buffer().len(), 500);
    assert_eq!(
        run.on_end_of_stream(),
        Some(Response { id: 2, payload: Payload::Final { total: 502, lines: None } })
    );
}

#[test]
fn a_failed_spawn_gives_a_single_error_and_nothing_after_it() {
    let mut run = Run::new(8);
    let out = run.feed(vec![
        Event::Failure(RunError::SpawnFailure("No such file or directory".to_string())),
        Event::Tick,
        Event::Line("stray".to_string()),
        Event::EndOfStream,
        Event::Tick,
    ]);
    assert_eq!(
        out,
        vec![Response {
            id: 8,
            payload: Payload::Error { message: "No such file or directory".to_string() },
        }]
    );
    assert_eq!(run.phase(), Phase::Failed);
    assert!(run.stop());
    assert_eq!(run.line_count(), 0);
}

#[test]
fn a_missing_output_handle_fails_the_run() {
    let mut run = Run::new(8);
    let r = run.on_failure(RunError::MissingOutputHandle);
    assert_eq!(
        r,
        Response {
            id: 8,
            payload: Payload::Error {
                message: "child did not have a handle to stdout".to_string(),
            },
        }
    );
    assert_eq!(run.phase(), Phase::Failed);
    run.on_spawned();
    assert_eq!(run.phase(), Phase::Failed);
}

#[test]
fn each_failure_reports_its_message() {
    assert_eq!(RunError::SpawnFailure("a".to_string()).message(), "a");
    assert_eq!(RunError::ChildWaitFailure("b".to_string()).message(), "b");
    assert_eq!(RunError::StreamReadFailure("c".to_string()).message(), "c");
    assert_eq!(
        RunError::MissingOutputHandle.message(),
        "child did not have a handle to stdout"
    );
}

#[test]
fn a_read_failure_ends_the_run_without_a_final_response() {
    let mut run = Run::new(6);
    let out = run.feed(vec![
        Event::Spawned,
        Event::Line("a".to_string()),
        Event::Failure(RunError::StreamReadFailure("broken pipe".to_string())),
        Event::Line("b".to_string()),
        Event::EndOfStream,
        Event::Tick,
    ]);
    assert_eq!(
        out,
        vec![Response { id: 6, payload: Payload::Error { message: "broken pipe".to_string() } }]
    );
    assert_eq!(run.phase(), Phase::Failed);
    assert!(run.stop());
    assert_eq!(run.line_count(), 1);
}

#[test]
fn a_wait_failure_while_running_fails_the_run() {
    let mut run = Run::new(6);
    run.on_spawned();
    let r = run.on_failure(RunError::ChildWaitFailure("wait failed".to_string()));
    assert_eq!(
        r,
        Response { id: 6, payload: Payload::Error { message: "wait failed".to_string() } }
    );
    assert_eq!(run.phase(), Phase::Failed);
    assert!(run.stop());
    assert_eq!(run.on_tick(), None);
    assert_eq!(run.on_end_of_stream(), None);
}

#[test]
fn a_wait_failure_after_the_end_is_reported_and_leaves_the_run_completed() {
    let mut run = Run::new(6);
    let out = run.feed(vec![
        Event::Spawned,
        Event::EndOfStream,
        Event::Failure(RunError::ChildWaitFailure("wait failed".to_string())),
    ]);
    assert_eq!(
        out,
        vec![
            Response { id: 6, payload: Payload::Final { total: 0, lines: Some(vec![]) } },
            Response { id: 6, payload: Payload::Error { message: "wait failed".to_string() } },
        ]
    );
    assert_eq!(run.phase(), Phase::Completed);
    assert!(run.stop());
}

#[test]
fn ticks_report_the_running_count_and_it_never_falls() {
    let mut run = Run::new(3);
    let out = run.feed(vec![
        Event::Spawned,
        Event::Tick,
        Event::Line("a".to_string()),
        Event::Line("b".to_string()),
        Event::Tick,
        Event::Tick,
        Event::Line("c".to_string()),
        Event::Tick,
        Event::EndOfStream,
        Event::Tick,
    ]);
    assert_eq!(totals(&out), vec![0, 2, 2, 3]);
    assert_eq!(
        out.last(),
        Some(&Response {
            id: 3,
            payload: Payload::Final {
                total: 3,
                lines: Some(vec!["a".to_string(), "b".to_string(), "c".to_string()]),
            },
        })
    );
}

#[test]
fn a_tick_reports_only_while_the_run_is_running() {
    let mut run = Run::new(3);
    assert_eq!(run.on_tick(), None);
    run.on_spawned();
    assert_eq!(run.on_tick(), Some(Response { id: 3, payload: Payload::Progress { total: 0 } }));
    run.on_line("x".to_string());
    assert_eq!(run.on_tick(), Some(Response { id: 3, payload: Payload::Progress { total: 1 } }));
    assert!(!run.stop());
    run.on_end_of_stream();
    assert!(run.stop());
    assert_eq!(run.on_tick(), None);
}

#[test]
fn lines_before_the_spawn_are_not_counted() {
    let mut run = Run::new(3);
    assert_eq!(run.on_line("early".to_string()), None);
    assert_eq!(run.on_end_of_stream(), None);
    assert_eq!(run.line_count(), 0);
    assert_eq!(run.phase(), Phase::Spawning);
    assert!(!run.stop());
}

#[test]
fn a_new_run_is_spawning_with_nothing_seen() {
    let run = Run::new(77);
    assert_eq!(run.request_id(), 77);
    assert_eq!(run.phase(), Phase::Spawning);
    assert_eq!(run.line_count(), 0);
    assert!(!run.stop());
    assert!(!run.preview_sent());
    assert!(run.preview_buffer().is_empty());
}

#[test]
fn the_same_output_gives_the_same_responses_wherever_the_ticks_fall() {
    let lines = numbered(505);
    let mut plain = Run::new(9);
    let first = plain.feed(reading(&lines));

    let mut events = vec![Event::Tick, Event::Spawned];
    for (i, line) in lines.iter().enumerate() {
        if i % 100 == 0 {
            events.push(Event::Tick);
        }
        events.push(Event::Line(line.clone()));
    }
    events.push(Event::Tick);
    events.push(Event::EndOfStream);
    events.push(Event::Tick);
    let mut ticking = Run::new(9);
    let second = ticking.feed(events);

    assert_eq!(totals(&second), vec![0, 100, 200, 300, 400, 500, 505]);
    assert_eq!(without_progress(second), first);
    assert_eq!(ticking.line_count(), plain.line_count());
}

#[test]
fn step_does_what_the_event_s_own_method_does() {
    let mut by_step = Run::new(5);
    let mut by_method = Run::new(5);
    assert_eq!(by_step.step(Event::Spawned), None);
    by_method.on_spawned();
    assert_eq!(by_step.step(Event::Line("a".to_string())), by_method.on_line("a".to_string()));
    assert_eq!(by_step.step(Event::Tick), by_method.on_tick());
    assert_eq!(by_step.step(Event::EndOfStream), by_method.on_end_of_stream());
    assert_eq!(
        by_step.step(Event::Failure(RunError::ChildWaitFailure("w".to_string()))),
        Some(by_method.on_failure(RunError::ChildWaitFailure("w".to_string())))
    );
    assert_eq!(by_step.phase(), by_method.phase());
}

#[test]
fn a_preview_holds_five_hundred_lines_and_a_tick_comes_every_thirty_milliseconds() {
    assert_eq!(PREVIEW_LINES, 500);
    assert_eq!(stream_runner::run::TICK_MILLIS, 30);
}
