use mycelial::frame::CellValue;
use mycelial::payload::BacalhauPayload;
use mycelial::section_loop::{step, ChunkEvent, Command, LoopAction, LoopError, LoopEvent, LoopState};

type Ev = LoopEvent<String>;
type Act = LoopAction<String>;

fn run(events: Vec<Ev>) -> (LoopState, Vec<Act>) {
    let mut state = LoopState::AwaitingInput;
    let mut actions = Vec::new();
    for e in events {
        let (s, a) = step(state, e);
        state = s;
        actions.push(a);
    }
    (state, actions)
}

fn frame(first: CellValue) -> Ev {
    LoopEvent::Chunk(Ok(Some(ChunkEvent::DataFrame {
        columns: vec![vec![first], vec![CellValue::Other]],
        rendered: "<table>".into(),
    })))
}

fn log_text(a: &Act) -> &str {
    match a {
        LoopAction::Log(s) => s,
        _ => panic!("expected a log action"),
    }
}

#[test]
fn stop_command_ends_ok() {
    let (state, acts) = run(vec![LoopEvent::Command(Ok(Command::Stop))]);
    assert!(matches!(state, LoopState::Finished));
    assert!(matches!(acts[0], LoopAction::Return(Ok(()))));
}

#[test]
fn other_command_is_ignored() {
    let (state, acts) = run(vec![LoopEvent::Command(Ok(Command::Other))]);
    assert!(matches!(state, LoopState::AwaitingInput));
    assert!(matches!(acts[0], LoopAction::AwaitCommandOrInput));
}

#[test]
fn command_error_is_returned() {
    let (_, acts) = run(vec![LoopEvent::Command(Err("boom".into()))]);
    match &acts[0] {
        LoopAction::Return(Err(LoopError::Section(e))) => assert_eq!(e, "boom"),
        _ => panic!("expected the error"),
    }
}

#[test]
fn closed_input_is_an_error() {
    let (state, acts) = run(vec![LoopEvent::Input(None)]);
    assert!(matches!(state, LoopState::Finished));
    assert!(matches!(acts[0], LoopAction::Return(Err(LoopError::InputStreamClosed))));
}

#[test]
fn string_frame_is_logged_submitted_and_acked() {
    let (state, acts) = run(vec![
        LoopEvent::Input(Some("src".into())),
        frame(CellValue::Str("/data/a.csv".into())),
        LoopEvent::Logged(Ok(())),
        LoopEvent::Logged(Ok(())),
        LoopEvent::Submitted(Ok(())),
        LoopEvent::Acked,
        LoopEvent::Chunk(Ok(None)),
        LoopEvent::Command(Ok(Command::Stop)),
    ]);
    assert!(matches!(acts[0], LoopAction::AwaitChunk));
    assert_eq!(log_text(&acts[1]), "got dataframe chunk from src:\n<table>");
    assert_eq!(log_text(&acts[2]), "got string: /data/a.csv");
    assert!(matches!(acts[3], LoopAction::SubmitJob));
    assert!(matches!(acts[4], LoopAction::Ack));
    assert!(matches!(acts[5], LoopAction::AwaitChunk));
    assert!(matches!(acts[6], LoopAction::AwaitCommandOrInput));
    assert!(matches!(acts[7], LoopAction::Return(Ok(()))));
    assert!(matches!(state, LoopState::Finished));
}

#[test]
fn non_string_frame_is_skipped_without_submit() {
    let (state, acts) = run(vec![
        LoopEvent::Input(Some("src".into())),
        frame(CellValue::Other),
        LoopEvent::Logged(Ok(())),
    ]);
    assert_eq!(log_text(&acts[1]), "got dataframe chunk from src:\n<table>");
    assert!(matches!(acts[2], LoopAction::AwaitChunk));
    match state {
        LoopState::ReadingChunks { origin } => assert_eq!(origin, "src"),
        _ => panic!("expected to keep reading"),
    }
}

#[test]
fn other_chunks_are_skipped() {
    let (_, acts) = run(vec![LoopEvent::Input(Some("src".into())), LoopEvent::Chunk(Ok(Some(ChunkEvent::Other)))]);
    assert!(matches!(acts[1], LoopAction::AwaitChunk));
}

#[test]
fn errors_while_reading_end_the_loop() {
    let (_, acts) = run(vec![LoopEvent::Input(Some("s".into())), LoopEvent::Chunk(Err("bad chunk".into()))]);
    assert!(matches!(&acts[1], LoopAction::Return(Err(LoopError::Section(e))) if e == "bad chunk"));

    let (_, acts) = run(vec![LoopEvent::Input(Some("s".into())), frame(CellValue::Other), LoopEvent::Logged(Err("log".into()))]);
    assert!(matches!(&acts[2], LoopAction::Return(Err(LoopError::Section(e))) if e == "log"));

    let (_, acts) = run(vec![
        LoopEvent::Input(Some("s".into())),
        frame(CellValue::Str("x".into())),
        LoopEvent::Logged(Ok(())),
        LoopEvent::Logged(Err("log2".into())),
    ]);
    assert!(matches!(&acts[3], LoopAction::Return(Err(LoopError::Section(e))) if e == "log2"));

    let (state, acts) = run(vec![
        LoopEvent::Input(Some("s".into())),
        frame(CellValue::Str("x".into())),
        LoopEvent::Logged(Ok(())),
        LoopEvent::Logged(Ok(())),
        LoopEvent::Submitted(Err("submit".into())),
    ]);
    assert!(matches!(&acts[4], LoopAction::Return(Err(LoopError::Section(e))) if e == "submit"));
    assert!(matches!(state, LoopState::Finished));
}

#[test]
fn payload_frame_submits_its_filepath() {
    let payload = BacalhauPayload::new("/in/file.txt".into());
    let (_, acts) = run(vec![
        LoopEvent::Input(Some("origin".into())),
        LoopEvent::Chunk(Ok(Some(ChunkEvent::DataFrame {
            columns: payload.columns().into_iter().map(|c| c.values).collect(),
            rendered: "r".into(),
        }))),
        LoopEvent::Logged(Ok(())),
        LoopEvent::Logged(Ok(())),
        LoopEvent::Submitted(Ok(())),
    ]);
    assert_eq!(log_text(&acts[1]), "got dataframe chunk from origin:\nr");
    assert_eq!(log_text(&acts[2]), "got string: /in/file.txt");
    assert!(matches!(acts[3], LoopAction::SubmitJob));
    assert!(matches!(acts[4], LoopAction::Ack));
}

#[test]
fn frame_without_values_is_logged_then_a_log_error_returns() {
    let empty = LoopEvent::Chunk(Ok(Some(ChunkEvent::DataFrame { columns: vec![], rendered: "none".into() })));
    let (state, acts) = run(vec![LoopEvent::Input(Some("src".into())), empty, LoopEvent::Logged(Err("log".into()))]);
    assert_eq!(log_text(&acts[1]), "got dataframe chunk from src:\nnone");
    assert!(matches!(&acts[2], LoopAction::Return(Err(LoopError::Section(e))) if e == "log"));
    assert!(matches!(state, LoopState::Finished));
}

#[test]
fn loop_error_text() {
    let closed: LoopError<String> = LoopError::InputStreamClosed;
    assert_eq!(closed.message(), Some("input stream closed".to_string()));
    let failed: LoopError<String> = LoopError::Section("x".into());
    assert_eq!(failed.message(), None);
}

