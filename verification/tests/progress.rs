use serde_json::Value;
use snapdog_os_installer::pipeline::tail::{
    ProgressTail, MAX_PROGRESS_READ, MAX_PROGRESS_RECORD,
};
use snapdog_os_installer::pipeline::{validate_progress, WorkerRunnerError};
use snapdog_os_installer::worker::{
    JsonLineProgress, WorkerPhase, WorkerProgress, WORKER_PROGRESS_SCHEMA_VERSION,
};

const PHASES: [(WorkerPhase, &str); 10] = [
    (WorkerPhase::ValidatingImage, "validating_image"),
    (WorkerPhase::ValidatingTarget, "validating_target"),
    (WorkerPhase::Unmounting, "unmounting"),
    (WorkerPhase::Writing, "writing"),
    (WorkerPhase::Verifying, "verifying"),
    (WorkerPhase::Syncing, "syncing"),
    (WorkerPhase::Ejecting, "ejecting"),
    (WorkerPhase::Completed, "completed"),
    (WorkerPhase::Cancelled, "cancelled"),
    (WorkerPhase::Failed, "failed"),
];

fn event(phase: WorkerPhase) -> WorkerProgress {
    WorkerProgress {
        schema_version: WORKER_PROGRESS_SCHEMA_VERSION,
        phase,
        bytes_processed: None,
        total_bytes: None,
        raw_sha256: None,
        verified: (phase == WorkerPhase::Completed).then_some(true),
        message: None,
    }
}

fn encode(progress: &WorkerProgress) -> Vec<u8> {
    let name = PHASES
        .iter()
        .find(|(phase, _)| *phase == progress.phase)
        .unwrap()
        .1;
    let mut object = serde_json::Map::new();
    object.insert(
        "schema_version".to_owned(),
        Value::from(progress.schema_version),
    );
    object.insert("phase".to_owned(), Value::from(name));
    if let Some(verified) = progress.verified {
        object.insert("verified".to_owned(), Value::from(verified));
    }
    serde_json::to_vec(&Value::Object(object)).unwrap()
}

fn decode(record: &[u8]) -> Result<WorkerProgress, WorkerRunnerError> {
    let value: Value = serde_json::from_slice(record)
        .map_err(|error| WorkerRunnerError::InvalidProgress(error.to_string()))?;
    let name = value["phase"].as_str().unwrap();
    let phase = PHASES.iter().find(|(_, text)| *text == name).unwrap().0;
    let mut progress = event(phase);
    progress.schema_version = u32::try_from(value["schema_version"].as_u64().unwrap()).unwrap();
    progress.verified = value["verified"].as_bool();
    Ok(progress)
}

/// Reads everything that was written, and finishes.
fn finish(
    contents: &[u8],
    mut progress: impl FnMut(WorkerProgress),
) -> Result<(), WorkerRunnerError> {
    let mut tail = ProgressTail::new();
    let fed = tail.drain(&contents.to_vec());
    for record in &fed.records {
        let event = decode(record)?;
        tail.accept(&event)?;
        progress(event);
    }
    match fed.fault {
        Some(error) => Err(error),
        None => tail.finish(),
    }
}

fn emits_complete_json_lines() {
    let mut contents = Vec::new();
    contents.extend(JsonLineProgress::line(encode(&event(WorkerPhase::Writing))));
    contents.extend(JsonLineProgress::line(encode(&event(
        WorkerPhase::Completed,
    ))));

    let mut phases = Vec::new();
    finish(&contents, |progress| phases.push(progress.phase)).unwrap();

    assert_eq!(phases, [WorkerPhase::Writing, WorkerPhase::Completed]);
}

fn schema_mismatch() -> Result<(), WorkerRunnerError> {
    let mut progress = event(WorkerPhase::Writing);
    progress.schema_version += 1;
    finish(&JsonLineProgress::line(encode(&progress)), |_| {})
}

fn incomplete_record() -> Result<(), WorkerRunnerError> {
    finish(&encode(&event(WorkerPhase::Writing)), |_| {})
}

#[test]
fn linux_progress_tail_emits_complete_json_lines() {
    emits_complete_json_lines();
}

#[test]
fn macos_progress_tail_emits_complete_json_lines() {
    emits_complete_json_lines();
}

#[test]
fn windows_progress_tail_emits_complete_json_lines() {
    emits_complete_json_lines();
}

#[test]
fn progress_tail_rejects_schema_mismatch_and_incomplete_record() {
    assert!(matches!(
        schema_mismatch(),
        Err(WorkerRunnerError::InvalidProgress(_))
    ));
    assert!(matches!(
        incomplete_record(),
        Err(WorkerRunnerError::InvalidProgress(_))
    ));
}

#[test]
fn progress_tail_rejects_schema_mismatch() {
    let error = schema_mismatch().unwrap_err();

    assert!(matches!(error, WorkerRunnerError::InvalidProgress(_)));
}

#[test]
fn progress_tail_rejects_incomplete_final_record() {
    let error = incomplete_record().unwrap_err();

    assert!(matches!(error, WorkerRunnerError::InvalidProgress(_)));
}

#[test]
fn progress_tail_rejects_schema_mismatch_and_partial_records() {
    assert!(matches!(
        schema_mismatch(),
        Err(WorkerRunnerError::InvalidProgress(_))
    ));
    assert!(matches!(
        incomplete_record(),
        Err(WorkerRunnerError::InvalidProgress(_))
    ));
}

#[test]
fn json_line_sink_emits_parseable_single_line_events() {
    let bytes = JsonLineProgress::line(encode(&WorkerProgress::phase(WorkerPhase::Syncing)));
    assert!(bytes.ends_with(b"\n"));
    assert!(!bytes[..bytes.len() - 1].contains(&b'\n'));
    let event = decode(&bytes).unwrap();
    assert_eq!(event.phase, WorkerPhase::Syncing);
}

#[test]
fn record_may_come_in_pieces() {
    let mut tail = ProgressTail::new();
    assert!(tail.drain(&b"{\"a\"".to_vec()).records.is_empty());
    assert!(tail.finish().is_err());
    let fed = tail.drain(&b":1}\n \t\n\n{".to_vec());
    assert_eq!(fed.records, [b"{\"a\":1}".to_vec()]);
    assert!(fed.fault.is_none());
    assert!(!tail.saw_event());
    tail.accept(&event(WorkerPhase::Writing)).unwrap();
    assert!(tail.saw_event());
    let fed = tail.drain(&b"}\n".to_vec());
    assert_eq!(fed.records, [b"{}".to_vec()]);
    assert!(tail.finish().is_ok());
}

#[test]
fn oversized_progress_is_refused() {
    let mut tail = ProgressTail::new();
    let fed = tail.drain(&vec![b'x'; MAX_PROGRESS_READ + 1]);
    assert_eq!(
        fed.fault.unwrap().message(),
        "worker emitted invalid JSON-lines progress: worker progress grew too quickly"
    );

    let mut tail = ProgressTail::new();
    let mut chunk = b"{}\n".to_vec();
    chunk.extend(vec![b'x'; MAX_PROGRESS_RECORD + 1]);
    chunk.extend(b"\n{}\n");
    let fed = tail.drain(&chunk);
    assert_eq!(fed.records, [b"{}".to_vec()]);
    assert_eq!(
        fed.fault.unwrap().message(),
        "worker emitted invalid JSON-lines progress: worker progress record is too large"
    );

    let mut tail = ProgressTail::new();
    assert!(tail
        .drain(&vec![b'x'; MAX_PROGRESS_RECORD + 1])
        .fault
        .is_some());
    let mut tail = ProgressTail::new();
    assert!(tail.drain(&vec![b'x'; MAX_PROGRESS_RECORD]).fault.is_none());
}

#[test]
fn unsupported_schema_is_named() {
    let mut progress = event(WorkerPhase::Writing);
    progress.schema_version = 7;
    assert_eq!(
        validate_progress(&progress).unwrap_err().message(),
        "worker emitted invalid JSON-lines progress: unsupported worker progress schema 7"
    );
}
