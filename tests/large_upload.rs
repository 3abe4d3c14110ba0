use blog_upload::large_upload::{
    takes_single_shot, LargeUpload, PartSizes, Stage, UploadError, UploadEvent, UploadStep,
};
use sha1::Sha1;
use sha2::{Digest, Sha256};

fn sizes() -> PartSizes {
    PartSizes { min_part_size: 5, recommended_part_size: 10 }
}

fn sha256_upper(data: &[u8]) -> String {
    format!("{:X}", Sha256::digest(data))
}

fn sha1_upper(data: &[u8]) -> String {
    format!("{:X}", Sha1::digest(data))
}

fn source(len: usize) -> Vec<u8> {
    (0..len).map(|i| (i * 7 % 251) as u8).collect()
}

/// What a driver saw while running an upload to its end.
#[derive(Default)]
struct Trace {
    blobs: Vec<Vec<u8>>,
    starts: usize,
    parts: Vec<(usize, Vec<u8>, String)>,
    finishes: Vec<Vec<String>>,
    cancels: usize,
    outcome: Option<Result<String, UploadError>>,
}

/// Runs an upload of `data`, read in chunks of `chunk` bytes; the part whose
/// number is `failing_part` fails, and so does the cancellation when
/// `cancel_fails` (which the driver does not report).
fn run(declared: i64, data: &[u8], chunk: usize, failing_part: Option<usize>) -> Trace {
    run_with(sizes(), declared, data, chunk, failing_part)
}

fn run_with(
    sizes: PartSizes,
    declared: i64,
    data: &[u8],
    chunk: usize,
    failing_part: Option<usize>,
) -> Trace {
    let (mut upload, mut step) = LargeUpload::new(declared, sizes);
    let mut trace = Trace::default();
    let mut offset = 0;
    loop {
        let event = match step {
            UploadStep::ReadMore => {
                if offset == data.len() {
                    UploadEvent::EndOfSource
                } else {
                    let end = usize::min(offset + chunk, data.len());
                    let bytes = data[offset..end].to_vec();
                    offset = end;
                    UploadEvent::Bytes(bytes)
                }
            }
            UploadStep::UploadBlob { data } => {
                trace.blobs.push(data);
                UploadEvent::Acknowledged
            }
            UploadStep::StartLargeUpload => {
                trace.starts += 1;
                UploadEvent::Started("file-1".to_string())
            }
            UploadStep::UploadPart { file_id, part_number, data, sha1 } => {
                assert_eq!(file_id, "file-1");
                trace.parts.push((part_number, data, sha1));
                if failing_part == Some(part_number) {
                    UploadEvent::CallFailed("connection reset".to_string())
                } else {
                    UploadEvent::Acknowledged
                }
            }
            UploadStep::FinishLargeUpload { file_id, part_sha1s } => {
                assert_eq!(file_id, "file-1");
                trace.finishes.push(part_sha1s);
                UploadEvent::Acknowledged
            }
            UploadStep::CancelLargeUpload { file_id } => {
                assert_eq!(file_id, "file-1");
                trace.cancels += 1;
                UploadEvent::Cancelled
            }
            UploadStep::Complete { sha256 } => {
                trace.outcome = Some(Ok(sha256));
                assert_eq!(upload.stage(), Stage::Done);
                return trace;
            }
            UploadStep::Fail { error } => {
                trace.outcome = Some(Err(error));
                assert_eq!(upload.stage(), Stage::Failed);
                return trace;
            }
        };
        assert!(upload.accepts(&event));
        step = upload.step(event);
    }
}

#[test]
fn small_source_takes_one_blob_upload() {
    let data = source(12);
    let trace = run(12, &data, 4, None);
    assert_eq!(trace.blobs, vec![data.clone()]);
    assert_eq!(trace.starts, 0);
    assert!(trace.parts.is_empty());
    assert!(trace.finishes.is_empty());
    assert_eq!(trace.cancels, 0);
    assert_eq!(trace.outcome, Some(Ok(sha256_upper(&data))));
}

#[test]
fn source_at_the_limit_is_single_shot() {
    assert!(takes_single_shot(15, sizes()));
    assert!(!takes_single_shot(16, sizes()));
    let data = source(15);
    let trace = run(15, &data, 15, None);
    assert_eq!(trace.blobs.len(), 1);
    assert_eq!(trace.starts, 0);
}

#[test]
fn one_byte_over_the_limit_is_multi_part() {
    let data = source(16);
    let trace = run(16, &data, 4, None);
    assert!(trace.blobs.is_empty());
    assert_eq!(trace.starts, 1);
    assert_eq!(trace.parts.len(), 2);
    assert_eq!(trace.parts[0].1.len(), 10);
    assert_eq!(trace.parts[1].1.len(), 6);
}

#[test]
fn negative_declared_length_is_single_shot() {
    assert!(takes_single_shot(-1, sizes()));
}

#[test]
fn multi_part_upload_sends_ordered_parts_then_finishes() {
    let data = source(35);
    let trace = run(35, &data, 4, None);
    assert!(trace.blobs.is_empty());
    assert_eq!(trace.starts, 1);
    let n = trace.parts.len();
    assert!(n >= 3);
    for (i, (number, bytes, sha1)) in trace.parts.iter().enumerate() {
        assert_eq!(*number, i + 1);
        assert_eq!(*sha1, sha1_upper(bytes));
    }
    assert_eq!(trace.finishes.len(), 1);
    let expected: Vec<String> = trace.parts.iter().map(|p| p.2.clone()).collect();
    assert_eq!(trace.finishes[0], expected);
    assert_eq!(trace.cancels, 0);
}

#[test]
fn whole_digest_is_digest_of_joined_parts() {
    let data = source(40);
    let trace = run(40, &data, 3, None);
    assert!(trace.parts.len() >= 3);
    let joined: Vec<u8> = trace.parts.iter().flat_map(|p| p.1.clone()).collect();
    assert_eq!(joined, data);
    assert_eq!(trace.outcome, Some(Ok(sha256_upper(&joined))));
}

#[test]
fn all_but_the_last_part_have_the_recommended_size() {
    let data = source(35);
    let trace = run(35, &data, 4, None);
    let n = trace.parts.len();
    for p in &trace.parts[..n - 1] {
        assert_eq!(p.1.len(), 10);
    }
    assert!(trace.parts[n - 1].1.len() > 0);
}

#[test]
fn failed_second_part_cancels_once_and_reports_its_error() {
    let data = source(35);
    let trace = run(35, &data, 4, Some(2));
    assert_eq!(trace.parts.len(), 2);
    assert_eq!(trace.cancels, 1);
    assert!(trace.finishes.is_empty());
    assert_eq!(
        trace.outcome,
        Some(Err(UploadError::Transport("connection reset".to_string())))
    );
}

#[test]
fn source_shorter_than_declared_is_an_invariant_failure() {
    let data = source(8);
    let trace = run(100, &data, 4, None);
    assert_eq!(trace.starts, 1);
    assert!(trace.parts.is_empty());
    assert_eq!(trace.cancels, 1);
    assert!(trace.finishes.is_empty());
    assert_eq!(trace.outcome, Some(Err(UploadError::EndedOnFirstPart)));
}

#[test]
fn failed_start_fails_without_cancelling() {
    let (mut upload, step) = LargeUpload::new(100, sizes());
    assert!(matches!(step, UploadStep::StartLargeUpload));
    let step = upload.step(UploadEvent::CallFailed("unauthorized".to_string()));
    match step {
        UploadStep::Fail { error } => {
            assert_eq!(error, UploadError::Transport("unauthorized".to_string()))
        }
        _ => panic!("expected a failure"),
    }
    assert!(!upload.accepts(&UploadEvent::Cancelled));
}

#[test]
fn failed_blob_upload_reports_its_error() {
    let (mut upload, _) = LargeUpload::new(3, sizes());
    upload.step(UploadEvent::Bytes(vec![1, 2, 3]));
    let step = upload.step(UploadEvent::EndOfSource);
    assert!(matches!(step, UploadStep::UploadBlob { .. }));
    match upload.step(UploadEvent::CallFailed("timeout".to_string())) {
        UploadStep::Fail { error } => assert_eq!(error, UploadError::Transport("timeout".to_string())),
        _ => panic!("expected a failure"),
    }
}

#[test]
fn failed_finish_cancels_the_session() {
    let (mut upload, _) = LargeUpload::new(30, sizes());
    upload.step(UploadEvent::Started("f".to_string()));
    let mut step = upload.step(UploadEvent::Bytes(source(16)));
    assert!(matches!(step, UploadStep::UploadPart { part_number: 1, .. }));
    step = upload.step(UploadEvent::Acknowledged);
    assert!(matches!(step, UploadStep::ReadMore));
    step = upload.step(UploadEvent::EndOfSource);
    assert!(matches!(step, UploadStep::UploadPart { part_number: 2, .. }));
    step = upload.step(UploadEvent::Acknowledged);
    assert!(matches!(step, UploadStep::FinishLargeUpload { .. }));
    step = upload.step(UploadEvent::CallFailed("bad digest".to_string()));
    assert!(matches!(step, UploadStep::CancelLargeUpload { .. }));
    match upload.step(UploadEvent::Cancelled) {
        UploadStep::Fail { error } => assert_eq!(error, UploadError::Transport("bad digest".to_string())),
        _ => panic!("expected a failure"),
    }
}

#[test]
fn single_shot_limit_adds_both_sizes() {
    assert_eq!(sizes().single_shot_limit(), 15);
}

#[test]
fn source_of_106_bytes_splits_into_100_and_6() {
    let data = source(106);
    let sizes = PartSizes { min_part_size: 5, recommended_part_size: 100 };
    let trace = run_with(sizes, 106, &data, 106, None);
    assert!(trace.blobs.is_empty());
    assert_eq!(trace.starts, 1);
    assert_eq!(trace.parts.len(), 2);
    assert_eq!(trace.parts[0].0, 1);
    assert_eq!(trace.parts[0].1, data[..100].to_vec());
    assert_eq!(trace.parts[1].0, 2);
    assert_eq!(trace.parts[1].1, data[100..].to_vec());
    assert_eq!(trace.finishes.len(), 1);
    assert_eq!(trace.finishes[0].len(), 2);
    assert_eq!(trace.outcome, Some(Ok(sha256_upper(&data))));
}

#[test]
fn read_failure_during_a_session_cancels_it() {
    let (mut upload, _) = LargeUpload::new(100, sizes());
    upload.step(UploadEvent::Started("f".to_string()));
    let step = upload.step(UploadEvent::Bytes(source(16)));
    assert!(matches!(step, UploadStep::UploadPart { part_number: 1, .. }));
    upload.step(UploadEvent::Acknowledged);
    let step = upload.step(UploadEvent::ReadFailed("disk gone".to_string()));
    match step {
        UploadStep::CancelLargeUpload { file_id } => assert_eq!(file_id, "f"),
        _ => panic!("expected a cancellation"),
    }
    match upload.step(UploadEvent::Cancelled) {
        UploadStep::Fail { error } => {
            assert_eq!(error, UploadError::ReadFailed("disk gone".to_string()))
        }
        _ => panic!("expected a failure"),
    }
}

#[test]
fn read_failure_before_a_blob_upload_fails_without_calls() {
    let (mut upload, _) = LargeUpload::new(10, sizes());
    upload.step(UploadEvent::Bytes(vec![1, 2]));
    match upload.step(UploadEvent::ReadFailed("disk gone".to_string())) {
        UploadStep::Fail { error } => {
            assert_eq!(error, UploadError::ReadFailed("disk gone".to_string()))
        }
        _ => panic!("expected a failure"),
    }
    assert_eq!(upload.stage(), Stage::Failed);
}
