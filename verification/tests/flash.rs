use std::io::{Read, Write};

use flate2::read::GzDecoder;
use flate2::write::GzEncoder;
use flate2::Compression;
use sha2::{Digest, Sha256};
use snapdog_os_installer::flash::gzip::GzipAction;
use snapdog_os_installer::flash::prepare::PrepareAction;
use snapdog_os_installer::flash::raw::{same_digest, FlashWriteOptions, Wishes, WriteAction};
use snapdog_os_installer::flash::{
    digest_is_accepted, flash_gzip, prepare_gzip, verify_archive, verify_digest,
    verify_file_sha256, write_raw, AccessEvent, FileCheck, FlashError, FlashProgress, FlashReport, FlashStage, PreparedImage, BUFFER_SIZE,
};

fn archive(payload: &[u8]) -> Vec<u8> {
    let mut encoder = GzEncoder::new(Vec::new(), Compression::default());
    encoder.write_all(payload).unwrap();
    encoder.finish().unwrap()
}

fn next_chunk(reader: &mut dyn Read, limit: usize) -> Vec<u8> {
    let mut buffer = vec![0_u8; limit];
    let count = reader.read(&mut buffer).unwrap();
    buffer.truncate(count);
    buffer
}

/// A target in memory, and where it stands.
struct Target {
    bytes: Vec<u8>,
    position: usize,
}

impl Target {
    fn new(length: usize) -> Target {
        Target {
            bytes: vec![0_u8; length],
            position: 0,
        }
    }

    fn write(&mut self, chunk: &[u8]) {
        self.bytes[self.position..self.position + chunk.len()].copy_from_slice(chunk);
        self.position += chunk.len();
    }

    fn read(&mut self, limit: usize) -> Vec<u8> {
        let end = (self.position + limit).min(self.bytes.len());
        let chunk = self.bytes[self.position..end].to_vec();
        self.position = end;
        chunk
    }
}

fn run_gzip(
    compressed: &[u8],
    target: &mut Target,
    capacity: u64,
    verify: bool,
    cancelled: bool,
) -> Result<FlashReport, FlashError> {
    let mut reader = GzDecoder::new(compressed);
    let mut flash = flash_gzip(capacity, None, verify);
    let mut chunk = Vec::new();
    let mut event = AccessEvent::Done;
    loop {
        event = match flash.step(&event, cancelled) {
            GzipAction::Read => {
                chunk = next_chunk(&mut reader, BUFFER_SIZE);
                AccessEvent::Chunk(chunk.clone())
            }
            GzipAction::Write => {
                target.write(&chunk);
                AccessEvent::Done
            }
            GzipAction::Flush => AccessEvent::Done,
            GzipAction::Rewind => {
                target.position = 0;
                AccessEvent::Done
            }
            GzipAction::ReadBack(limit) => AccessEvent::Chunk(target.read(limit)),
            GzipAction::Finish(report) => return Ok(report),
            GzipAction::Fail(error) => return Err(error),
        };
    }
}

#[test]
fn writes_and_verifies_file_backed_target() {
    let payload = b"snapdog image".repeat(4096);
    let archive = archive(&payload);
    let mut target = Target::new(payload.len());
    let report = run_gzip(&archive, &mut target, payload.len() as u64, true, false).unwrap();
    assert!(report.verified);
    assert_eq!(report.bytes_written, payload.len() as u64);
    assert_eq!(&target.bytes[..payload.len()], payload);
}

#[test]
fn refuses_target_that_is_too_small() {
    let payload = b"too large".repeat(1024);
    let archive = archive(&payload);
    let mut target = Target::new(payload.len());
    let result = run_gzip(&archive, &mut target, 100, false, false);
    assert!(matches!(result, Err(FlashError::TargetTooSmall)));
}

#[test]
fn cancellation_happens_before_writing() {
    let archive = archive(b"payload");
    let mut target = Target::new(64);
    let result = run_gzip(&archive, &mut target, 64, true, true);
    assert!(matches!(result, Err(FlashError::Cancelled)));
    assert_eq!(target.position, 0);
}

/// What a preparation leaves behind.
struct Prepared {
    output: Option<Vec<u8>>,
    updates: Vec<FlashProgress>,
    result: Result<PreparedImage, FlashError>,
}

fn run_prepare(compressed: &[u8], size: Option<u64>, hash: Option<&str>) -> Prepared {
    let mut reader = GzDecoder::new(compressed);
    let mut preparation = prepare_gzip(size, hash.map(str::to_owned));
    let mut output = Vec::new();
    let mut updates = Vec::new();
    let mut chunk = Vec::new();
    let mut event = AccessEvent::Done;
    loop {
        event = match preparation.step(&event, false) {
            PrepareAction::Read => {
                chunk = next_chunk(&mut reader, BUFFER_SIZE);
                AccessEvent::Chunk(chunk.clone())
            }
            PrepareAction::Write(progress) => {
                output.extend_from_slice(&chunk);
                updates.push(progress);
                AccessEvent::Done
            }
            PrepareAction::Flush => AccessEvent::Done,
            PrepareAction::Finish(image) => {
                return Prepared {
                    output: Some(output),
                    updates,
                    result: Ok(image),
                }
            }
            PrepareAction::Abandon(error) => {
                return Prepared {
                    output: None,
                    updates,
                    result: Err(error),
                }
            }
        };
    }
}

#[test]
fn prepares_and_hashes_raw_image_before_target_access() {
    let payload = b"prepared snapdog image".repeat(2048);
    let archive = archive(&payload);
    let expected_hash = hex::encode(Sha256::digest(&payload));

    let prepared = run_prepare(&archive, Some(payload.len() as u64), Some(&expected_hash));

    let image = prepared.result.unwrap();
    assert_eq!(image.bytes, payload.len() as u64);
    assert_eq!(image.raw_sha256, expected_hash);
    assert_eq!(prepared.output, Some(payload.clone()));
    assert_eq!(
        prepared.updates.last().unwrap().processed,
        payload.len() as u64
    );
}

#[test]
fn removes_prepared_image_after_hash_mismatch() {
    let archive = archive(b"payload");

    let prepared = run_prepare(&archive, None, Some("00"));

    assert!(matches!(prepared.result, Err(FlashError::Verification)));
    assert!(prepared.output.is_none());
}

#[test]
fn image_of_another_size_is_abandoned() {
    let archive = archive(b"payload");
    for size in [6, 8] {
        let prepared = run_prepare(&archive, Some(size), None);
        assert!(matches!(prepared.result, Err(FlashError::RawSize)));
        assert!(prepared.output.is_none());
    }
    assert!(run_prepare(&archive, Some(7), None).result.is_ok());
}

fn run_write(
    image: &[u8],
    target: &mut Target,
    verify: bool,
    wishes: Wishes,
    updates: &mut Vec<FlashProgress>,
) -> Result<FlashReport, FlashError> {
    let options = FlashWriteOptions {
        target_capacity: target.bytes.len() as u64,
        verify,
    };
    let (mut write, mut action) = write_raw(options, image.len() as u64);
    let mut reader = image;
    let mut chunk = Vec::new();
    loop {
        let event = match action {
            WriteAction::Rewind => {
                reader = image;
                target.position = 0;
                AccessEvent::Done
            }
            WriteAction::Read => {
                chunk = next_chunk(&mut reader, BUFFER_SIZE);
                AccessEvent::Chunk(chunk.clone())
            }
            WriteAction::Write(progress) => {
                target.write(&chunk);
                updates.push(progress);
                AccessEvent::Done
            }
            WriteAction::Flush | WriteAction::Prepare => AccessEvent::Done,
            WriteAction::RewindTarget => {
                target.position = 0;
                AccessEvent::Done
            }
            WriteAction::ReadBack(limit) => AccessEvent::Chunk(target.read(limit)),
            WriteAction::Report(progress) => {
                updates.push(progress);
                AccessEvent::Done
            }
            WriteAction::Finish(report) => return Ok(report),
            WriteAction::Fail(error) => return Err(error),
        };
        action = write.step(&event, wishes);
    }
}

const NO_WISHES: Wishes = Wishes {
    cancelled: false,
    skip_verification: false,
};

#[test]
fn writes_prepared_image_and_verifies_target() {
    let payload = b"raw snapdog image".repeat(2048);
    let mut target = Target::new(payload.len());
    let mut updates = Vec::new();

    let report = run_write(&payload, &mut target, true, NO_WISHES, &mut updates).unwrap();

    assert!(report.verified);
    assert!(updates
        .iter()
        .any(|update| update.stage == FlashStage::Writing));
    assert!(updates
        .iter()
        .any(|update| update.stage == FlashStage::Verifying));
    assert_eq!(&target.bytes[..payload.len()], payload);
}

#[test]
fn verification_can_be_skipped_without_rewriting() {
    let payload = b"raw snapdog image";
    let mut target = Target::new(payload.len());
    let wishes = Wishes {
        cancelled: false,
        skip_verification: true,
    };

    let report = run_write(payload, &mut target, true, wishes, &mut Vec::new()).unwrap();

    assert!(!report.verified);
    assert_eq!(report.bytes_written, payload.len() as u64);
}

#[test]
fn image_larger_than_the_target_is_not_written() {
    let mut target = Target::new(3);
    let result = run_write(b"four", &mut target, true, NO_WISHES, &mut Vec::new());
    assert!(matches!(result, Err(FlashError::TargetTooSmall)));
    assert_eq!(target.bytes, [0, 0, 0]);
}

#[test]
fn cancelled_write_leaves_the_target_alone() {
    let mut target = Target::new(8);
    let wishes = Wishes {
        cancelled: true,
        skip_verification: false,
    };
    let result = run_write(b"four", &mut target, true, wishes, &mut Vec::new());
    assert!(matches!(result, Err(FlashError::Cancelled)));
    assert_eq!(target.bytes, [0; 8]);
}

#[test]
fn faulty_medium_is_detected() {
    let options = FlashWriteOptions {
        target_capacity: 4,
        verify: true,
    };
    let (mut write, _) = write_raw(options, 4);
    write.step(&AccessEvent::Done, NO_WISHES);
    write.step(&AccessEvent::Chunk(b"four".to_vec()), NO_WISHES);
    write.step(&AccessEvent::Done, NO_WISHES);
    let action = write.step(&AccessEvent::Chunk(Vec::new()), NO_WISHES);
    assert!(matches!(action, WriteAction::Flush));
    assert!(matches!(
        write.step(&AccessEvent::Done, NO_WISHES),
        WriteAction::Prepare
    ));
    assert!(matches!(
        write.step(&AccessEvent::Done, NO_WISHES),
        WriteAction::RewindTarget
    ));
    assert!(matches!(
        write.step(&AccessEvent::Done, NO_WISHES),
        WriteAction::ReadBack(4)
    ));
    write.step(&AccessEvent::Chunk(b"five".to_vec()), NO_WISHES);
    let action = write.step(&AccessEvent::Done, NO_WISHES);
    assert!(matches!(
        action,
        WriteAction::Fail(FlashError::Verification)
    ));
}

#[test]
fn archive_is_checked_against_its_digest() {
    let mut check = FileCheck::new();
    check.feed(b"ab");
    check.feed(b"c");
    let digest = hex::encode(Sha256::digest(b"abc"));
    assert_eq!(check.sha256(), digest);
    assert!(verify_archive(&check, &digest).is_ok());
    assert!(verify_file_sha256(&check, &digest.to_ascii_uppercase()).is_ok());
    let error = verify_archive(&check, "00").unwrap_err();
    assert!(matches!(error, FlashError::CompressedChecksum));
    assert!(!error.message().is_empty());
}

#[test]
fn digests_are_compared_without_regard_to_case() {
    assert!(digest_is_accepted(&None, "ab"));
    assert!(digest_is_accepted(&Some("AB".to_owned()), "ab"));
    assert!(!digest_is_accepted(&Some("ac".to_owned()), "ab"));
    assert!(verify_digest("ab", "AB").is_ok());
    assert!(matches!(
        verify_digest("ab", "abc"),
        Err(FlashError::CompressedChecksum)
    ));
    let mut other = [7_u8; 32];
    assert!(same_digest(&[7; 32], &other));
    other[31] = 8;
    assert!(!same_digest(&[7; 32], &other));
}
