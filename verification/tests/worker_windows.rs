use snapdog_os_installer::drives::windows::BoolFlag;
use snapdog_os_installer::windows_native::DiskRecord;
use snapdog_os_installer::worker::aligned::{AlignedReader, SeekPosition};
use snapdog_os_installer::worker::session::LookFailure;
use snapdog_os_installer::worker::windows::disk::{
    DiskAction, DiskEvent, DiskOperation, WindowsPlatform,
};
use snapdog_os_installer::worker::windows::{
    query_disk, validate_fingerprinted, validate_post_write_snapshot, validate_snapshot,
    DiskSnapshot, PostWriteIdentity, SelectedDisk, FILE_FLAG_NO_BUFFERING, FILE_FLAG_WRITE_THROUGH,
};
use snapdog_os_installer::worker::{WorkerDrive, WorkerError};

fn record() -> DiskRecord {
    DiskRecord {
        number: 7,
        friendly_name: "SnapDog Test".to_owned(),
        path: r"\\?\usbstor#disk&ven_snapdog&prod_test".to_owned(),
        unique_id: "MEDIA-1234".to_owned(),
        serial_number: "SERIAL-5678".to_owned(),
        size: 32_000_000_000,
        logical_sector_size: 512,
        physical_sector_size: 4_096,
        is_boot: false,
        is_system: false,
        is_offline: false,
        is_read_only: false,
        bus_type: "USB".to_owned(),
        supports_removable_media: true,
    }
}

fn snapshot() -> DiskSnapshot {
    DiskSnapshot {
        number: 7,
        path: r"\\?\usbstor#disk&ven_snapdog&prod_test".to_owned(),
        unique_id: "MEDIA-1234".to_owned(),
        serial_number: "SERIAL-5678".to_owned(),
        size: 32_000_000_000,
        logical_sector_size: 512,
        physical_sector_size: 4_096,
        is_boot: BoolFlag(false),
        is_system: BoolFlag(false),
        is_offline: BoolFlag(false),
        is_read_only: BoolFlag(false),
        bus_type: "USB".to_owned(),
        supports_removable_media: BoolFlag(true),
    }
}

fn selected(snapshot: &DiskSnapshot) -> WorkerDrive {
    let device = format!(r"\\.\PHYSICALDRIVE{}", snapshot.number);
    WorkerDrive {
        id: format!("{device}@{}", snapshot.fingerprint().unwrap()),
        device,
        capacity: snapshot.size,
    }
}

#[test]
fn stable_identity_round_trips() {
    let snapshot = snapshot();
    let selected = selected(&snapshot);
    let identity = SelectedDisk::parse(&selected).unwrap();
    assert_eq!(identity.number, 7);
    assert_eq!(identity.device, r"\\.\PHYSICALDRIVE7");
    assert!(validate_snapshot(&selected, &identity, &snapshot, Some(false)).is_ok());
}

#[test]
fn identity_rejects_partitions_missing_fingerprint_and_aliases() {
    let snapshot = snapshot();
    let mut drive = selected(&snapshot);
    drive.id = r"\\.\PHYSICALDRIVE7".to_owned();
    assert!(SelectedDisk::parse(&drive).is_err());

    drive.id = format!(r"\\.\PHYSICALDRIVE07@{}", snapshot.fingerprint().unwrap());
    drive.device = r"\\.\PHYSICALDRIVE07".to_owned();
    assert!(SelectedDisk::parse(&drive).is_err());

    drive.id = format!(
        r"\\.\PHYSICALDRIVE7\Partition0@{}",
        snapshot.fingerprint().unwrap()
    );
    drive.device = r"\\.\PHYSICALDRIVE7\Partition0".to_owned();
    assert!(SelectedDisk::parse(&drive).is_err());
}

#[test]
fn rejects_boot_system_read_only_and_non_removable_disks() {
    for mutate in [
        |disk: &mut DiskSnapshot| disk.is_boot = BoolFlag(true),
        |disk: &mut DiskSnapshot| disk.is_system = BoolFlag(true),
        |disk: &mut DiskSnapshot| disk.is_read_only = BoolFlag(true),
        |disk: &mut DiskSnapshot| disk.bus_type = "NVME".to_owned(),
        |disk: &mut DiskSnapshot| disk.supports_removable_media = BoolFlag(false),
    ] {
        let original = snapshot();
        let selected = selected(&original);
        let identity = SelectedDisk::parse(&selected).unwrap();
        let mut changed = original;
        mutate(&mut changed);
        assert!(matches!(
            validate_snapshot(&selected, &identity, &changed, None),
            Err(WorkerError::UnsafeTarget)
        ));
    }
}

#[test]
fn built_in_sd_and_mmc_do_not_depend_on_usb_removable_capability() {
    for bus_type in ["SD", "MMC"] {
        let mut card = snapshot();
        card.bus_type = bus_type.to_owned();
        card.supports_removable_media = BoolFlag(false);
        let selected = selected(&card);
        let identity = SelectedDisk::parse(&selected).unwrap();
        assert!(validate_snapshot(&selected, &identity, &card, Some(false)).is_ok());
    }
}

#[test]
fn rejects_unsafe_sector_geometry() {
    for mutate in [
        |disk: &mut DiskSnapshot| disk.logical_sector_size = 0,
        |disk: &mut DiskSnapshot| disk.logical_sector_size = 1_000,
        |disk: &mut DiskSnapshot| disk.physical_sector_size = 128,
        |disk: &mut DiskSnapshot| disk.physical_sector_size = 131_072,
        |disk: &mut DiskSnapshot| disk.size += 1,
    ] {
        let original = snapshot();
        let selected = selected(&original);
        let identity = SelectedDisk::parse(&selected).unwrap();
        let mut changed = original;
        mutate(&mut changed);
        assert!(matches!(
            validate_snapshot(&selected, &identity, &changed, None),
            Err(WorkerError::UnsafeTarget)
        ));
    }
}

/// Reads from bytes in memory as the reader plans it.
fn read(reader: &mut AlignedReader, bytes: &[u8], buffer: &mut [u8]) -> Result<usize, String> {
    let mut done = 0;
    while done < buffer.len() {
        let requested = buffer.len() - done;
        let window = match reader.plan(requested) {
            Some(window) => window,
            None => break,
        };
        let start = window.start as usize;
        let end = bytes.len().min(start + window.length);
        let taken = reader.take(requested, window, &bytes[start..end])?;
        buffer[done..done + taken.len()].copy_from_slice(&taken);
        done += taken.len();
    }
    Ok(done)
}

#[test]
fn aligned_verifier_handles_full_and_unaligned_logical_reads() {
    let bytes = (0_u16..16_384)
        .map(|value| u8::try_from(value % 251).unwrap())
        .collect::<Vec<_>>();

    let mut verifier = AlignedReader::unbuffered(16_384, 512, 4_096).unwrap();
    let mut first = vec![0_u8; 6_000];
    assert_eq!(read(&mut verifier, &bytes, &mut first).unwrap(), first.len());
    assert_eq!(first, bytes[..first.len()]);

    verifier.seek(SeekPosition::Start(123)).unwrap();
    let mut unaligned = vec![0_u8; 1_001];
    assert_eq!(
        read(&mut verifier, &bytes, &mut unaligned).unwrap(),
        unaligned.len()
    );
    assert_eq!(unaligned, bytes[123..123 + unaligned.len()]);
}

#[test]
fn aligned_reads_stay_within_the_device() {
    let mut reader = AlignedReader::direct(8192).unwrap();
    assert_eq!(reader.seek(SeekPosition::Start(8000)).unwrap(), 8000);
    let window = reader.plan(4096).unwrap();
    assert_eq!(window.start, 7680);
    assert_eq!(window.length, 512);
    assert_eq!(window.prefix, 320);
    assert_eq!(window.available, 192);
    assert_eq!(reader.seek(SeekPosition::Start(8192)).unwrap(), 8192);
    assert!(reader.plan(1).is_none());
    assert!(reader.seek(SeekPosition::Current(-8193)).is_err());
    assert!(AlignedReader::unbuffered(1000, 512, 4096).is_err());
}

#[test]
fn detects_media_swap_and_offline_state_mismatch() {
    let original = snapshot();
    let selected = selected(&original);
    let identity = SelectedDisk::parse(&selected).unwrap();

    let mut swapped = original.clone();
    swapped.unique_id = "DIFFERENT-MEDIA".to_owned();
    assert!(matches!(
        validate_snapshot(&selected, &identity, &swapped, Some(false)),
        Err(WorkerError::TargetChanged)
    ));

    let mut offline = original;
    offline.is_offline = BoolFlag(true);
    assert!(matches!(
        validate_snapshot(&selected, &identity, &offline, Some(false)),
        Err(WorkerError::UnsafeTarget)
    ));
}

#[test]
fn native_backend_keeps_unbuffered_verification() {
    assert_eq!(FILE_FLAG_NO_BUFFERING, 0x2000_0000);
    assert_eq!(FILE_FLAG_WRITE_THROUGH, 0x8000_0000);
}

#[test]
fn written_disk_keeps_its_hardware_identity() {
    let original = snapshot();
    let selected = selected(&original);
    let identity = SelectedDisk::parse(&selected).unwrap();
    let expected = PostWriteIdentity::of(&original);
    let mut written = original.clone();
    written.unique_id = "NEW-MEDIA".to_owned();
    assert!(validate_post_write_snapshot(&selected, &identity, &written, &expected).is_ok());
    written.serial_number = "OTHER".to_owned();
    assert!(validate_post_write_snapshot(&selected, &identity, &written, &expected).is_err());
}

#[test]
fn missing_disk_is_reported_as_missing() {
    assert!(query_disk(&Ok(record())).is_ok());
    assert!(matches!(
        query_disk(&Err(LookFailure::NotFound("gone".to_owned()))),
        Err(WorkerError::TargetMissing)
    ));
    assert!(matches!(
        query_disk(&Err(LookFailure::Failed("denied".to_owned()))),
        Err(WorkerError::Platform(_))
    ));
}

/// Lets every access succeed on the disk of the record.
fn perform(
    platform: &mut WindowsPlatform,
    operation: DiskOperation,
    done: &mut Vec<String>,
) -> Result<(), WorkerError> {
    let mut action = platform.begin(operation);
    loop {
        let event = match action {
            DiskAction::Query(number) => {
                assert_eq!(number, 7);
                DiskEvent::Query(Ok(record()))
            }
            DiskAction::Finish => return Ok(()),
            DiskAction::Fail(error) => return Err(error),
            other => {
                let name = format!("{other:?}");
                done.push(name.split(['(', ' ']).next().unwrap().to_owned());
                DiskEvent::Handle(Ok(()))
            }
        };
        action = platform.step(&event);
    }
}

#[test]
fn disk_is_locked_before_it_is_written_and_released_after_a_proof() {
    let selected = selected(&snapshot());
    let mut platform = WindowsPlatform::new(&selected);
    let mut done = Vec::new();
    perform(&mut platform, DiskOperation::Unmount, &mut done).unwrap();
    assert!(done.contains(&"LockVolumes".to_owned()));
    assert!(!done.contains(&"HandOver".to_owned()));
    done.clear();
    perform(&mut platform, DiskOperation::Open, &mut done).unwrap();
    assert_eq!(done, ["HandOver"]);
    done.clear();
    perform(&mut platform, DiskOperation::Prepare, &mut done).unwrap();
    assert!(done.contains(&"SyncTarget".to_owned()));
    done.clear();
    perform(&mut platform, DiskOperation::Eject, &mut done).unwrap();
    let proof = done.iter().position(|name| name == "SyncProof").unwrap();
    let release = done
        .iter()
        .position(|name| name == "ReleaseVolumes")
        .unwrap();
    assert!(proof < release);
}

#[test]
fn untouched_disk_needs_no_ejection() {
    let selected = selected(&snapshot());
    let mut platform = WindowsPlatform::new(&selected);
    let mut done = Vec::new();
    perform(&mut platform, DiskOperation::Eject, &mut done).unwrap();
    assert!(done.is_empty());
    assert!(perform(&mut platform, DiskOperation::Open, &mut done).is_err());
}

#[test]
fn fingerprint_has_to_be_the_selected_one() {
    let snapshot = snapshot();
    let mut selected = selected(&snapshot);
    selected.id = format!("{}@{}", selected.device, "a".repeat(64));
    let identity = SelectedDisk::parse(&selected).unwrap();
    let check = |fingerprint: &str| {
        validate_fingerprinted(&selected, &identity, &snapshot, Some(false), fingerprint)
    };
    assert!(check(&"a".repeat(64)).is_ok());
    assert!(matches!(
        check(&"b".repeat(64)),
        Err(WorkerError::TargetChanged)
    ));
    assert!(matches!(
        validate_fingerprinted(
            &selected,
            &identity,
            &snapshot,
            Some(true),
            &"a".repeat(64)
        ),
        Err(WorkerError::TargetChanged)
    ));
}
