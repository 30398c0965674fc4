use snapdog_os_installer::windows_native::volumes::{VolumeAction, VolumeEvent};
use snapdog_os_installer::windows_native::{
    bus_name, drive_root, lock_and_dismount_volumes, query_disk, query_disks, utf16_buffer,
    volume_path, volume_relation, MsftDisk, VolumeRelation, Win32DiskDrive,
};

#[test]
fn maps_only_supported_card_bus_types() {
    assert_eq!(bus_name(7), "USB");
    assert_eq!(bus_name(12), "SD");
    assert_eq!(bus_name(13), "MMC");
    assert_eq!(bus_name(11), "OTHER");
}

#[test]
fn utf16_buffer_requires_termination_and_valid_utf16() {
    assert_eq!(utf16_buffer(&[u16::from(b'A'), 0, 9]).unwrap(), "A");
    assert!(utf16_buffer(&[u16::from(b'A')]).is_err());
    assert!(utf16_buffer(&[0xD800, 0]).is_err());
}

#[test]
fn surrogate_pairs_are_one_character() {
    assert_eq!(utf16_buffer(&[0xD83D, 0xDC15, 0]).unwrap(), "\u{1F415}");
    assert!(utf16_buffer(&[0xDC15, 0xD83D, 0]).is_err());
}

fn msft(number: u32) -> MsftDisk {
    MsftDisk {
        number,
        friendly_name: Some(" Card \u{0}".to_owned()),
        path: Some("path".to_owned()),
        unique_id: None,
        serial_number: Some("serial".to_owned()),
        size: 1024,
        logical_sector_size: 512,
        physical_sector_size: 512,
        is_boot: false,
        is_system: false,
        is_offline: false,
        is_read_only: false,
        bus_type: 7,
    }
}

#[test]
fn usb_capability_joins_both_providers() {
    let drives = vec![Win32DiskDrive {
        index: 4,
        capabilities: Some(vec![3, 7]),
    }];
    let disks = query_disks(&vec![msft(4), msft(5)], &drives).unwrap();
    assert_eq!(disks.len(), 2);
    assert!(disks[0].supports_removable_media);
    assert!(!disks[1].supports_removable_media);
    assert_eq!(disks[0].bus_type, "USB");
    assert_eq!(query_disk(&disks, 5).unwrap().number, 5);
    assert!(query_disk(&disks, 6).is_err());
}

fn extents(count: u32, disks: &[u32]) -> Vec<u8> {
    let mut bytes = Vec::new();
    bytes.extend(count.to_le_bytes());
    bytes.extend([0_u8; 4]);
    for disk in disks {
        bytes.extend(disk.to_le_bytes());
        bytes.extend([0_u8; 20]);
    }
    bytes
}

#[test]
fn volume_extents_tell_the_disk() {
    let own = extents(1, &[7]);
    assert!(matches!(
        volume_relation(&own, own.len(), 7),
        Ok(VolumeRelation::Exact)
    ));
    assert!(matches!(
        volume_relation(&own, own.len(), 8),
        Ok(VolumeRelation::Unrelated)
    ));
    let spanned = extents(2, &[7, 8]);
    assert!(matches!(
        volume_relation(&spanned, spanned.len(), 7),
        Ok(VolumeRelation::Spanned)
    ));
    let short = extents(2, &[7]);
    assert!(volume_relation(&short, short.len(), 7).is_err());
}

#[test]
fn volume_names_become_paths() {
    assert_eq!(volume_path(r"\\?\Volume{1}\"), r"\\?\Volume{1}");
    assert_eq!(drive_root(r"C:\temp\x").as_deref(), Some(r"C:\"));
    assert_eq!(drive_root(r"\\server\x"), None);
}

/// The answer to an extents query of a volume on these disks.
fn answer(disks: &[u32]) -> VolumeEvent {
    let bytes = extents(u32::try_from(disks.len()).unwrap(), disks);
    let count = bytes.len();
    VolumeEvent::Extents(Ok((bytes, count)))
}

#[test]
fn only_volumes_of_the_disk_are_dismounted() {
    let volumes = vec![r"\\?\Volume{a}\".to_owned(), r"\\?\Volume{b}\".to_owned()];
    let (mut locking, action) = lock_and_dismount_volumes(7, volumes);
    assert!(matches!(action, VolumeAction::Inspect(path) if path == r"\\?\Volume{a}"));
    let action = locking.step(&answer(&[3]));
    assert!(matches!(action, VolumeAction::Inspect(path) if path == r"\\?\Volume{b}"));
    let action = locking.step(&answer(&[7]));
    assert!(matches!(action, VolumeAction::Open(path) if path == r"\\?\Volume{b}"));
    let action = locking.step(&VolumeEvent::Handled(Ok(())));
    assert!(matches!(action, VolumeAction::Lock));
    let action = locking.step(&VolumeEvent::Handled(Ok(())));
    assert!(matches!(action, VolumeAction::Dismount));
    let action = locking.step(&VolumeEvent::Handled(Ok(())));
    assert!(matches!(action, VolumeAction::Finish));
}

#[test]
fn volumes_that_cannot_be_dismounted_fail_closed() {
    let name = r"\\?\Volume{a}\";
    let start = || lock_and_dismount_volumes(7, vec![name.to_owned()]).0;
    let busy = || VolumeEvent::Handled(Err("busy".to_owned()));
    let mut locking = start();
    assert!(matches!(
        locking.step(&answer(&[7, 8])),
        VolumeAction::Fail(cause)
            if cause == "refusing a volume that spans the selected disk and another disk"
    ));
    let mut locking = start();
    assert!(matches!(
        locking.step(&answer(&[])),
        VolumeAction::Fail(cause) if cause == "Windows returned invalid volume extents"
    ));
    let mut locking = start();
    locking.step(&answer(&[7, 7]));
    locking.step(&VolumeEvent::Handled(Ok(())));
    match locking.step(&busy()) {
        VolumeAction::Fail(cause) => assert_eq!(
            cause,
            format!("could not lock {name}; close Explorer and applications using the card: busy")
        ),
        other => panic!("unexpected {other:?}"),
    }
    let mut locking = start();
    locking.step(&answer(&[7]));
    locking.step(&VolumeEvent::Handled(Ok(())));
    locking.step(&VolumeEvent::Handled(Ok(())));
    match locking.step(&busy()) {
        VolumeAction::Fail(cause) => {
            assert_eq!(cause, format!("could not dismount {name}: busy"))
        }
        other => panic!("unexpected {other:?}"),
    }
    assert!(matches!(
        lock_and_dismount_volumes(7, Vec::new()).1,
        VolumeAction::Finish
    ));
}
