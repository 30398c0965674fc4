use snapdog_os_installer::drives::linux as linux_drives;
use snapdog_os_installer::drives::linux::BlockFacts;
use snapdog_os_installer::drives::macos::{
    registry_drive, safe_media_records, split_stable_identifier, valid_identifier,
};
use snapdog_os_installer::drives::windows::{fingerprint, BoolFlag, FingerprintParts, WindowsDisk};
use snapdog_os_installer::drives::{removable_drives, DriveError, DriveFacts};
use snapdog_os_installer::macos_native;
use snapdog_os_installer::windows_native::DiskRecord;
use snapdog_os_installer::worker::linux::devices::DeviceNumber;
use snapdog_os_installer::worker::WorkerError;

fn record(
    bsd_name: &str,
    registry_entry_id: u64,
    name: Option<&str>,
) -> macos_native::DiskRecord {
    macos_native::DiskRecord {
        bsd_name: bsd_name.to_owned(),
        name: name.map(str::to_owned),
        registry_entry_id,
        size: 63_864_569_856,
        whole: true,
        writable: true,
        removable: true,
        ejectable: true,
        physical: true,
    }
}

#[test]
fn discovers_builtin_sd_and_excludes_fixed_and_virtual_media() {
    let mut internal = record("disk0", 4_000, Some("Internal SSD"));
    internal.removable = false;
    internal.ejectable = false;
    let mut partition = record("disk21s1", 4_243, None);
    partition.whole = false;
    let mut virtual_media = record("disk4", 4_444, Some("Writable disk image"));
    virtual_media.physical = false;

    let media = safe_media_records(&vec![
        internal,
        record("disk21", 4_242, Some("Apple SDXC Reader Media")),
        partition,
        virtual_media,
    ])
    .unwrap();
    assert_eq!(media.len(), 1);
    let drive = registry_drive("disk21@4242", &media).unwrap();
    assert_eq!(drive.device, "/dev/disk21");
    assert_eq!(drive.id, "disk21@4242");
    assert_eq!(drive.name, "Apple SDXC Reader Media");
    assert_eq!(drive.capacity, 63_864_569_856);
}

#[test]
fn missing_media_safety_flag_fails_closed() {
    let mut incomplete = record("disk7", 4_242, None);
    incomplete.ejectable = false;
    let identities = safe_media_records(&vec![incomplete]).unwrap();
    assert!(identities.is_empty());
    assert_eq!(
        split_stable_identifier("disk7@4242"),
        Some(("disk7".to_owned(), 4_242))
    );
    assert_eq!(split_stable_identifier("disk7s1@4242"), None);
}

#[test]
fn stable_registry_identity_survives_unmount() {
    let identities = safe_media_records(&vec![record(
        "disk21",
        4_242,
        Some("Apple SDXC Reader Media"),
    )])
    .unwrap();
    let drive = registry_drive("disk21@4242", &identities).unwrap();

    assert_eq!(drive.device, "/dev/disk21");
    assert_eq!(drive.id, "disk21@4242");
    assert_eq!(drive.capacity, 63_864_569_856);
    assert_eq!(drive.name, "Apple SDXC Reader Media");
    assert!(registry_drive("disk21@4243", &identities).is_none());
}

#[test]
fn duplicate_registry_entry_id_is_rejected() {
    assert!(matches!(
        safe_media_records(&vec![record("disk7", 4_242, None), record("disk8", 4_242, None)]),
        Err(DriveError::InvalidData(message)) if message.contains("duplicate I/O Registry entry ID")
    ));
}

#[test]
fn rejects_partition_or_injected_identifier() {
    assert!(!valid_identifier("disk7s1"));
    assert!(!valid_identifier("disk7;rm"));
    assert!(valid_identifier("disk12"));
}

fn disk(bus_type: &str, supports_removable_media: bool) -> WindowsDisk {
    WindowsDisk {
        number: 7,
        friendly_name: "SnapDog test card".to_owned(),
        path: r"\\?\usbstor#disk&ven_snapdog&prod_test".to_owned(),
        unique_id: "MEDIA-1234".to_owned(),
        serial_number: "SERIAL-5678".to_owned(),
        size: 32_000_000_000,
        logical_sector_size: 512,
        physical_sector_size: 4_096,
        is_boot: BoolFlag(false),
        is_system: BoolFlag(false),
        is_offline: BoolFlag(false),
        is_read_only: BoolFlag(false),
        bus_type: bus_type.to_owned(),
        supports_removable_media: BoolFlag(supports_removable_media),
    }
}

fn native_record() -> DiskRecord {
    DiskRecord {
        number: 7,
        friendly_name: "SnapDog test card".to_owned(),
        path: "native-path".to_owned(),
        unique_id: "MEDIA-1234".to_owned(),
        serial_number: "SERIAL-5678".to_owned(),
        size: 32_000_000_000,
        logical_sector_size: 512,
        physical_sector_size: 4_096,
        is_boot: false,
        is_system: false,
        is_offline: false,
        is_read_only: false,
        bus_type: "SD".to_owned(),
        supports_removable_media: false,
    }
}

#[test]
fn excludes_ordinary_usb_fixed_media() {
    assert!(!disk("USB", false).safe_removable());
    assert!(disk("USB", true).safe_removable());
}

#[test]
fn preserves_native_sd_and_mmc_readers() {
    assert!(disk("SD", false).safe_removable());
    assert!(disk("MMC", false).safe_removable());
}

#[test]
fn rejects_ambiguous_or_unsupported_sector_geometry() {
    let mut candidate = disk("SD", false);
    candidate.logical_sector_size = 0;
    assert!(!candidate.safe_removable());

    let mut candidate = disk("SD", false);
    candidate.physical_sector_size = 131_072;
    assert!(!candidate.safe_removable());

    let mut candidate = disk("SD", false);
    candidate.size += 1;
    assert!(!candidate.safe_removable());
}

#[test]
fn native_records_preserve_safety_fields() {
    assert!(WindowsDisk::from_record(native_record()).safe_removable());
}

#[test]
fn offered_windows_drive_carries_its_fingerprint() {
    let found =
        removable_drives(&DriveFacts::Windows(Ok(vec![native_record()]))).unwrap();
    assert_eq!(found.len(), 1);
    assert_eq!(found[0].device, r"\\.\PHYSICALDRIVE7");
    let expected = fingerprint(&FingerprintParts {
        number: 7,
        size: 32_000_000_000,
        logical_sector_size: 512,
        physical_sector_size: 4_096,
        bus_type: "SD",
        path: "native-path",
        unique_id: "MEDIA-1234",
        serial_number: "SERIAL-5678",
        supports_removable_media: false,
    });
    assert_eq!(expected.len(), 64);
    assert_eq!(found[0].id, format!(r"\\.\PHYSICALDRIVE7@{expected}"));
}

/// The kernel's record of a mount of a partition of the block device below.
fn mounted_at(place: &str) -> Result<String, String> {
    Ok(format!(
        "22 1 8:1 / / rw shared:1 - ext4 /dev/sda1 rw\n36 22 8:17 / {place} rw - vfat /dev/sdb1 rw\n"
    ))
}

fn linux_facts(block: BlockFacts, mountinfo: Result<String, String>) -> DriveFacts {
    DriveFacts::Linux {
        entries: Ok(vec![Ok(block)]),
        mountinfo,
    }
}

fn block(id: &str) -> BlockFacts {
    BlockFacts {
        id: id.to_owned(),
        removable: Ok("1\n".to_owned()),
        read_only: Ok("0\n".to_owned()),
        diskseq: Ok("42\n".to_owned()),
        size: Ok("2048\n".to_owned()),
        vendor: Some("Generic ".to_owned()),
        model: Some(" SD Reader\n".to_owned()),
        related: Ok(vec![
            DeviceNumber {
                major: 8,
                minor: 16,
            },
            DeviceNumber {
                major: 8,
                minor: 17,
            },
        ]),
    }
}

#[test]
fn lists_removable_linux_drives() {
    let mut fixed = block("sda");
    fixed.removable = Ok("0\n".to_owned());
    let found = removable_drives(&DriveFacts::Linux {
        entries: Ok(vec![Ok(fixed), Ok(block("sdb"))]),
        mountinfo: mounted_at("/media/card"),
    })
    .unwrap();
    assert_eq!(found.len(), 1);
    assert_eq!(found[0].id, "sdb@42");
    assert_eq!(found[0].device, "/dev/sdb");
    assert_eq!(found[0].name, "Generic SD Reader");
    assert_eq!(found[0].capacity, 1_048_576);
}

#[test]
fn linux_drive_without_identity_fails_discovery() {
    let mut old_kernel = block("sdb");
    old_kernel.diskseq = Err("No such file".to_owned());
    assert!(matches!(
        linux_drives::removable_drives(&vec![Ok(old_kernel)], &mounted_at("/mnt")),
        Err(DriveError::InvalidData(_))
    ));
    let mut zero = block("sdb");
    zero.diskseq = Ok("0".to_owned());
    let error = linux_drives::removable_drives(&vec![Ok(zero)], &mounted_at("/mnt")).unwrap_err();
    assert!(error
        .message()
        .contains("kernel returned an unsafe zero disk sequence number"));
    assert!(!linux_drives::is_safe_id("../sda"));
}

#[test]
fn unknown_platform_has_no_drives() {
    let error = removable_drives(&DriveFacts::Other).unwrap_err();
    assert!(matches!(error, DriveError::Unsupported));
    let error = removable_drives(&DriveFacts::MacOs(Err("denied".to_owned()))).unwrap_err();
    assert!(matches!(error, DriveError::Io(_)));
}

#[test]
fn mounted_system_media_are_never_offered() {
    for place in ["/", "/boot", "/home"] {
        let facts = linux_facts(block("sdb"), mounted_at(place));
        assert!(removable_drives(&facts).unwrap().is_empty());
    }
    for place in ["/mnt", "/media/card", "/run/media/me/card"] {
        let facts = linux_facts(block("sdb"), mounted_at(place));
        assert_eq!(removable_drives(&facts).unwrap().len(), 1);
    }
}

#[test]
fn unknown_mounts_fail_discovery() {
    let facts = linux_facts(block("sdb"), Err("denied".to_owned()));
    assert!(matches!(
        removable_drives(&facts),
        Err(DriveError::Io(cause)) if cause == "denied"
    ));
    let facts = linux_facts(block("sdb"), Ok("36 22\n".to_owned()));
    assert!(matches!(
        removable_drives(&facts),
        Err(DriveError::InvalidData(_))
    ));
    let mut lost = block("sdb");
    lost.related = Err(WorkerError::TargetMissing);
    assert!(matches!(
        removable_drives(&linux_facts(lost, mounted_at("/mnt"))),
        Err(DriveError::InvalidData(_))
    ));
    let mut fixed = block("sda");
    fixed.removable = Ok("0\n".to_owned());
    let facts = linux_facts(fixed, Err("denied".to_owned()));
    assert!(removable_drives(&facts).unwrap().is_empty());
}
