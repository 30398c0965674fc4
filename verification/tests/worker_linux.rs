use snapdog_os_installer::drives::linux::split_stable_identifier;
use snapdog_os_installer::worker::linux::devices::{
    decode_linux_device, format_device_number, inspect_current_drive, parse_device_number,
    validate_device_node, validate_opened_device, AttributeRead, CurrentDrive, DeviceNumber,
    DriveAttributes, NodeFacts,
};
use snapdog_os_installer::worker::linux::mounts::{
    decode_mountinfo_field, mounted_paths, parse_mountinfo, reject_protected_mounts,
    reject_related_swap, swap_sources, SwapSource,
};
use snapdog_os_installer::worker::linux::order::{sort_mount_points_for_unmount, unmount_order};
use snapdog_os_installer::worker::linux::related::{RelatedAction, RelatedDevices, RelatedEvent};
use snapdog_os_installer::worker::linux::target::{
    block_object, udisks_error, validate_staged_image, validate_target_at, TargetAction,
    TargetEvent, TargetEvidence, TargetOperation, TargetRun, TargetStep,
};
use snapdog_os_installer::worker::linux::unmount::{
    EjectAction, EjectEvent, Ejecting, UnmountAction, UnmountEvent, Unmounting,
};
use snapdog_os_installer::worker::session::{FileFacts, LookFailure};
use snapdog_os_installer::worker::{WorkerDrive, WorkerError};

fn number(major: u64, minor: u64) -> DeviceNumber {
    DeviceNumber { major, minor }
}

fn read(text: &str) -> AttributeRead {
    Ok(text.to_owned())
}

fn missing() -> LookFailure {
    LookFailure::NotFound("no such file".to_owned())
}

fn attributes() -> DriveAttributes {
    DriveAttributes {
        present: true,
        removable: read("1\n"),
        read_only: read("0\n"),
        diskseq: read("42\n"),
        size: read("2048\n"),
        dev: read("8:16\n"),
    }
}

fn drive() -> WorkerDrive {
    WorkerDrive {
        id: "sdb@42".to_owned(),
        device: "/dev/sdb".to_owned(),
        capacity: 1_048_576,
    }
}

#[test]
fn stable_identifier_accepts_common_devices_and_rejects_injection() {
    assert_eq!(
        split_stable_identifier("sdb@42").unwrap(),
        ("sdb".to_owned(), 42)
    );
    assert_eq!(
        split_stable_identifier("mmcblk0@18446744073709551615").unwrap(),
        ("mmcblk0".to_owned(), u64::MAX)
    );
    for invalid in [
        "sdb",
        "sdb@0",
        "sdb@",
        "sdb@1@2",
        "../sda@1",
        "sda;reboot@1",
        "sda@nope",
    ] {
        assert!(split_stable_identifier(invalid).is_none());
    }
}

#[test]
fn reads_removable_writable_whole_drive_identity() {
    assert_eq!(
        inspect_current_drive("sdb", &attributes()).unwrap(),
        CurrentDrive {
            name: "sdb".to_owned(),
            diskseq: 42,
            capacity: 1_048_576,
            device_number: number(8, 16),
        }
    );
    assert_eq!(
        inspect_current_drive("sdb", &attributes())
            .unwrap()
            .identity(),
        drive()
    );
}

#[test]
fn missing_diskseq_and_unsafe_flags_fail_closed() {
    let mut changed = attributes();
    changed.diskseq = Err(missing());
    assert!(matches!(
        inspect_current_drive("sdb", &changed),
        Err(WorkerError::TargetMissing)
    ));

    let mut changed = attributes();
    changed.removable = read("0");
    assert!(matches!(
        inspect_current_drive("sdb", &changed),
        Err(WorkerError::UnsafeTarget)
    ));
    let mut changed = attributes();
    changed.read_only = read("1");
    assert!(matches!(
        inspect_current_drive("sdb", &changed),
        Err(WorkerError::UnsafeTarget)
    ));
}

#[test]
fn collects_partitions_and_transitive_holders() {
    let (mut related, mut action) = RelatedDevices::start();
    let entry = |text: &str| Ok(Some(read(text)));
    let collected = loop {
        let event = match action {
            RelatedAction::ReadDevice => RelatedEvent::Device(
                read("8:16"),
                Ok(vec![Ok(None), entry("8:17")]),
            ),
            RelatedAction::ReadHolders(device) => {
                RelatedEvent::Holders(match (device.major, device.minor) {
                    (8, 17) => Ok(vec![entry("253:0")]),
                    (253, 0) => Ok(vec![entry("253:1")]),
                    _ => Err(missing()),
                })
            }
            RelatedAction::Finish(devices) => break devices,
            RelatedAction::Fail(error) => panic!("{}", error.message()),
        };
        action = related.step(&event);
    };
    assert_eq!(collected.len(), 4);
    for expected in [
        number(8, 16),
        number(8, 17),
        number(253, 0),
        number(253, 1),
    ] {
        assert!(collected.contains(&expected));
    }
}

#[test]
fn unreadable_holders_fail_closed() {
    let (mut related, _) = RelatedDevices::start();
    related.step(&RelatedEvent::Device(read("8:16"), Ok(Vec::new())));
    let failed = LookFailure::Failed("denied".to_owned());
    assert!(matches!(
        related.step(&RelatedEvent::Holders(Err(failed))),
        RelatedAction::Fail(WorkerError::Platform(_))
    ));
}

#[test]
fn parses_escaped_mount_points_and_unmounts_deepest_first() {
    let mountinfo = format!(
        "{}{}",
        "40 31 8:17 / /media/SnapDog\\040OS rw,nosuid - vfat /dev/sdb1 rw\n",
        "41 40 8:17 /nested /media/SnapDog\\040OS/nested rw - vfat /dev/sdb1 rw\n",
    );
    let devices = vec![number(8, 17)];
    let mut paths = mounted_paths(&mountinfo, &devices).unwrap();
    sort_mount_points_for_unmount(&mut paths);
    assert_eq!(
        paths,
        [
            b"/media/SnapDog OS/nested".to_vec(),
            b"/media/SnapDog OS".to_vec(),
        ]
    );
}

#[test]
fn rejects_system_mounts_on_physical_or_holder_devices() {
    let devices = vec![number(8, 17), number(253, 0)];
    let root = "29 1 253:0 / / rw,relatime - ext4 /dev/mapper/root rw\n";
    assert!(matches!(
        reject_protected_mounts(root, &devices),
        Err(WorkerError::UnsafeTarget)
    ));
    let boot = "30 29 8:17 / /boot/efi rw - vfat /dev/sdb1 rw\n";
    assert!(matches!(
        reject_protected_mounts(boot, &devices),
        Err(WorkerError::UnsafeTarget)
    ));
    let removable = "31 29 8:17 / /media/card rw - vfat /dev/sdb1 rw\n";
    assert!(reject_protected_mounts(removable, &devices).is_ok());

    for mount_point in [
        "/etc",
        "/root",
        "/run",
        "/opt",
        "/srv",
        "/tmp",
        "/nix",
        "/var/lib/data",
    ] {
        let record = format!("32 29 8:17 / {mount_point} rw - ext4 /dev/sdb1 rw\n");
        assert!(matches!(
            reject_protected_mounts(&record, &devices),
            Err(WorkerError::UnsafeTarget)
        ));
    }

    for mount_point in ["/media/card", "/mnt/snapdog", "/run/media/user/card"] {
        let record = format!("33 29 8:17 / {mount_point} rw - vfat /dev/sdb1 rw\n");
        assert!(reject_protected_mounts(&record, &devices).is_ok());
    }
}

#[test]
fn rejects_swap_file_backed_by_selected_filesystem() {
    let swaps = "Filename Type Size Used Priority\n/card/swapfile file 1024 0 -2\n";
    let records = swap_sources(swaps);
    assert_eq!(records.len(), 1);
    assert_eq!(records[0].as_ref().unwrap(), b"/card/swapfile");
    let source = |dev: u64| {
        vec![Ok(SwapSource {
            is_block_device: false,
            is_file: true,
            rdev: 0,
            dev,
        })]
    };
    let devices = vec![decode_linux_device(0x0811)];
    assert!(matches!(
        reject_related_swap(swaps, &source(0x0811), &devices),
        Err(WorkerError::UnsafeTarget)
    ));
    assert!(reject_related_swap(swaps, &source(0x0812), &devices).is_ok());
}

#[test]
fn rejects_uninspectable_active_swap_source() {
    let swaps = "Filename Type Size Used Priority\n/missing/snapdog-swap file 1024 0 -2\n";
    assert!(matches!(
        reject_related_swap(swaps, &vec![Err("no such file".to_owned())], &Vec::new()),
        Err(WorkerError::Platform(_))
    ));
}

#[test]
fn decodes_linux_device_numbers() {
    assert_eq!(decode_linux_device(0x0810), number(8, 16));
    assert_eq!(decode_linux_device(0xfd00), number(253, 0));
    assert_eq!(decode_linux_device(0x0010_0001), number(0, 0x101));
}

#[test]
fn malformed_mountinfo_fails_closed() {
    assert!(matches!(
        parse_mountinfo("not mountinfo"),
        Err(WorkerError::Platform(_))
    ));
    assert!(matches!(
        decode_mountinfo_field(r"/media/bad\09x"),
        Err(WorkerError::Platform(_))
    ));
}

#[test]
fn device_numbers_read_back() {
    for device in [number(8, 16), number(0, 0), number(u64::MAX, 1)] {
        assert_eq!(
            parse_device_number(&format_device_number(device)).unwrap(),
            device
        );
    }
    assert_eq!(format_device_number(number(253, 7)), "253:7");
    for invalid in ["8", "8:", ":8", "8:16:1", "a:1"] {
        assert!(parse_device_number(invalid).is_err());
    }
}

#[test]
fn devices_are_unmounted_deepest_first() {
    let mountinfo = format!(
        "{}{}{}",
        "40 31 8:17 / /media/a rw - vfat /dev/sdb1 rw\n",
        "41 40 8:18 / /media/a/b rw - vfat /dev/sdb2 rw\n",
        "42 41 8:19 / /media/a/b/c rw - vfat /dev/sdb3 rw\n",
    );
    let mounts = parse_mountinfo(&mountinfo).unwrap();
    assert_eq!(
        unmount_order(&mounts),
        [number(8, 19), number(8, 18), number(8, 17)]
    );
}

fn node(rdev: u64) -> NodeFacts {
    NodeFacts {
        is_symlink: false,
        is_block_device: true,
        rdev,
    }
}

fn evidence() -> TargetEvidence {
    TargetEvidence {
        attributes: attributes(),
        node: Ok(node(0x0810)),
        related: Ok(vec![number(8, 16), number(8, 17)]),
        mountinfo: Ok("31 29 8:17 / /media/card rw - vfat /dev/sdb1 rw\n".to_owned()),
        swaps: Ok("Filename Type Size Used Priority\n".to_owned()),
        sources: Vec::new(),
    }
}

#[test]
fn target_is_accepted_only_on_full_evidence() {
    assert_eq!(validate_target_at(&drive(), &evidence()).unwrap(), drive());
    let mut other = drive();
    other.id = "sdb@43".to_owned();
    assert!(matches!(
        validate_target_at(&other, &evidence()),
        Err(WorkerError::TargetChanged)
    ));
    let mut changed = evidence();
    changed.mountinfo = Ok("29 1 8:17 / / rw - ext4 /dev/sdb1 rw\n".to_owned());
    assert!(matches!(
        validate_target_at(&drive(), &changed),
        Err(WorkerError::UnsafeTarget)
    ));
    let mut changed = evidence();
    changed.node = Ok(node(0x0820));
    assert!(validate_target_at(&drive(), &changed).is_err());
    let mut changed = evidence();
    changed.attributes.present = false;
    assert!(matches!(
        validate_target_at(&drive(), &changed),
        Err(WorkerError::TargetMissing)
    ));
    assert!(validate_device_node(&Ok(node(0x0810)), number(8, 16)).is_ok());
    assert!(validate_opened_device(&Ok(node(0x0810)), number(8, 16)).is_ok());
    assert!(validate_opened_device(&Ok(node(0x0810)), number(8, 17)).is_err());
}

#[test]
fn target_is_opened_and_checked_through_its_descriptor() {
    let selected = drive();
    let run = |opened: u64| {
        let (mut run, mut action) = TargetRun::start(TargetOperation::Open, &selected);
        loop {
            let event = match action {
                TargetAction::Step(TargetStep::Validate, _) => TargetEvent::Target(Ok(drive())),
                TargetAction::Step(TargetStep::ReadNumber | TargetStep::ReadNumberAgain, _) => {
                    TargetEvent::Number(read("8:16"))
                }
                TargetAction::Step(TargetStep::OpenWriter | TargetStep::OpenDirect, expected) => {
                    assert_eq!(expected, number(8, 16));
                    TargetEvent::Opened(Ok(()))
                }
                TargetAction::Step(TargetStep::CheckOpened, _) => {
                    TargetEvent::Looked(Ok(node(opened)))
                }
                TargetAction::Step(_, _) => TargetEvent::Done(Ok(())),
                TargetAction::Finish => return Ok(()),
                TargetAction::Fail(error) => return Err(error),
            };
            action = run.step(&event);
        }
    };
    assert!(run(0x0810).is_ok());
    assert!(run(0x0820).is_err());
}

#[test]
fn mounted_volumes_are_unmounted_and_looked_for_again() {
    let selected = drive();
    let run = |remaining: &str| {
        let (mut run, mut action) = Unmounting::start(&selected);
        let mut unmounted = Vec::new();
        loop {
            let event = match action {
                UnmountAction::Validate => UnmountEvent::Target(Ok(drive())),
                UnmountAction::CollectRelated => {
                    UnmountEvent::Related(Ok(vec![number(8, 16), number(8, 17)]))
                }
                UnmountAction::ReadMountinfo => {
                    UnmountEvent::Mountinfo(Ok(if unmounted.is_empty() {
                        "31 29 8:17 / /media/card rw - vfat /dev/sdb1 rw\n".to_owned()
                    } else {
                        remaining.to_owned()
                    }))
                }
                UnmountAction::Unmount(device) => {
                    unmounted.push(device);
                    UnmountEvent::Unmounted(Ok(()))
                }
                UnmountAction::Finish => return (unmounted, true),
                UnmountAction::Fail(_) => return (unmounted, false),
            };
            action = run.step(&event);
        }
    };
    assert_eq!(run(""), (vec![number(8, 17)], true));
    let mounted = "31 29 8:17 / /media/card rw - vfat /dev/sdb1 rw\n";
    assert_eq!(run(mounted), (vec![number(8, 17)], false));
}

#[test]
fn medium_is_ejected_where_power_stays_on() {
    let selected = drive();
    let run = |power_off: bool, eject: bool| {
        let (mut run, mut action) = Ejecting::start(&selected);
        loop {
            let refused = |accepted: bool| {
                EjectEvent::Service(if accepted {
                    Ok(())
                } else {
                    Err(udisks_error("refused"))
                })
            };
            let event = match action {
                EjectAction::Unmount => EjectEvent::Unmounted(Ok(())),
                EjectAction::Validate => EjectEvent::Target(Ok(drive())),
                EjectAction::ReadNumber => EjectEvent::Number(read("8:16")),
                EjectAction::FindDrive(_) => EjectEvent::Service(Ok(())),
                EjectAction::PowerOff => refused(power_off),
                EjectAction::EjectMedium => refused(eject),
                EjectAction::Finish => return true,
                EjectAction::Fail(_) => return false,
            };
            action = run.step(&event);
        }
    };
    assert!(run(true, false));
    assert!(run(false, true));
    assert!(!run(false, false));
}

#[test]
fn block_object_is_found_by_its_number() {
    let numbers = vec![Ok(0x0811), Ok(0x0810)];
    assert_eq!(block_object(&numbers, number(8, 16)).unwrap(), 1);
    assert!(block_object(&numbers, number(8, 18)).is_err());
}

#[test]
fn staged_image_is_private_to_the_desktop_user() {
    let facts = FileFacts {
        is_symlink: false,
        is_dir: false,
        is_file: true,
        is_socket: false,
        uid: 1000,
        mode: 0o100_600,
        device: 1,
        inode: 2,
        links: 0,
        length: 10,
    };
    assert!(validate_staged_image(&Ok(facts)).is_ok());
    let mut owned = facts;
    owned.uid = 0;
    assert!(validate_staged_image(&Ok(owned)).is_err());
    let mut linked = facts;
    linked.links = 2;
    assert!(validate_staged_image(&Ok(linked)).is_err());
    assert!(validate_staged_image(&Err("gone".to_owned())).is_err());
}
