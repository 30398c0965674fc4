use snapdog_os_installer::macos_native::{
    disk_action_result, query_removable_media, DiskActionState, DiskRecord, MediaDescription,
    MediaEntry,
};

fn record(name: &str) -> DiskRecord {
    DiskRecord {
        bsd_name: name.to_owned(),
        name: Some("Card".to_owned()),
        registry_entry_id: 42,
        size: 4096,
        whole: true,
        writable: true,
        removable: true,
        ejectable: true,
        physical: true,
    }
}

fn description(name: &str) -> MediaDescription {
    MediaDescription {
        bsd_name: Some(name.to_owned()),
        size: Some(4096),
        whole: Some(true),
        writable: Some(true),
        removable: Some(true),
        ejectable: Some(true),
    }
}

#[test]
fn only_confirmed_cards_are_given_out() {
    let mut fixed = record("disk0");
    fixed.removable = false;
    let entries = vec![
        MediaEntry {
            record: Ok(None),
            description: Err("not asked".to_owned()),
        },
        MediaEntry {
            record: Ok(Some(fixed)),
            description: Err("not asked".to_owned()),
        },
        MediaEntry {
            record: Ok(Some(record("disk4"))),
            description: Ok(description("disk4")),
        },
    ];
    assert_eq!(query_removable_media(entries).unwrap(), [record("disk4")]);
}

#[test]
fn disagreement_ends_the_query() {
    let mut changed = description("disk4");
    changed.size = Some(8192);
    let entries = vec![MediaEntry {
        record: Ok(Some(record("disk4"))),
        description: Ok(changed),
    }];
    assert_eq!(
        query_removable_media(entries).unwrap_err(),
        "IOKit and Disk Arbitration disagree about disk4"
    );
    let entries = vec![MediaEntry {
        record: Err("denied".to_owned()),
        description: Ok(description("disk4")),
    }];
    assert_eq!(query_removable_media(entries).unwrap_err(), "denied");
    let entries = vec![MediaEntry {
        record: Ok(Some(record("disk4"))),
        description: Err("gone".to_owned()),
    }];
    assert_eq!(query_removable_media(entries).unwrap_err(), "gone");
}

#[test]
fn disk_actions_time_out_or_are_refused() {
    let state = |complete: bool, error: Option<&str>| DiskActionState {
        complete,
        error: error.map(str::to_owned),
    };
    assert!(disk_action_result("disk4", state(true, None)).is_ok());
    assert_eq!(
        disk_action_result("disk4", state(true, Some("busy"))).unwrap_err(),
        "busy"
    );
    assert_eq!(
        disk_action_result("disk4", state(false, None)).unwrap_err(),
        "Disk Arbitration timed out for disk4"
    );
}
