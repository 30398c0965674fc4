use snapdog_os_installer::model::{format_capacity, Board, Channel, Drive, ImageInfo, Manifest};

#[test]
fn board_identifiers_are_distinct() {
    for first in Board::ALL {
        for second in Board::ALL {
            assert_eq!(first.id() == second.id(), first == second);
        }
    }
    assert_eq!(Board::Zero2W.label(), "Raspberry Pi Zero 2 W");
}

#[test]
fn channels_have_names() {
    assert_eq!(Channel::default(), Channel::Release);
    assert_eq!(Channel::Release.label(), "Stable");
    assert_eq!(Channel::Beta.manifest_name(), "beta");
}

#[test]
fn capacity_below_a_gigabyte_is_in_megabytes() {
    assert_eq!(format_capacity(512_000_000), "512 MB");
    assert_eq!(format_capacity(1_000_000_000), "1.0 GB");
    assert_eq!(format_capacity(0), "0 MB");
}

#[test]
fn image_is_found_by_its_board() {
    let image = ImageInfo {
        image: "name".to_owned(),
        sha256: None,
        url: None,
        compressed_size: None,
        uncompressed_size: None,
        raw_sha256: None,
    };
    let manifest = Manifest {
        schema_version: None,
        channel: Channel::Release,
        version: "1".to_owned(),
        commit: None,
        date: String::new(),
        boards: vec![("pi4".to_owned(), image.clone())],
    };
    assert_eq!(manifest.image_for(Board::Pi4), Some(&image));
    assert_eq!(manifest.image_for(Board::Pi5), None);
    assert_eq!(image.download_reference(), "name");
    assert_eq!(manifest.copy(), manifest);
}

#[test]
fn drive_is_shown_with_its_capacity() {
    let drive = Drive {
        id: "disk7".to_owned(),
        device: "/dev/disk7".to_owned(),
        name: "SD Card Reader".to_owned(),
        capacity: 63_864_569_856,
    };
    assert_eq!(drive.label(), "SD Card Reader — 63.8 GB");
}

#[test]
fn formats_drive_capacity() {
    assert_eq!(format_capacity(31_900_000_000), "31.9 GB");
    assert_eq!(format_capacity(512_000_000), "512 MB");
}
