use snapdog_os_installer::catalog::{
    hex_digit, percent_decode, read_manifest, read_releases, validate_catalog,
    validate_download_manifest, validate_immutable_url, validate_parsed_url, validate_read_catalog,
    validate_read_manifest, CatalogClient, CatalogError, CatalogRoute, ManifestReading,
    IMAGE_BASE_URL,
};
use snapdog_os_installer::model::{Board, Channel, ImageInfo, Manifest, ReleaseCatalog};
use snapdog_os_installer::urls::UrlParts;

fn manifest(schema_version: Option<u32>, version: &str) -> Manifest {
    let boards = Board::ALL
        .into_iter()
        .map(|board| {
            let filename = format!("snapdog-os-{}-{version}.img.gz", board.id());
            (
                board.id().to_owned(),
                ImageInfo {
                    image: format!("snapdog-os-{}-release.img.gz", board.id()),
                    sha256: Some("a".repeat(64)),
                    url: Some(format!("{IMAGE_BASE_URL}{filename}")),
                    compressed_size: Some(42),
                    uncompressed_size: Some(84),
                    raw_sha256: Some("b".repeat(64)),
                },
            )
        })
        .collect::<Vec<_>>();
    Manifest {
        schema_version,
        channel: Channel::Release,
        version: version.to_owned(),
        commit: None,
        date: "2026-07-19T00:00:00Z".to_owned(),
        boards,
    }
}

fn set_url(manifest: &mut Manifest, id: &str, url: Option<String>) {
    for (name, image) in &mut manifest.boards {
        if name == id {
            image.url = url.clone();
        }
    }
}

#[test]
fn resolves_relative_image_name() {
    let url = CatalogClient::image_url("snapdog-os-pi4-release.img.gz").unwrap();
    assert_eq!(
        url,
        "https://updates.snapdog.cc/os/images/snapdog-os-pi4-release.img.gz"
    );
}

#[test]
fn keeps_versioned_https_url() {
    let url = CatalogClient::image_url(
        "https://github.com/SnapDogRocks/snapdog-os/releases/download/v0.12.1/image.img.gz",
    )
    .unwrap();
    assert_eq!(
        url,
        "https://github.com/SnapDogRocks/snapdog-os/releases/download/v0.12.1/image.img.gz"
    );
}

#[test]
fn rejects_non_https_url() {
    assert!(CatalogClient::image_url("http://example.com/image.img.gz").is_err());
}

#[test]
fn accepts_v1_without_v2_urls() {
    let mut manifest = manifest(None, "not-validated-for-v1");
    for (_, image) in &mut manifest.boards {
        image.url = None;
    }

    assert!(validate_download_manifest(&manifest).is_ok());
}

#[test]
fn accepts_absolute_board_and_version_bound_v2_urls() {
    let mut manifest = manifest(Some(2), "1.2.3-beta.4+build.5");
    set_url(
        &mut manifest,
        "pi4",
        Some(format!(
            "{IMAGE_BASE_URL}snapdog-os-pi4-1.2.3-beta.4%2Bbuild.5.img.gz"
        )),
    );

    assert!(validate_download_manifest(&manifest).is_ok());
}

#[test]
fn rejects_non_immutable_v2_urls() {
    let invalid = [
        "snapdog-os-pi4-1.2.3.img.gz",
        "http://updates.snapdog.cc/os/images/snapdog-os-pi4-1.2.3.img.gz",
        "https://updates.snapdog.cc/os/images/snapdog-os-pi4-release.img.gz",
        "https://updates.snapdog.cc/os/images/snapdog-os-pi5-1.2.3.img.gz",
        "https://updates.snapdog.cc/os/images/snapdog-os-pi4-1.2.2.img.gz",
        "https://updates.snapdog.cc/os/images/snapdog-os-pi4-1.2.3.img.gz?mutable=1",
        "https://updates.snapdog.cc/os/images/snapdog-os-pi4-1.2.3.img.gz/",
    ];
    for value in invalid {
        let mut manifest = manifest(Some(2), "1.2.3");
        set_url(&mut manifest, "pi4", Some(value.to_owned()));

        assert!(
            validate_download_manifest(&manifest).is_err(),
            "accepted invalid URL {value}"
        );
    }
}

#[test]
fn rejects_unknown_manifest_schema() {
    assert!(validate_download_manifest(&manifest(Some(3), "1.2.3")).is_err());
}

#[test]
fn accepts_newest_first_catalog() {
    let catalog = ReleaseCatalog {
        schema_version: 1,
        channel: Channel::Release,
        releases: vec![manifest(Some(2), "1.2.3"), manifest(Some(2), "1.2.2")],
    };

    assert!(validate_catalog(&catalog, Channel::Release).is_ok());
}

#[test]
fn rejects_unsafe_catalog_shapes() {
    let valid = ReleaseCatalog {
        schema_version: 1,
        channel: Channel::Release,
        releases: vec![manifest(Some(2), "1.2.3"), manifest(Some(2), "1.2.2")],
    };

    let mut unsorted = valid.clone();
    unsorted.releases.reverse();
    assert!(validate_catalog(&unsorted, Channel::Release).is_err());

    let mut duplicate = valid.clone();
    duplicate.releases[1] = duplicate.releases[0].clone();
    assert!(validate_catalog(&duplicate, Channel::Release).is_err());

    let mut wrong_channel = valid.clone();
    wrong_channel.channel = Channel::Beta;
    assert!(validate_catalog(&wrong_channel, Channel::Release).is_err());

    let mut unknown_schema = valid;
    unknown_schema.schema_version = 2;
    assert!(validate_catalog(&unknown_schema, Channel::Release).is_err());
}

#[test]
fn catalog_addresses_name_the_channel() {
    assert_eq!(
        CatalogClient::latest_url(Channel::Release),
        "https://updates.snapdog.cc/os/images/latest-release.json"
    );
    assert_eq!(
        CatalogClient::catalog_url(Channel::Beta),
        "https://updates.snapdog.cc/os/images/catalog-beta.json"
    );
}

#[test]
fn missing_catalog_is_told_from_a_failed_one() {
    assert!(matches!(CatalogClient::route(404), CatalogRoute::FetchLatest));
    assert!(matches!(CatalogClient::route(200), CatalogRoute::ReadCatalog));
}

#[test]
fn failed_request_is_reported_with_its_cause() {
    let error = CatalogClient::fetch_latest(Err("no route".to_owned())).unwrap_err();
    assert!(matches!(error, CatalogError::Request(_)));
    assert_eq!(
        error.message(),
        "could not contact the SnapDog release service: no route"
    );
    let error = CatalogClient::image_url("http://example.com/a").unwrap_err();
    assert_eq!(
        error.message(),
        "the release service returned an invalid image URL: http://example.com/a"
    );
    let error = CatalogClient::fetch_latest(Ok(manifest(Some(3), "1.2.3"))).unwrap_err();
    assert!(matches!(error, CatalogError::InvalidManifest(_)));
}

#[test]
fn percent_escapes_are_decoded_once() {
    assert_eq!(percent_decode("a%2Bb").as_deref(), Some("a+b"));
    assert_eq!(percent_decode("%252B").as_deref(), Some("%2B"));
    assert_eq!(percent_decode("a%2"), None);
    assert_eq!(percent_decode("%zz"), None);
    assert_eq!(percent_decode("%ff"), None);
    assert_eq!(hex_digit(b'a'), Some(10));
    assert_eq!(hex_digit(b'g'), None);
}

#[test]
fn immutable_url_is_bound_to_one_board() {
    let url = format!("{IMAGE_BASE_URL}snapdog-os-pi4-1.2.3.img.gz");
    assert!(validate_immutable_url(&url, Board::Pi4, "1.2.3").is_ok());
    assert!(validate_immutable_url(&url, Board::Pi5, "1.2.3").is_err());
    assert!(validate_immutable_url(&url, Board::Pi4, "1.2.4").is_err());
}

fn image_parts(segment: &str) -> UrlParts {
    UrlParts {
        text: format!("https://example.com/{segment}"),
        scheme: "https".to_owned(),
        host: Some("example.com".to_owned()),
        username: String::new(),
        password: None,
        query: None,
        fragment: None,
        last_segment: Some(segment.to_owned()),
    }
}

fn reason(result: Result<(), CatalogError>) -> String {
    match result {
        Err(CatalogError::InvalidManifest(reason)) => reason,
        other => panic!("{other:?}"),
    }
}

#[test]
fn parsed_urls_are_judged_by_their_parts() {
    let check = |parts: Option<UrlParts>| validate_parsed_url(&parts, Board::Pi4, "1.2.3");
    let good = image_parts("snapdog-os-pi4-1.2.3.img.gz");
    assert!(check(Some(good.clone())).is_ok());
    assert_eq!(reason(check(None)), "pi4 image URL must be absolute HTTPS");
    let unadorned = "pi4 image URL must be an unadorned absolute HTTPS URL";
    let mut http = good.clone();
    http.scheme = "http".to_owned();
    assert_eq!(reason(check(Some(http))), unadorned);
    let mut named = good.clone();
    named.username = "user".to_owned();
    assert_eq!(reason(check(Some(named))), unadorned);
    let mut query = good.clone();
    query.query = Some("mutable=1".to_owned());
    assert_eq!(reason(check(Some(query))), unadorned);
    assert_eq!(
        reason(check(Some(image_parts("")))),
        "pi4 image URL is missing a filename"
    );
    assert_eq!(
        reason(check(Some(image_parts("%zz")))),
        "pi4 image URL contains an invalid filename"
    );
    assert_eq!(
        reason(check(Some(image_parts("other.img.gz")))),
        "pi4 image URL must end in \"snapdog-os-pi4-1.2.3.img.gz\""
    );
}

#[test]
fn manifests_are_judged_by_what_was_read_of_them() {
    let manifest = manifest(Some(2), "1.2.3");
    let mut reading = read_manifest(&manifest);
    assert!(reading.is_version);
    assert_eq!(reading.urls.len(), 4);
    assert!(validate_read_manifest(&manifest, &reading).is_ok());
    reading.urls[2] = None;
    assert_eq!(
        reason(validate_read_manifest(&manifest, &reading)),
        "pi3 image URL must be absolute HTTPS"
    );
    reading.is_version = false;
    assert_eq!(
        reason(validate_read_manifest(&manifest, &reading)),
        "invalid SnapDog OS version \"1.2.3\""
    );
    let nothing = ManifestReading {
        is_version: true,
        urls: Vec::new(),
    };
    assert!(validate_read_manifest(&manifest, &nothing).is_err());
}

#[test]
fn catalogs_are_judged_by_what_was_read_of_their_releases() {
    let catalog = ReleaseCatalog {
        schema_version: 1,
        channel: Channel::Release,
        releases: vec![manifest(Some(2), "1.2.3"), manifest(Some(2), "1.2.2")],
    };
    let mut readings = read_releases(&catalog.releases);
    assert!(validate_read_catalog(&catalog, Channel::Release, &readings).is_ok());
    readings[1].is_newer = true;
    assert_eq!(
        reason(validate_read_catalog(&catalog, Channel::Release, &readings)),
        "catalog releases are not sorted newest first"
    );
    readings.truncate(1);
    assert!(validate_read_catalog(&catalog, Channel::Release, &readings).is_err());
}

#[test]
fn resolved_images_have_to_be_https() {
    let resolved = |scheme: &str| Some((scheme.to_owned(), format!("{scheme}://a/b")));
    assert_eq!(
        CatalogClient::accept_image_url("b", resolved("https")).unwrap(),
        "https://a/b"
    );
    assert!(CatalogClient::accept_image_url("b", resolved("http")).is_err());
    assert!(CatalogClient::accept_image_url("b", None).is_err());
}
