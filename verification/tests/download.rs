use hex::encode;
use sha2::{Digest, Sha256};
use snapdog_os_installer::download::{
    accept_url, follow_redirect, parse_sha256, partial_path, validate_url, Download,
    DownloadAction, DownloadClient, DownloadError, DownloadEvent, DownloadProgress, DownloadReport,
    DownloadRequest, Redirect, BUFFER_SIZE, MAX_REDIRECTS,
};
use snapdog_os_installer::urls::UrlParts;

/// The files of a test, by their paths.
#[derive(Default)]
struct Files {
    entries: Vec<(String, Vec<u8>)>,
    requests: Vec<String>,
}

impl Files {
    fn find(&self, path: &str) -> Option<usize> {
        self.entries.iter().position(|(name, _)| name == path)
    }

    fn holds(&self, path: &str) -> bool {
        self.find(path).is_some()
    }

    fn bytes(&self, path: &str) -> Option<&Vec<u8>> {
        self.find(path).map(|index| &self.entries[index].1)
    }
}

/// What a test reads from.
enum Source {
    Payload { bytes: Vec<u8>, at: usize },
    Failing { first_read: bool },
}

impl Source {
    fn of(bytes: &[u8]) -> Source {
        Source::Payload {
            bytes: bytes.to_vec(),
            at: 0,
        }
    }

    fn read(&mut self) -> Result<Vec<u8>, String> {
        match self {
            Source::Payload { bytes, at } => {
                let end = (*at + BUFFER_SIZE).min(bytes.len());
                let chunk = bytes[*at..end].to_vec();
                *at = end;
                Ok(chunk)
            }
            Source::Failing { first_read } => {
                if *first_read {
                    return Err("test".to_owned());
                }
                *first_read = true;
                Ok(b"data".to_vec())
            }
        }
    }
}

const DESTINATION: &str = "/tmp/download/snapdog-os.img.gz";

fn digest(payload: &[u8]) -> String {
    encode(Sha256::digest(payload))
}

/// Carries out what a download asks for.
fn drive(
    started: (Download, DownloadAction),
    source: &mut Source,
    files: &mut Files,
    mut cancelled: bool,
    mut observe: impl FnMut(DownloadProgress, &Files) -> bool,
) -> Result<DownloadReport, DownloadError> {
    let partial = partial_path(DESTINATION).unwrap();
    let (mut download, mut action) = started;
    let mut chunk = Vec::new();
    loop {
        let event = match action {
            DownloadAction::CheckDestination => DownloadEvent::Exists(files.holds(DESTINATION)),
            DownloadAction::Request(url) => {
                files.requests.push(url);
                DownloadEvent::Response(None)
            }
            DownloadAction::CheckPartial(path) => {
                assert_eq!(path, partial);
                DownloadEvent::Exists(files.holds(&path))
            }
            DownloadAction::CreatePartial(path) => {
                files.entries.push((path, Vec::new()));
                DownloadEvent::Done
            }
            DownloadAction::Report(progress) => {
                cancelled |= observe(progress, files);
                DownloadEvent::Done
            }
            DownloadAction::Read => match source.read() {
                Ok(bytes) => {
                    chunk = bytes.clone();
                    DownloadEvent::Chunk(bytes)
                }
                Err(cause) => DownloadEvent::Failed(cause),
            },
            DownloadAction::Write(progress) => {
                let at = files.find(&partial).unwrap();
                files.entries[at].1.extend_from_slice(&chunk);
                cancelled |= observe(progress, files);
                DownloadEvent::Done
            }
            DownloadAction::Sync => DownloadEvent::Done,
            DownloadAction::Rename => {
                let at = files.find(&partial).unwrap();
                files.entries[at].0 = DESTINATION.to_owned();
                DownloadEvent::Done
            }
            DownloadAction::Finish(report) => return Ok(report),
            DownloadAction::Fail {
                error,
                remove_partial,
            } => {
                if remove_partial {
                    let at = files.find(&partial).unwrap();
                    files.entries.remove(at);
                }
                return Err(error);
            }
        };
        action = download.step(&event, cancelled);
    }
}

#[test]
fn streams_validated_file_and_publishes_atomically() {
    let payload = vec![0x5a; BUFFER_SIZE * 2 + 17];
    let expected_digest = parse_sha256(&digest(&payload)).unwrap();
    let partial = partial_path(DESTINATION).unwrap();
    let mut snapshots = Vec::new();
    let mut files = Files::default();

    let report = drive(
        Download::transfer_to(
            DESTINATION,
            Some(expected_digest),
            Some(payload.len() as u64),
            Some(payload.len() as u64),
            false,
        ),
        &mut Source::of(&payload),
        &mut files,
        false,
        |snapshot, files| {
            assert!(!files.holds(DESTINATION));
            assert!(files.holds(&partial));
            snapshots.push(snapshot);
            false
        },
    )
    .unwrap();

    assert_eq!(files.bytes(DESTINATION), Some(&payload));
    assert!(!files.holds(&partial));
    assert_eq!(report.destination, DESTINATION);
    assert_eq!(report.bytes_downloaded, payload.len() as u64);
    assert_eq!(report.sha256, digest(&payload));
    assert_eq!(snapshots.first().unwrap().downloaded, 0);
    assert_eq!(snapshots.last().unwrap().downloaded, payload.len() as u64);
    assert!(snapshots
        .windows(2)
        .all(|pair| pair[0].downloaded <= pair[1].downloaded));
}

#[test]
fn removes_partial_file_after_checksum_failure() {
    let payload = b"corrupt image";
    let mut files = Files::default();
    let result = drive(
        Download::transfer_to(
            DESTINATION,
            Some([0_u8; 32]),
            Some(payload.len() as u64),
            None,
            false,
        ),
        &mut Source::of(payload),
        &mut files,
        false,
        |_, _| false,
    );

    assert!(matches!(result, Err(DownloadError::ChecksumMismatch)));
    assert!(!files.holds(DESTINATION));
    assert!(!files.holds(&partial_path(DESTINATION).unwrap()));
}

#[test]
fn removes_partial_file_after_size_failure() {
    let payload = b"image is too long";
    let mut files = Files::default();
    let result = drive(
        Download::transfer_to(DESTINATION, None, Some(5), None, false),
        &mut Source::of(payload),
        &mut files,
        false,
        |_, _| false,
    );

    assert!(matches!(
        result,
        Err(DownloadError::SizeMismatch {
            expected: 5,
            actual: _
        })
    ));
    assert!(!files.holds(DESTINATION));
    assert!(!files.holds(&partial_path(DESTINATION).unwrap()));
}

#[test]
fn cancellation_removes_partial_file() {
    let payload = vec![0x42; BUFFER_SIZE * 2];
    let mut files = Files::default();
    let result = drive(
        Download::transfer_to(DESTINATION, None, None, None, false),
        &mut Source::of(&payload),
        &mut files,
        false,
        |snapshot, _| snapshot.downloaded > 0,
    );

    assert!(matches!(result, Err(DownloadError::Cancelled)));
    assert!(!files.holds(DESTINATION));
    assert!(!files.holds(&partial_path(DESTINATION).unwrap()));
}

#[test]
fn reader_error_removes_partial_file() {
    let mut files = Files::default();
    let result = drive(
        Download::transfer_to(DESTINATION, None, None, None, false),
        &mut Source::Failing { first_read: false },
        &mut files,
        false,
        |_, _| false,
    );

    assert!(matches!(result, Err(DownloadError::Io(_))));
    assert!(!files.holds(DESTINATION));
    assert!(!files.holds(&partial_path(DESTINATION).unwrap()));
}

#[test]
fn rejects_http_without_starting_a_request() {
    let request = DownloadRequest::new("http://127.0.0.1/image.img.gz", DESTINATION);

    let result = DownloadClient::download(&request, false);

    assert!(matches!(result, Err(DownloadError::InsecureUrl(_))));
}

#[test]
fn existing_destination_is_not_replaced() {
    let request = DownloadRequest::new("https://example.invalid/image.img.gz", DESTINATION);
    let mut files = Files::default();
    files
        .entries
        .push((DESTINATION.to_owned(), b"keep me".to_vec()));

    let result = drive(
        DownloadClient::download(&request, false).unwrap(),
        &mut Source::of(b"other"),
        &mut files,
        false,
        |_, _| false,
    );

    assert!(matches!(result, Err(DownloadError::DestinationExists(_))));
    assert_eq!(files.bytes(DESTINATION), Some(&b"keep me".to_vec()));
    assert!(files.requests.is_empty());
}

#[test]
fn request_is_made_for_the_parsed_url() {
    let request = DownloadRequest {
        url: "https://EXAMPLE.invalid/a b.img.gz",
        destination: DESTINATION,
        expected_sha256: Some(&digest(b"image")),
        expected_size: Some(5),
    };
    let mut files = Files::default();
    let report = drive(
        DownloadClient::download(&request, false).unwrap(),
        &mut Source::of(b"image"),
        &mut files,
        false,
        |_, _| false,
    )
    .unwrap();
    assert_eq!(files.requests, ["https://example.invalid/a%20b.img.gz"]);
    assert_eq!(report.bytes_downloaded, 5);
}

#[test]
fn unacceptable_requests_are_refused() {
    assert!(matches!(
        validate_url("no url"),
        Err(DownloadError::InvalidUrl(_))
    ));
    assert!(matches!(
        parse_sha256("00"),
        Err(DownloadError::InvalidChecksum(_))
    ));
    assert!(matches!(
        partial_path("/tmp/.."),
        Err(DownloadError::InvalidDestination(_))
    ));
    let request = DownloadRequest::new("https://example.invalid/a", DESTINATION);
    assert!(matches!(
        DownloadClient::download(&request, true),
        Err(DownloadError::Cancelled)
    ));
    assert_eq!(
        partial_path("/tmp/a.img.gz").unwrap(),
        "/tmp/a.img.gz.part"
    );
}

#[test]
fn existing_partial_file_is_left_alone() {
    let partial = partial_path(DESTINATION).unwrap();
    let mut files = Files::default();
    files.entries.push((partial.clone(), b"other".to_vec()));
    let result = drive(
        Download::transfer_to(DESTINATION, None, None, None, false),
        &mut Source::of(b"image"),
        &mut files,
        false,
        |_, _| false,
    );
    assert!(matches!(result, Err(DownloadError::PartialExists(_))));
    assert_eq!(files.bytes(&partial), Some(&b"other".to_vec()));
}

#[test]
fn declared_length_must_match_the_expected_size() {
    let request = DownloadRequest {
        url: "https://example.invalid/a",
        destination: DESTINATION,
        expected_sha256: None,
        expected_size: Some(5),
    };
    let (mut download, _) = DownloadClient::download(&request, false).unwrap();
    download.step(&DownloadEvent::Exists(false), false);
    let action = download.step(&DownloadEvent::Response(Some(6)), false);
    match action {
        DownloadAction::Fail {
            error,
            remove_partial,
        } => {
            assert!(matches!(
                error,
                DownloadError::SizeMismatch {
                    expected: 5,
                    actual: 6
                }
            ));
            assert!(!remove_partial);
            assert!(error.message().contains('5'));
        }
        _ => panic!("the length is refused"),
    }
}

#[test]
fn redirects_stay_on_https() {
    assert_eq!(follow_redirect("https", 0), Redirect::Follow);
    assert_eq!(follow_redirect("http", 0), Redirect::Insecure);
    assert_eq!(follow_redirect("https", MAX_REDIRECTS), Redirect::TooMany);
}

#[test]
fn parsed_download_urls_need_https_and_a_host() {
    let mut parts = UrlParts {
        text: "https://example.com/a".to_owned(),
        scheme: "https".to_owned(),
        host: Some("example.com".to_owned()),
        username: String::new(),
        password: None,
        query: None,
        fragment: None,
        last_segment: Some("a".to_owned()),
    };
    assert_eq!(
        accept_url("HTTPS://example.com/a", Some(parts.clone())).unwrap(),
        "https://example.com/a"
    );
    assert!(matches!(
        accept_url("x", None),
        Err(DownloadError::InvalidUrl(_))
    ));
    parts.host = None;
    assert!(matches!(
        accept_url("x", Some(parts.clone())),
        Err(DownloadError::InvalidUrl(_))
    ));
    parts.scheme = "http".to_owned();
    assert!(matches!(
        accept_url("x", Some(parts)),
        Err(DownloadError::InsecureUrl(_))
    ));
}
