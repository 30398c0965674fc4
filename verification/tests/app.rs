use snapdog_os_installer::app::numbers::{
    format_bytes, format_duration, progress_permille, progress_text,
};
use snapdog_os_installer::app::phases::{OperationPhase, Position};
use snapdog_os_installer::app::release::{
    required_hash, required_size, supports_manifest_schema, validate_release_image,
};
use snapdog_os_installer::app::screens::{
    failure_actions, failure_screen, phase_strip, running_screen, success_screen, FailureChoice,
    RunningChoice, Tone,
};
use snapdog_os_installer::app::{
    CatalogEvent, OperationFailure, OperationMessage, OperationState, Overlay, ScreenAction,
    SnapDogInstallerApp,
};
use snapdog_os_installer::download::DownloadProgress;
use snapdog_os_installer::drives::DriveError;
use snapdog_os_installer::flash::{FlashProgress, FlashStage};
use snapdog_os_installer::model::{Board, Channel, Drive, ImageInfo, Manifest};
use snapdog_os_installer::pipeline::{PipelineError, PipelineEvent, PipelineReport};
use snapdog_os_installer::worker::{WorkerPhase, WorkerProgress};

fn progress_fraction(processed: Option<u64>, total: Option<u64>) -> Option<f32> {
    progress_permille(processed, total).map(|share| f32::from(share) / 1_000.0)
}

fn release_manifest(schema_version: Option<u32>) -> Manifest {
    Manifest {
        schema_version,
        channel: Channel::Release,
        version: "0.13.0".to_owned(),
        commit: Some("abc123".to_owned()),
        date: "2026-07-19T00:00:00Z".to_owned(),
        boards: vec![(
            Board::Pi4.id().to_owned(),
            ImageInfo {
                image: "snapdog-os-pi4-release.img.gz".to_owned(),
                sha256: Some("a".repeat(64)),
                url: Some(
                    "https://updates.snapdog.cc/os/images/snapdog-os-pi4-0.13.0.img.gz".to_owned(),
                ),
                compressed_size: Some(42),
                uncompressed_size: Some(84),
                raw_sha256: Some("b".repeat(64)),
            },
        )],
    }
}

#[test]
fn validates_integrity_metadata_helpers() {
    assert!(supports_manifest_schema(Some(2)));
    assert!(!supports_manifest_schema(None));
    assert!(!supports_manifest_schema(Some(1)));
    assert!(!supports_manifest_schema(Some(3)));
    assert!(required_hash(Some(&"a".repeat(64)), "image").is_ok());
    assert!(required_hash(Some("nope"), "image").is_err());
    assert_eq!(required_size(Some(42), "image").unwrap(), 42);
    assert!(required_size(Some(0), "image").is_err());
}

#[test]
fn release_selection_fails_closed_until_manifest_v2_is_complete() {
    assert!(validate_release_image(&release_manifest(Some(2)), Board::Pi4).is_ok());

    let legacy = release_manifest(None);
    assert!(validate_release_image(&legacy, Board::Pi4).is_err());

    let mut incomplete = release_manifest(Some(2));
    incomplete.boards[0].1.raw_sha256 = None;
    assert!(validate_release_image(&incomplete, Board::Pi4).is_err());
}

#[test]
fn progress_is_bounded() {
    assert_eq!(progress_fraction(Some(50), Some(100)), Some(0.5));
    assert_eq!(progress_fraction(Some(200), Some(100)), Some(1.0));
    assert_eq!(progress_fraction(Some(1), None), None);
}

#[test]
fn progress_without_a_total_has_no_share() {
    assert_eq!(progress_permille(Some(1), Some(0)), None);
    assert_eq!(progress_permille(None, Some(5)), None);
    assert_eq!(progress_permille(Some(1), Some(3)), Some(333));
    assert_eq!(progress_permille(Some(2), Some(3)), Some(666));
    assert_eq!(progress_permille(Some(u64::MAX), Some(1)), Some(1000));
}

#[test]
fn release_faults_name_what_is_missing() {
    let fault = |change: fn(&mut ImageInfo)| {
        let mut manifest = release_manifest(Some(2));
        change(&mut manifest.boards[0].1);
        validate_release_image(&manifest, Board::Pi4).unwrap_err()
    };
    assert_eq!(
        fault(|image| image.url = None),
        "Release metadata is missing the immutable image URL"
    );
    assert_eq!(
        fault(|image| image.sha256 = None),
        "Release metadata is missing the compressed image checksum"
    );
    assert_eq!(
        fault(|image| image.raw_sha256 = Some("zz".to_owned())),
        "Release metadata has an invalid raw image checksum"
    );
    assert_eq!(
        fault(|image| image.compressed_size = None),
        "Release metadata is missing the compressed image size"
    );
    assert_eq!(
        fault(|image| image.uncompressed_size = Some(0)),
        "Release metadata is missing the raw image size"
    );
    assert_eq!(
        validate_release_image(&release_manifest(Some(2)), Board::Pi5).unwrap_err(),
        "This release has no image for the selected Raspberry Pi"
    );
    assert_eq!(
        validate_release_image(&release_manifest(Some(1)), Board::Pi4).unwrap_err(),
        "This release is waiting for safe installer metadata. Try again shortly."
    );
}

#[test]
fn sizes_and_durations_are_readable() {
    assert_eq!(format_bytes(0), "0.0 MiB");
    assert_eq!(format_bytes(1_572_864), "1.5 MiB");
    assert_eq!(format_bytes(1_073_741_824), "1.00 GiB");
    assert_eq!(format_bytes(1_127_428_915), "1.04 GiB");
    assert_eq!(format_bytes(u64::MAX), "17179869183.99 GiB");
    assert_eq!(format_duration(0), "0:00");
    assert_eq!(format_duration(65), "1:05");
    assert_eq!(format_duration(3_671), "61:11");
    assert_eq!(
        progress_text(Some(1_048_576), Some(2_097_152)),
        "1.0 MiB / 2.0 MiB  •  50%"
    );
    assert_eq!(progress_text(Some(1_048_576), None), "1.0 MiB");
    assert_eq!(progress_text(Some(5), Some(0)), "0.0 MiB / 0.0 MiB  •  0%");
    assert_eq!(progress_text(None, Some(5)), "");
    assert!(progress_text(Some(u64::MAX), Some(1)).ends_with("•  1844674407370955161500%"));
}

fn drive(capacity: u64) -> Drive {
    Drive {
        id: "sdb@42".to_owned(),
        device: "/dev/sdb".to_owned(),
        name: "SD Reader".to_owned(),
        capacity,
    }
}

fn loaded() -> SnapDogInstallerApp {
    let mut app = SnapDogInstallerApp::default();
    app.receive_catalog(CatalogEvent::Loaded(
        Channel::Release,
        release_manifest(Some(2)),
    ));
    app
}

fn confirmed() -> SnapDogInstallerApp {
    let mut app = loaded();
    app.choose_board(Board::Pi4);
    app.confirm_selection();
    app
}

fn ready() -> SnapDogInstallerApp {
    let mut app = confirmed();
    app.pick_target(Ok(vec![drive(100)]));
    app.choose_drive(0);
    app
}

fn running() -> SnapDogInstallerApp {
    let mut app = ready();
    assert!(app.start_operation(true).is_some());
    app
}

#[test]
fn image_is_chosen_before_the_target() {
    let mut app = SnapDogInstallerApp::default();
    let screen = app.source_step();
    assert!(!screen.channels_enabled);
    assert!(!screen.can_confirm);
    assert_eq!(screen.version_label, "Loading releases… — Latest");
    assert!(app.needs_repaint());

    app.pick_target(Ok(vec![drive(100)]));
    assert_eq!(app.overlay(), None);
    assert_eq!(app.target_step().status, "Choose an image first");

    let mut app = confirmed();
    assert_eq!(
        app.source_step().confirm_label,
        "SnapDog OS 0.13.0 selected ✓"
    );
    assert_eq!(
        app.confirmed().as_ref().unwrap().url,
        "https://updates.snapdog.cc/os/images/snapdog-os-pi4-0.13.0.img.gz"
    );
    assert_eq!(app.flash_step(true).status, "Select a target first");
    app.choose_channel(Channel::Beta);
    assert!(app.confirmed().is_none());
    assert!(app.source_step().is_preview);
}

#[test]
fn release_that_cannot_be_installed_is_not_confirmed() {
    let mut app = SnapDogInstallerApp::default();
    app.receive_catalog(CatalogEvent::Loaded(
        Channel::Release,
        release_manifest(None),
    ));
    app.choose_board(Board::Pi4);
    assert!(!app.source_step().can_confirm);
    app.confirm_selection();
    assert!(app.confirmed().is_none());
    assert_eq!(
        app.catalog_error().as_deref(),
        Some("This release is waiting for safe installer metadata. Try again shortly.")
    );
    app.receive_catalog(CatalogEvent::Failed("offline".to_owned()));
    assert_eq!(app.source_step().catalog_error.as_deref(), Some("offline"));
}

#[test]
fn image_of_another_scheme_is_not_confirmed() {
    let mut manifest = release_manifest(Some(2));
    manifest.boards[0].1.url = Some("http://example.com/a.img.gz".to_owned());
    let mut app = SnapDogInstallerApp::default();
    app.receive_catalog(CatalogEvent::Loaded(Channel::Release, manifest));
    app.choose_board(Board::Pi4);
    app.confirm_selection();
    assert!(app.confirmed().is_none());
    assert_eq!(
        app.catalog_error().as_deref(),
        Some("the release service returned an invalid image URL: http://example.com/a.img.gz")
    );
}

#[test]
fn complete_choice_becomes_a_request() {
    let app = ready();
    let request = app.pipeline_request(true).unwrap();
    assert_eq!(request.expected_raw_size, Some(84));
    assert_eq!(request.expected_compressed_size, Some(42));
    assert_eq!(request.expected_raw_sha256, Some("b".repeat(64)));
    assert_eq!(request.expected_compressed_sha256, Some("a".repeat(64)));
    assert_eq!(request.drive.id, "sdb@42");
    assert_eq!(request.drive.capacity, 100);
    assert!(request.verify);
    assert_eq!(app.flash_step(true).status, "Ready to download and flash");
    assert_eq!(
        app.pipeline_request(false).unwrap_err(),
        "Flashing is not available on this platform yet"
    );
    let summary = app.erase_summary().unwrap();
    assert_eq!(summary.image, "SnapDog OS 0.13.0");
    assert_eq!(summary.model, "Raspberry Pi 4");
    assert_eq!(summary.verification, "Enabled");
    assert_eq!(summary.device, "/dev/sdb");
}

#[test]
fn target_that_is_too_small_is_refused() {
    let mut app = confirmed();
    app.pick_target(Ok(vec![drive(83)]));
    app.choose_drive(0);
    assert_eq!(
        app.pipeline_request(true).unwrap_err(),
        "The selected target is too small for this image"
    );
    app.ask_to_erase(true);
    assert_eq!(app.overlay(), None);
    assert!(app.start_operation(true).is_none());
    assert!(matches!(app.operation(), OperationState::Idle));
}

#[test]
fn vanished_target_is_not_kept() {
    let mut app = ready();
    app.refresh_drives(Ok(vec![drive(100)]));
    assert!(app.selected_drive().is_some());
    app.refresh_drives(Ok(vec![drive(101)]));
    assert!(app.selected_drive().is_none());

    let mut app = ready();
    app.refresh_drives(Ok(Vec::new()));
    assert!(app.selected_drive().is_none());
    assert_eq!(
        app.empty_picker_status(),
        "No removable physical drive found. Insert an SD card and refresh."
    );

    let mut app = ready();
    app.refresh_drives(Err(DriveError::Unsupported));
    assert!(app.selected_drive().is_none());
    assert_eq!(
        app.target_step().status,
        "drive discovery is not implemented on this platform"
    );
}

#[test]
fn picker_marks_the_selected_drive() {
    let mut other = drive(200);
    other.id = "sdc@43".to_owned();
    other.device = "/dev/sdc".to_owned();
    let mut app = confirmed();
    app.pick_target(Ok(vec![drive(5_000_000), other]));
    assert_eq!(app.overlay(), Some(Overlay::TargetPicker));
    app.choose_drive(1);
    assert_eq!(app.overlay(), None);
    let entries = app.target_picker();
    assert_eq!(entries[0].label, "SD Reader — 5 MB\n/dev/sdb");
    assert!(!entries[0].selected);
    assert!(entries[1].selected);
    app.choose_drive(7);
    assert_eq!(app.selected_drive().as_ref().unwrap().device, "/dev/sdc");
}

#[test]
fn position_follows_the_events() {
    let mut position = Position {
        phase: OperationPhase::Downloading,
        processed: Some(0),
        total: None,
    };
    position.apply_pipeline_event(&PipelineEvent::Download(DownloadProgress {
        downloaded: 5,
        total: Some(9),
    }));
    assert_eq!(position.processed, Some(5));
    position.apply_pipeline_event(&PipelineEvent::Preparing(FlashProgress {
        stage: FlashStage::Decompressing,
        processed: 6,
        total: Some(8),
    }));
    assert_eq!(position.phase, OperationPhase::Decompressing);
    position.apply_pipeline_event(&PipelineEvent::AwaitingAuthorization);
    assert_eq!(position.phase, OperationPhase::Authorizing);
    assert_eq!(position.processed, None);
    for (phase, shown) in [
        (WorkerPhase::ValidatingImage, OperationPhase::ValidatingImage),
        (
            WorkerPhase::ValidatingTarget,
            OperationPhase::ValidatingTarget,
        ),
        (WorkerPhase::Unmounting, OperationPhase::Unmounting),
        (WorkerPhase::Writing, OperationPhase::Writing),
        (WorkerPhase::Failed, OperationPhase::Writing),
        (WorkerPhase::Verifying, OperationPhase::Verifying),
        (WorkerPhase::Syncing, OperationPhase::Syncing),
        (WorkerPhase::Completed, OperationPhase::Ejecting),
    ] {
        position.apply_pipeline_event(&PipelineEvent::Worker(WorkerProgress::phase(phase)));
        assert_eq!(position.phase, shown);
    }
}

#[test]
fn running_operation_can_be_stopped_until_it_syncs() {
    let mut app = running();
    assert!(app.close_requested());
    assert_eq!(app.overlay(), Some(Overlay::CloseConfirmation));
    assert!(app.stop_and_quit());
    match app.operation() {
        OperationState::Running(operation) => {
            assert!(operation.cancel_requested);
            assert_eq!(running_screen(operation).choice, RunningChoice::Stopping);
        }
        _ => panic!("the operation is running"),
    }
    let failure = OperationFailure::of(&PipelineError::Cancelled);
    assert!(failure.cancelled);
    assert!(app.receive_operation(OperationMessage::Finished(Err(failure)), 3));

    let mut app = running();
    app.receive_operation(
        OperationMessage::Event(PipelineEvent::Worker(WorkerProgress::phase(
            WorkerPhase::Syncing,
        ))),
        1,
    );
    assert!(!app.stop_and_quit());
    match app.operation() {
        OperationState::Running(operation) => {
            assert!(!operation.cancel_requested);
            assert_eq!(
                running_screen(operation).choice,
                RunningChoice::Buttons {
                    can_cancel: false,
                    can_skip: false
                }
            );
        }
        _ => panic!("the operation is running"),
    }
}

#[test]
fn verification_is_skipped_only_while_it_runs() {
    let mut app = running();
    assert!(!app.can_skip());
    app.note_skip(true);
    app.receive_operation(
        OperationMessage::Event(PipelineEvent::Worker(WorkerProgress::bytes(
            WorkerPhase::Verifying,
            1_048_576,
            Some(2_097_152),
        ))),
        1,
    );
    assert!(app.can_skip());
    app.note_skip(false);
    assert!(app.can_skip());
    app.note_skip(true);
    assert!(!app.can_skip());
    match app.operation() {
        OperationState::Running(operation) => {
            let screen = running_screen(operation);
            assert_eq!(screen.choice, RunningChoice::FinishingUnverified);
            assert_eq!(screen.permille, Some(500));
            assert_eq!(screen.progress, "1.0 MiB / 2.0 MiB  •  50%");
            assert!(screen.verifying);
            assert_eq!(screen.strip[3].label, "Verify skipped");
        }
        _ => panic!("the operation is running"),
    }
}

#[test]
fn success_shows_whether_it_was_verified() {
    for verified in [true, false] {
        let mut app = running();
        let report = PipelineReport {
            bytes_downloaded: 42,
            compressed_sha256: "a".repeat(64),
            raw_size: 2_097_152,
            raw_sha256: "b".repeat(64),
            verified,
        };
        assert!(!app.receive_operation(OperationMessage::Finished(Ok(report)), 61));
        match app.operation() {
            OperationState::Succeeded(success) => {
                let screen = success_screen(success);
                assert_eq!(screen.verified, verified);
                assert_eq!(screen.written, "2.0 MiB");
                assert_eq!(screen.elapsed, "1:01");
                assert_eq!(screen.verdict.starts_with("Verified"), verified);
                assert_eq!(screen.strip[3].tone == Tone::Done, verified);
            }
            _ => panic!("the operation succeeded"),
        }
        app.reset_for_another();
        assert!(app.board().is_none());
        assert!(app.selected_manifest().is_some());
    }
}

fn failed(phase: Option<WorkerPhase>, cancelled: bool) -> SnapDogInstallerApp {
    let mut app = running();
    if let Some(phase) = phase {
        app.receive_operation(
            OperationMessage::Event(PipelineEvent::Worker(WorkerProgress::phase(phase))),
            1,
        );
    }
    let failure = OperationFailure {
        message: "it failed".to_owned(),
        cancelled,
    };
    app.receive_operation(OperationMessage::Finished(Err(failure)), 1);
    app
}

#[test]
fn retry_is_offered_only_before_the_target_was_touched() {
    for (phase, cancelled, choice) in [
        (None, false, FailureChoice::RetryOrBack),
        (None, true, FailureChoice::ChooseTargetAgain),
        (
            Some(WorkerPhase::ValidatingImage),
            false,
            FailureChoice::RetryOrBack,
        ),
        (
            Some(WorkerPhase::ValidatingTarget),
            false,
            FailureChoice::ChooseTargetAgain,
        ),
        (
            Some(WorkerPhase::Writing),
            false,
            FailureChoice::ChooseTargetAgain,
        ),
        (Some(WorkerPhase::Ejecting), false, FailureChoice::Done),
        (
            Some(WorkerPhase::Ejecting),
            true,
            FailureChoice::ChooseTargetAgain,
        ),
    ] {
        let app = failed(phase, cancelled);
        match app.operation() {
            OperationState::Failed(failure) => {
                let screen = failure_screen(failure);
                assert_eq!(screen.choice, choice);
                assert_eq!(screen.message, "it failed");
            }
            _ => panic!("the operation failed"),
        }
    }
    assert_eq!(
        failure_actions(FailureChoice::RetryOrBack),
        (ScreenAction::Back, Some(ScreenAction::Retry))
    );
}

#[test]
fn cancelled_write_may_be_incomplete() {
    let app = failed(Some(WorkerPhase::Writing), true);
    match app.operation() {
        OperationState::Failed(failure) => {
            let screen = failure_screen(failure);
            assert!(screen.may_be_incomplete);
            assert_eq!(screen.heading, "Flash cancelled");
            assert_eq!(
                screen.context,
                "Writing SnapDog OS… • Raspberry Pi 4 • SD Reader — 0 MB"
            );
        }
        _ => panic!("the operation failed"),
    }
    let mut app = app;
    app.return_to_setup();
    assert!(app.selected_drive().is_none());
    assert!(app.confirmed().is_some());
    assert_eq!(
        app.target_step().status,
        "Select the target again before retrying."
    );
}

#[test]
fn strip_shows_what_is_behind() {
    let strip = phase_strip(2, true);
    let tones: Vec<Tone> = strip.iter().map(|part| part.tone).collect();
    assert_eq!(
        tones,
        [
            Tone::Done,
            Tone::Done,
            Tone::Current,
            Tone::Muted,
            Tone::Muted
        ]
    );
    assert!(strip[2].reached);
    assert!(!strip[3].reached);
    assert_eq!(OperationPhase::Unmounting.step(), 1);
    assert_eq!(OperationPhase::Verifying.title(), "Verifying the SD card…");
    assert!(OperationPhase::Writing.detail().starts_with("Do not remove"));
}

#[test]
fn settings_change_what_is_asked_for() {
    let mut app = ready();
    app.show_overlay(Overlay::Settings);
    app.set_verify_after_write(false);
    app.close_overlay();
    assert!(!app.pipeline_request(true).unwrap().verify);
    assert_eq!(app.erase_summary().unwrap().verification, "Skipped");
    app.ask_to_erase(true);
    assert_eq!(app.overlay(), Some(Overlay::EraseConfirmation));
}

#[test]
fn confirmation_takes_only_resolved_https_images() {
    let chosen = || {
        let mut app = SnapDogInstallerApp::default();
        app.receive_catalog(CatalogEvent::Loaded(
            Channel::Release,
            release_manifest(Some(2)),
        ));
        app.choose_board(Board::Pi4);
        app
    };
    let mut app = chosen();
    app.confirm_resolved(Some(("https".to_owned(), "https://a/b".to_owned())));
    assert_eq!(app.confirmed().as_ref().unwrap().url, "https://a/b");
    let mut app = chosen();
    app.confirm_resolved(Some(("http".to_owned(), "http://a/b".to_owned())));
    assert!(app.confirmed().is_none());
    let mut app = chosen();
    app.confirm_resolved(None);
    assert!(app.confirmed().is_none());
}
