//! The installer's guided workflow: what the user has chosen, what is going on, and what each
//! action of theirs changes.

use vstd::prelude::*;
use vstd::string::*;

pub mod numbers;
pub mod phases;
pub mod release;
pub mod screens;

use crate::app::phases::{OperationPhase, Position};
use crate::app::release::{required_integrity, validate_release_image};
use crate::catalog;
use crate::catalog::CatalogClient;
use crate::drives;
use crate::drives::{DriveError, DriveErrorView};
use crate::model::{
    Board, Channel, Drive, DriveView, ImageSelection, ImageSelectionView, Manifest, ManifestView,
};
use crate::pipeline::{
    PipelineError, PipelineEvent, PipelineReport, PipelineReportView, PipelineRequest,
};
use crate::text;
use crate::urls;
use crate::urls::join_url;
use crate::worker::WorkerDrive;

verus! {

broadcast use vstd::seq_lib::group_seq_properties;

// ---------------------------------------------------------------------------------------------
// Messages
// ---------------------------------------------------------------------------------------------

/// What loading a catalog came to.
#[derive(Debug)]
pub enum CatalogEvent {
    Loaded(Channel, Manifest),
    Failed(String),
}

/// Why an operation ended without success.
#[derive(Clone, Debug, PartialEq, Eq)]
pub struct OperationFailure {
    pub message: String,
    pub cancelled: bool,
}

/// What an [`OperationFailure`] holds.
pub struct OperationFailureView {
    pub message: Seq<char>,
    pub cancelled: bool,
}

impl View for OperationFailure {
    type V = OperationFailureView;

    open spec fn view(&self) -> OperationFailureView {
        OperationFailureView { message: self.message@, cancelled: self.cancelled }
    }
}

impl OperationFailure {
    /// The failure of a pipeline.
    pub fn of(error: &PipelineError) -> (failure: OperationFailure)
        ensures
            failure@ == (OperationFailureView {
                message: error@.text(),
                cancelled: error@ is Cancelled,
            }),
    {
        let cancelled = matches!(error, PipelineError::Cancelled);
        OperationFailure { message: error.message(), cancelled }
    }
}

/// What comes from a running operation.
#[derive(Debug)]
pub enum OperationMessage {
    Event(PipelineEvent),
    Finished(Result<PipelineReport, OperationFailure>),
}

// ---------------------------------------------------------------------------------------------
// The state
// ---------------------------------------------------------------------------------------------

/// An operation that is going on.
#[derive(Debug)]
pub struct RunningOperation {
    pub selection: ImageSelection,
    pub drive: Drive,
    pub position: Position,
    pub verification_enabled: bool,
    pub cancel_requested: bool,
    pub skip_requested: bool,
}

/// What a [`RunningOperation`] holds.
pub struct RunningView {
    pub selection: ImageSelectionView,
    pub drive: DriveView,
    pub position: Position,
    pub verification_enabled: bool,
    pub cancel_requested: bool,
    pub skip_requested: bool,
}

impl View for RunningOperation {
    type V = RunningView;

    open spec fn view(&self) -> RunningView {
        RunningView {
            selection: self.selection@,
            drive: self.drive@,
            position: self.position,
            verification_enabled: self.verification_enabled,
            cancel_requested: self.cancel_requested,
            skip_requested: self.skip_requested,
        }
    }
}

/// An operation that succeeded.
#[derive(Debug)]
pub struct SuccessState {
    pub report: PipelineReport,
    pub selection: ImageSelection,
    pub drive: Drive,
    pub elapsed_seconds: u64,
}

/// What a [`SuccessState`] holds.
pub struct SuccessView {
    pub report: PipelineReportView,
    pub selection: ImageSelectionView,
    pub drive: DriveView,
    pub elapsed_seconds: u64,
}

impl View for SuccessState {
    type V = SuccessView;

    open spec fn view(&self) -> SuccessView {
        SuccessView {
            report: self.report@,
            selection: self.selection@,
            drive: self.drive@,
            elapsed_seconds: self.elapsed_seconds,
        }
    }
}

/// An operation that failed.
#[derive(Debug)]
pub struct FailureState {
    pub failure: OperationFailure,
    pub selection: ImageSelection,
    pub drive: Drive,
    pub phase: OperationPhase,
}

/// What a [`FailureState`] holds.
pub struct FailureView {
    pub failure: OperationFailureView,
    pub selection: ImageSelectionView,
    pub drive: DriveView,
    pub phase: OperationPhase,
}

impl View for FailureState {
    type V = FailureView;

    open spec fn view(&self) -> FailureView {
        FailureView {
            failure: self.failure@,
            selection: self.selection@,
            drive: self.drive@,
            phase: self.phase,
        }
    }
}

/// What is going on.
#[derive(Debug)]
pub enum OperationState {
    Idle,
    Running(RunningOperation),
    Succeeded(SuccessState),
    Failed(FailureState),
}

/// What an [`OperationState`] holds.
pub enum OperationView {
    Idle,
    Running(RunningView),
    Succeeded(SuccessView),
    Failed(FailureView),
}

impl View for OperationState {
    type V = OperationView;

    open spec fn view(&self) -> OperationView {
        match *self {
            OperationState::Idle => OperationView::Idle,
            OperationState::Running(running) => OperationView::Running(running@),
            OperationState::Succeeded(success) => OperationView::Succeeded(success@),
            OperationState::Failed(failure) => OperationView::Failed(failure@),
        }
    }
}

/// What is shown above the screen.
#[derive(Clone, Copy, Debug, PartialEq, Eq, Structural)]
pub enum Overlay {
    TargetPicker,
    EraseConfirmation,
    SkipConfirmation,
    Settings,
    ThirdPartyNotices,
    CloseConfirmation,
}

/// What the user can ask for on the screen of an operation.
#[derive(Clone, Copy, Debug, PartialEq, Eq, Structural)]
pub enum ScreenAction {
    Stay,
    Cancel,
    Skip,
    Reset,
    Back,
    Retry,
    Done,
}

/// The state of the workflow.
#[verifier::ext_equal]
pub struct AppState {
    pub stable: Option<ManifestView>,
    pub beta: Option<ManifestView>,
    pub catalog_error: Option<Seq<char>>,
    pub board: Option<Board>,
    pub channel: Channel,
    pub confirmed: Option<ImageSelectionView>,
    pub drives: Seq<DriveView>,
    pub selected_drive: Option<DriveView>,
    pub drive_status: Option<Seq<char>>,
    pub operation: OperationView,
    pub overlay: Option<Overlay>,
    pub verify_after_write: bool,
    pub quit_after_operation: bool,
}

impl AppState {
    /// The workflow before anything was chosen.
    pub open spec fn initial() -> AppState {
        AppState {
            stable: None,
            beta: None,
            catalog_error: None,
            board: None,
            channel: Channel::Release,
            confirmed: None,
            drives: Seq::empty(),
            selected_drive: None,
            drive_status: None,
            operation: OperationView::Idle,
            overlay: None,
            verify_after_write: true,
            quit_after_operation: false,
        }
    }

    /// The newest release of the chosen channel.
    pub open spec fn manifest(self) -> Option<ManifestView> {
        match self.channel {
            Channel::Release => self.stable,
            Channel::Beta => self.beta,
        }
    }

    /// Nothing that depends on the image is chosen any more.
    pub open spec fn without_image(self) -> AppState {
        AppState {
            confirmed: None,
            selected_drive: None,
            drives: Seq::empty(),
            drive_status: None,
            ..self
        }
    }

    /// A board is chosen.
    pub open spec fn with_board(self, board: Board) -> AppState {
        (AppState { board: Some(board), ..self }).without_image()
    }

    /// A channel is chosen.
    pub open spec fn with_channel(self, channel: Channel) -> AppState {
        (AppState { channel, ..self }).without_image()
    }

    /// The drives that were found are shown, once an image is confirmed.
    pub open spec fn picker(self, found: Result<Seq<DriveView>, DriveErrorView>) -> AppState {
        if self.confirmed is Some {
            AppState { overlay: Some(Overlay::TargetPicker), ..self.refresh(found) }
        } else {
            self
        }
    }

    /// The listed drive with this number is chosen, once an image is confirmed.
    pub open spec fn with_drive(self, index: int) -> AppState {
        if self.confirmed is Some && 0 <= index < self.drives.len() {
            AppState { selected_drive: Some(self.drives[index]), overlay: None, ..self }
        } else {
            self
        }
    }

    /// It is chosen whether what was written is read back.
    pub open spec fn with_verification(self, verify: bool) -> AppState {
        AppState { verify_after_write: verify, ..self }
    }

    /// The user's wish to cancel was passed on.
    pub open spec fn cancelling(self) -> AppState {
        match self.operation {
            OperationView::Running(running) => AppState {
                operation: OperationView::Running(
                    RunningView { cancel_requested: true, ..running },
                ),
                ..self
            },
            _ => self,
        }
    }

    /// The user's wish to skip the verification was passed on, or could not be.
    pub open spec fn skipping(self, passed_on: bool) -> AppState {
        AppState {
            overlay: None,
            operation: match self.operation {
                OperationView::Running(running) => OperationView::Running(
                    RunningView {
                        skip_requested: running.skip_requested || (self.can_skip() && passed_on),
                        ..running
                    },
                ),
                other => other,
            },
            ..self
        }
    }

    /// The window is asked to close.
    pub open spec fn closing(self) -> AppState {
        if self.operation is Running && !self.quit_after_operation {
            AppState { overlay: Some(Overlay::CloseConfirmation), ..self }
        } else {
            self
        }
    }

    /// Whether quitting cancels what is going on.
    pub open spec fn quitting_cancels(self) -> bool {
        self.operation matches OperationView::Running(running) && running.position.phase
            != OperationPhase::Syncing && running.position.phase != OperationPhase::Ejecting
    }

    /// The user wants to quit as soon as it is safe.
    pub open spec fn quitting(self) -> AppState {
        AppState {
            quit_after_operation: true,
            overlay: None,
            operation: match self.operation {
                OperationView::Running(running) => OperationView::Running(
                    RunningView {
                        cancel_requested: running.cancel_requested || self.quitting_cancels(),
                        ..running
                    },
                ),
                other => other,
            },
            ..self
        }
    }

    /// A catalog was loaded, or was not.
    pub open spec fn catalog(self, event: CatalogEvent) -> AppState {
        match event {
            CatalogEvent::Loaded(channel, manifest) => match channel {
                Channel::Release => AppState { stable: Some(manifest@), ..self },
                Channel::Beta => AppState { beta: Some(manifest@), ..self },
            },
            CatalogEvent::Failed(error) => AppState { catalog_error: Some(error@), ..self },
        }
    }

    /// The chosen image is confirmed, with what its reference was resolved to.
    pub open spec fn confirm_resolved(self, resolved: Option<(Seq<char>, Seq<char>)>) -> AppState {
        match (self.board, self.manifest()) {
            (Some(board), Some(manifest)) => match release::release_fault(manifest, board) {
                Some(fault) => AppState { catalog_error: Some(fault), ..self },
                None => {
                    let refused = AppState {
                        catalog_error: Some(url_error(image_reference(manifest, board))),
                        ..self
                    };
                    match resolved {
                        Some((scheme, url)) => if scheme == "https"@ {
                            AppState {
                                confirmed: Some(ImageSelectionView { board, manifest, url }),
                                selected_drive: None,
                                drives: Seq::empty(),
                                catalog_error: None,
                                ..self
                            }
                        } else {
                            refused
                        },
                        None => refused,
                    }
                },
            },
            _ => self,
        }
    }

    /// The chosen image is confirmed.
    pub open spec fn confirm(self) -> AppState {
        match (self.board, self.manifest()) {
            (Some(board), Some(manifest)) => self.confirm_resolved(
                urls::joined_url(catalog::IMAGE_BASE_URL@, image_reference(manifest, board)),
            ),
            _ => self,
        }
    }

    /// Drives were looked for.
    pub open spec fn refresh(self, found: Result<Seq<DriveView>, DriveErrorView>) -> AppState {
        match found {
            Ok(drives) => AppState {
                drives,
                selected_drive: match self.selected_drive {
                    Some(selected) => if is_listed(drives, selected) {
                        Some(selected)
                    } else {
                        None
                    },
                    None => None,
                },
                drive_status: Some(
                    if drives.len() == 0 {
                        "No removable physical drive found. Insert an SD card and refresh."@
                    } else {
                        "Choose exactly one target. Its contents will be erased."@
                    },
                ),
                ..self
            },
            Err(error) => AppState {
                drives: Seq::empty(),
                selected_drive: None,
                drive_status: Some(error.text()),
                ..self
            },
        }
    }

    /// Why nothing can be flashed yet. `supported` tells whether this platform can.
    pub open spec fn request_fault(self, supported: bool) -> Option<Seq<char>> {
        match (self.confirmed, self.selected_drive) {
            (None, _) => Some("Choose an image first"@),
            (_, None) => Some("Select a target first"@),
            (Some(selection), Some(drive)) => if !supported {
                Some("Flashing is not available on this platform yet"@)
            } else {
                match selection.manifest.image(selection.board) {
                    None => Some("Selected release has no image for this Raspberry Pi"@),
                    Some(image) => if release::release_fault(
                        selection.manifest,
                        selection.board,
                    ) is Some {
                        release::release_fault(selection.manifest, selection.board)
                    } else if image.uncompressed_size->0 > drive.capacity {
                        Some("The selected target is too small for this image"@)
                    } else {
                        None
                    },
                }
            },
        }
    }

    /// The operation on the chosen image and target begins.
    pub open spec fn begin(self, supported: bool) -> AppState {
        if self.request_fault(supported) is Some {
            self
        } else {
            AppState {
                operation: OperationView::Running(
                    RunningView {
                        selection: self.confirmed->0,
                        drive: self.selected_drive->0,
                        position: Position {
                            phase: OperationPhase::Downloading,
                            processed: Some(0),
                            total: None,
                        },
                        verification_enabled: self.verify_after_write,
                        cancel_requested: false,
                        skip_requested: false,
                    },
                ),
                overlay: None,
                ..self
            }
        }
    }

    /// A message of a running operation has come.
    pub open spec fn message(self, message: OperationMessage, elapsed_seconds: u64) -> AppState {
        match self.operation {
            OperationView::Running(running) => match message {
                OperationMessage::Event(event) => AppState {
                    operation: OperationView::Running(
                        RunningView { position: running.position.after(event), ..running },
                    ),
                    ..self
                },
                OperationMessage::Finished(result) => AppState {
                    operation: match result {
                        Ok(report) => OperationView::Succeeded(
                            SuccessView {
                                report: report@,
                                selection: running.selection,
                                drive: running.drive,
                                elapsed_seconds,
                            },
                        ),
                        Err(failure) => OperationView::Failed(
                            FailureView {
                                failure: failure@,
                                selection: running.selection,
                                drive: running.drive,
                                phase: running.position.phase,
                            },
                        ),
                    },
                    overlay: None,
                    ..self
                },
            },
            _ => self,
        }
    }

    /// Everything is to be chosen again.
    pub open spec fn reset(self) -> AppState {
        AppState {
            operation: OperationView::Idle,
            board: None,
            channel: Channel::Release,
            confirmed: None,
            selected_drive: None,
            drives: Seq::empty(),
            drive_status: None,
            catalog_error: None,
            overlay: None,
            ..self
        }
    }

    /// The target is to be chosen again.
    pub open spec fn back(self) -> AppState {
        AppState {
            operation: OperationView::Idle,
            selected_drive: None,
            drives: Seq::empty(),
            drive_status: Some("Select the target again before retrying."@),
            overlay: None,
            ..self
        }
    }

    /// Whether the verification that is going on can be skipped.
    pub open spec fn can_skip(self) -> bool {
        self.operation matches OperationView::Running(running) && running.position.phase
            == OperationPhase::Verifying && !running.skip_requested
    }

    /// Something is shown above the screen.
    pub open spec fn with_overlay(self, overlay: Overlay) -> AppState {
        AppState { overlay: Some(overlay), ..self }
    }

    /// Nothing is shown above the screen.
    pub open spec fn without_overlay(self) -> AppState {
        AppState { overlay: None, ..self }
    }

    /// What is said where no drive is listed.
    pub open spec fn picker_status(self) -> Seq<char> {
        match self.drive_status {
            Some(status) => status,
            None => "No removable physical drive found."@,
        }
    }

    /// Whether what is shown may change without the user.
    pub open spec fn is_waiting(self) -> bool {
        self.operation is Running || self.stable is None || self.beta is None
    }

    /// What the workflow keeps: a target is chosen only for a confirmed image, and an image is
    /// confirmed only where its release can be installed.
    pub open spec fn well_formed(self) -> bool {
        &&& self.selected_drive is Some ==> self.confirmed is Some
        &&& self.confirmed matches Some(selection) ==> release::release_fault(
            selection.manifest,
            selection.board,
        ) is None
        &&& self.operation matches OperationView::Running(running) ==> release::release_fault(
            running.selection.manifest,
            running.selection.board,
        ) is None
    }
}

/// What the image of a board is downloaded by.
pub open spec fn image_reference(manifest: ManifestView, board: Board) -> Seq<char> {
    match manifest.image(board) {
        Some(image) => match image.url {
            Some(url) => url@,
            None => image.image@,
        },
        None => Seq::empty(),
    }
}

/// What is said of an image that cannot be resolved.
pub open spec fn url_error(reference: Seq<char>) -> Seq<char> {
    "the release service returned an invalid image URL: "@ + reference
}

/// Whether drives hold one with the same identity.
pub open spec fn is_listed(drives: Seq<DriveView>, selected: DriveView) -> bool {
    exists|i: int|
        0 <= i < drives.len() && (#[trigger] drives[i]).id == selected.id && drives[i].device
            == selected.device && drives[i].capacity == selected.capacity
}

/// `SnapDog`'s guided three-step installer workflow.
#[derive(Debug)]
pub struct SnapDogInstallerApp {
    stable: Option<Manifest>,
    beta: Option<Manifest>,
    catalog_error: Option<String>,
    board: Option<Board>,
    channel: Channel,
    confirmed: Option<ImageSelection>,
    drives: Vec<Drive>,
    selected_drive: Option<Drive>,
    drive_status: Option<String>,
    operation: OperationState,
    overlay: Option<Overlay>,
    verify_after_write: bool,
    quit_after_operation: bool,
}

/// The view of an optional manifest.
pub open spec fn manifest_view(manifest: Option<Manifest>) -> Option<ManifestView> {
    match manifest {
        Some(manifest) => Some(manifest@),
        None => None,
    }
}

/// The view of an optional selection.
pub open spec fn selection_view(selection: Option<ImageSelection>) -> Option<ImageSelectionView> {
    match selection {
        Some(selection) => Some(selection@),
        None => None,
    }
}

/// The view of an optional drive.
pub open spec fn drive_view(drive: Option<Drive>) -> Option<DriveView> {
    match drive {
        Some(drive) => Some(drive@),
        None => None,
    }
}

impl View for SnapDogInstallerApp {
    type V = AppState;

    closed spec fn view(&self) -> AppState {
        AppState {
            stable: manifest_view(self.stable),
            beta: manifest_view(self.beta),
            catalog_error: text::optional_text(self.catalog_error),
            board: self.board,
            channel: self.channel,
            confirmed: selection_view(self.confirmed),
            drives: drives::drive_views(self.drives@),
            selected_drive: drive_view(self.selected_drive),
            drive_status: text::optional_text(self.drive_status),
            operation: self.operation@,
            overlay: self.overlay,
            verify_after_write: self.verify_after_write,
            quit_after_operation: self.quit_after_operation,
        }
    }
}

/// What came of looking for drives.
pub open spec fn found_view(found: Result<Vec<Drive>, DriveError>) -> Result<
    Seq<DriveView>,
    DriveErrorView,
> {
    match found {
        Ok(drives) => Ok(drives::drive_views(drives@)),
        Err(error) => Err(error@),
    }
}

/// Whether a request is the one that the workflow asks for.
pub open spec fn is_request(request: PipelineRequest, state: AppState) -> bool {
    &&& state.confirmed matches Some(selection)
    &&& state.selected_drive matches Some(drive)
    &&& selection.manifest.image(selection.board) matches Some(image)
    &&& request.image_url@ == selection.url
    &&& text::optional_text(request.expected_compressed_sha256) == text::optional_text(image.sha256)
    &&& request.expected_compressed_size == image.compressed_size
    &&& request.expected_raw_size == image.uncompressed_size
    &&& text::optional_text(request.expected_raw_sha256) == text::optional_text(image.raw_sha256)
    &&& request.drive@ == drives::worker_view(drive)
    &&& request.verify == state.verify_after_write
}

impl Default for SnapDogInstallerApp {
    fn default() -> (app: SnapDogInstallerApp)
        ensures
            app@ == AppState::initial(),
            app@.well_formed(),
    {
        let app = SnapDogInstallerApp {
            stable: None,
            beta: None,
            catalog_error: None,
            board: None,
            channel: Channel::Release,
            confirmed: None,
            drives: Vec::new(),
            selected_drive: None,
            drive_status: None,
            operation: OperationState::Idle,
            overlay: None,
            verify_after_write: true,
            quit_after_operation: false,
        };
        assert(app@.drives =~= Seq::<DriveView>::empty());
        app
    }
}

impl SnapDogInstallerApp {
    // -----------------------------------------------------------------------------------------
    // Looking
    // -----------------------------------------------------------------------------------------

    /// The chosen board.
    pub fn board(&self) -> (result: Option<Board>)
        ensures
            result == self@.board,
    {
        self.board
    }

    /// The chosen channel.
    pub fn channel(&self) -> (result: Channel)
        ensures
            result == self@.channel,
    {
        self.channel
    }

    /// The newest release of the chosen channel, where it was loaded.
    pub fn selected_manifest(&self) -> (result: Option<&Manifest>)
        ensures
            match result {
                Some(manifest) => self@.manifest() == Some(manifest@),
                None => self@.manifest() is None,
            },
    {
        match self.channel {
            Channel::Release => match &self.stable {
                Some(manifest) => Some(manifest),
                None => None,
            },
            Channel::Beta => match &self.beta {
                Some(manifest) => Some(manifest),
                None => None,
            },
        }
    }

    /// Why a catalog could not be loaded or an image not be confirmed.
    pub fn catalog_error(&self) -> (result: &Option<String>)
        ensures
            text::optional_text(*result) == self@.catalog_error,
    {
        &self.catalog_error
    }

    /// The confirmed image.
    pub fn confirmed(&self) -> (result: &Option<ImageSelection>)
        ensures
            selection_view(*result) == self@.confirmed,
    {
        &self.confirmed
    }

    /// The chosen target.
    pub fn selected_drive(&self) -> (result: &Option<Drive>)
        ensures
            drive_view(*result) == self@.selected_drive,
    {
        &self.selected_drive
    }

    /// What is said of the drives.
    pub fn drive_status(&self) -> (result: &Option<String>)
        ensures
            text::optional_text(*result) == self@.drive_status,
    {
        &self.drive_status
    }

    /// The drives that can be chosen.
    pub fn listed_drives(&self) -> (result: &Vec<Drive>)
        ensures
            drives::drive_views(result@) == self@.drives,
    {
        &self.drives
    }

    /// What is going on.
    pub fn operation(&self) -> (result: &OperationState)
        ensures
            result@ == self@.operation,
    {
        &self.operation
    }

    /// What is shown above the screen.
    pub fn overlay(&self) -> (result: Option<Overlay>)
        ensures
            result == self@.overlay,
    {
        self.overlay
    }

    /// Whether what was written is read back.
    pub fn verify_after_write(&self) -> (result: bool)
        ensures
            result == self@.verify_after_write,
    {
        self.verify_after_write
    }

    /// Whether the screen is to be drawn again without a reason.
    pub fn needs_repaint(&self) -> (result: bool)
        ensures
            result == self@.is_waiting(),
    {
        matches!(self.operation, OperationState::Running(_)) || self.stable.is_none()
            || self.beta.is_none()
    }

    // -----------------------------------------------------------------------------------------
    // Choosing an image
    // -----------------------------------------------------------------------------------------

    /// Take what loading a catalog came to.
    pub fn receive_catalog(&mut self, event: CatalogEvent)
        ensures
            final(self)@ == old(self)@.catalog(event),
    {
        match event {
            CatalogEvent::Loaded(channel, manifest) => match channel {
                Channel::Release => {
                    self.stable = Some(manifest);
                },
                Channel::Beta => {
                    self.beta = Some(manifest);
                },
            },
            CatalogEvent::Failed(error) => {
                self.catalog_error = Some(error);
            },
        }
    }

    fn clear_drives(&mut self)
        ensures
            final(self)@ == (AppState { drives: Seq::empty(), ..old(self)@ }),
    {
        self.drives = Vec::new();
        assert(self@.drives =~= Seq::<DriveView>::empty());
    }

    fn clear_image_dependants(&mut self)
        ensures
            final(self)@ == old(self)@.without_image(),
    {
        self.confirmed = None;
        self.selected_drive = None;
        self.clear_drives();
        self.drive_status = None;
    }

    /// Choose a board. What depends on the image is to be chosen again.
    pub fn choose_board(&mut self, board: Board)
        ensures
            final(self)@ == old(self)@.with_board(board),
    {
        self.board = Some(board);
        self.clear_image_dependants();
    }

    /// Choose a channel. What depends on the image is to be chosen again.
    pub fn choose_channel(&mut self, channel: Channel)
        ensures
            final(self)@ == old(self)@.with_channel(channel),
    {
        self.channel = channel;
        self.clear_image_dependants();
    }

    /// Confirm the chosen image, if its release can be installed.
    pub fn confirm_selection(&mut self)
        ensures
            final(self)@ == old(self)@.confirm(),
    {
        let resolved = match (self.board, self.selected_manifest()) {
            (Some(board), Some(manifest)) => match manifest.image_for(board) {
                Some(image) => join_url(catalog::IMAGE_BASE_URL, image.download_reference()),
                None => None,
            },
            _ => None,
        };
        self.confirm_resolved(resolved);
    }

    /// Confirm the chosen image, with the scheme and the URL that its reference was resolved to,
    /// where it could be.
    pub fn confirm_resolved(&mut self, resolved: Option<(String, String)>)
        ensures
            final(self)@ == old(self)@.confirm_resolved(
                match resolved {
                    Some((scheme, url)) => Some((scheme@, url@)),
                    None => None,
                },
            ),
    {
        let board = match self.board {
            Some(board) => board,
            None => {
                return;
            },
        };
        let manifest = match self.selected_manifest() {
            Some(manifest) => manifest.copy(),
            None => {
                return;
            },
        };
        match validate_release_image(&manifest, board) {
            Err(error) => {
                self.catalog_error = Some(error);
                return;
            },
            Ok(()) => {},
        }
        let reference = match manifest.image_for(board) {
            Some(image) => image.download_reference().to_owned(),
            None => {
                return;
            },
        };
        assert(reference@ == image_reference(manifest@, board));
        match CatalogClient::accept_image_url(reference.as_str(), resolved) {
            Ok(url) => {
                self.confirmed = Some(ImageSelection { board, manifest, url });
                self.selected_drive = None;
                self.clear_drives();
                self.catalog_error = None;
            },
            Err(error) => {
                self.catalog_error = Some(error.message());
            },
        }
    }

    // -----------------------------------------------------------------------------------------
    // Choosing a target
    // -----------------------------------------------------------------------------------------

    fn lists(&self, selected: &Drive) -> (result: bool)
        ensures
            result == is_listed(self@.drives, selected@),
    {
        let mut index: usize = 0;
        while index < self.drives.len()
            invariant
                index <= self.drives@.len(),
                forall|i: int|
                    0 <= i < index ==> !((#[trigger] self@.drives[i]).id == selected@.id
                        && self@.drives[i].device == selected@.device && self@.drives[i].capacity
                        == selected@.capacity),
            decreases self.drives@.len() - index,
        {
            let drive: &Drive = &self.drives[index];
            assert(self@.drives[index as int] == drive@);
            if drive.id == selected.id && drive.device == selected.device && drive.capacity
                == selected.capacity {
                return true;
            }
            index += 1;
        }
        false
    }

    /// Take the drives that were found. A chosen drive stays chosen only if it was found again.
    pub fn refresh_drives(&mut self, found: Result<Vec<Drive>, DriveError>)
        ensures
            final(self)@ == old(self)@.refresh(found_view(found)),
    {
        match found {
            Ok(drives) => {
                self.drives = drives;
                let stays = match &self.selected_drive {
                    Some(selected) => self.lists(selected),
                    None => true,
                };
                if !stays {
                    self.selected_drive = None;
                }
                self.drive_status = Some(
                    if self.drives.len() == 0 {
                        "No removable physical drive found. Insert an SD card and refresh.".to_owned()
                    } else {
                        "Choose exactly one target. Its contents will be erased.".to_owned()
                    },
                );
            },
            Err(error) => {
                self.clear_drives();
                self.selected_drive = None;
                self.drive_status = Some(error.message());
            },
        }
    }

    /// Show the drives that were found, once an image is confirmed.
    pub fn pick_target(&mut self, found: Result<Vec<Drive>, DriveError>)
        ensures
            final(self)@ == old(self)@.picker(found_view(found)),
    {
        if self.confirmed.is_some() {
            self.refresh_drives(found);
            self.overlay = Some(Overlay::TargetPicker);
        }
    }

    /// Choose the listed drive with this number, once an image is confirmed.
    pub fn choose_drive(&mut self, index: usize)
        ensures
            final(self)@ == old(self)@.with_drive(index as int),
    {
        if self.confirmed.is_some() && index < self.drives.len() {
            self.selected_drive = Some(self.drives[index].copy());
            self.overlay = None;
        }
    }

    // -----------------------------------------------------------------------------------------
    // Flashing
    // -----------------------------------------------------------------------------------------

    /// What to flash, where everything was chosen and the release can be installed. `supported`
    /// tells whether this platform can flash.
    pub fn pipeline_request(&self, supported: bool) -> (result: Result<PipelineRequest, String>)
        ensures
            match result {
                Ok(request) => self@.request_fault(supported) is None && is_request(request, self@),
                Err(fault) => self@.request_fault(supported) == Some(fault@),
            },
    {
        let selection = match &self.confirmed {
            Some(selection) => selection,
            None => {
                return Err("Choose an image first".to_owned());
            },
        };
        let drive = match &self.selected_drive {
            Some(drive) => drive,
            None => {
                return Err("Select a target first".to_owned());
            },
        };
        if !supported {
            return Err("Flashing is not available on this platform yet".to_owned());
        }
        let image = match selection.manifest.image_for(selection.board) {
            Some(image) => image,
            None => {
                return Err("Selected release has no image for this Raspberry Pi".to_owned());
            },
        };
        match validate_release_image(&selection.manifest, selection.board) {
            Err(error) => {
                return Err(error);
            },
            Ok(()) => {},
        }
        let integrity = match required_integrity(image) {
            Ok(integrity) => integrity,
            Err(error) => {
                return Err(error);
            },
        };
        if integrity.raw_size > drive.capacity {
            return Err("The selected target is too small for this image".to_owned());
        }
        Ok(
            PipelineRequest {
                image_url: selection.url.clone(),
                expected_compressed_sha256: Some(integrity.compressed_sha256),
                expected_compressed_size: Some(integrity.compressed_size),
                expected_raw_size: Some(integrity.raw_size),
                expected_raw_sha256: Some(integrity.raw_sha256),
                drive: WorkerDrive {
                    id: drive.id.clone(),
                    device: drive.device.clone(),
                    capacity: drive.capacity,
                },
                verify: self.verify_after_write,
            },
        )
    }

    /// Ask the user to confirm, once there is something to flash.
    pub fn ask_to_erase(&mut self, supported: bool)
        ensures
            final(self)@ == (if old(self)@.request_fault(supported) is None {
                AppState { overlay: Some(Overlay::EraseConfirmation), ..old(self)@ }
            } else {
                old(self)@
            }),
    {
        if self.pipeline_request(supported).is_ok() {
            self.overlay = Some(Overlay::EraseConfirmation);
        }
    }

    /// Begin the operation. The request is to be run.
    pub fn start_operation(&mut self, supported: bool) -> (request: Option<PipelineRequest>)
        ensures
            final(self)@ == old(self)@.begin(supported),
            match request {
                Some(request) => old(self)@.request_fault(supported) is None && is_request(
                    request,
                    old(self)@,
                ),
                None => old(self)@.request_fault(supported) is Some,
            },
    {
        let request = match self.pipeline_request(supported) {
            Ok(request) => request,
            Err(_) => {
                return None;
            },
        };
        let selection = match &self.confirmed {
            Some(selection) => selection.copy(),
            None => {
                return None;
            },
        };
        let drive = match &self.selected_drive {
            Some(drive) => drive.copy(),
            None => {
                return None;
            },
        };
        self.operation = OperationState::Running(
            RunningOperation {
                selection,
                drive,
                position: Position {
                    phase: OperationPhase::Downloading,
                    processed: Some(0),
                    total: None,
                },
                verification_enabled: request.verify,
                cancel_requested: false,
                skip_requested: false,
            },
        );
        self.overlay = None;
        Some(request)
    }

    /// Take a message of the running operation, so many seconds after it began. Tells whether the
    /// window is to be closed now.
    pub fn receive_operation(&mut self, message: OperationMessage, elapsed_seconds: u64) -> (close:
        bool)
        ensures
            final(self)@ == old(self)@.message(message, elapsed_seconds),
            close == (old(self)@.operation is Running && message is Finished
                && old(self)@.quit_after_operation),
    {
        let mut operation = OperationState::Idle;
        core::mem::swap(&mut operation, &mut self.operation);
        match operation {
            OperationState::Running(mut running) => match message {
                OperationMessage::Event(event) => {
                    let mut position = running.position;
                    position.apply_pipeline_event(&event);
                    running.position = position;
                    self.operation = OperationState::Running(running);
                    false
                },
                OperationMessage::Finished(result) => {
                    self.operation = match result {
                        Ok(report) => OperationState::Succeeded(
                            SuccessState {
                                report,
                                selection: running.selection,
                                drive: running.drive,
                                elapsed_seconds,
                            },
                        ),
                        Err(failure) => OperationState::Failed(
                            FailureState {
                                failure,
                                selection: running.selection,
                                drive: running.drive,
                                phase: running.position.phase,
                            },
                        ),
                    };
                    self.overlay = None;
                    self.quit_after_operation
                },
            },
            other => {
                self.operation = other;
                false
            },
        }
    }

    // -----------------------------------------------------------------------------------------
    // During and after an operation
    // -----------------------------------------------------------------------------------------

    /// The user's wish to cancel was passed on.
    pub fn note_cancel(&mut self)
        ensures
            final(self)@ == old(self)@.cancelling(),
    {
        let mut operation = OperationState::Idle;
        core::mem::swap(&mut operation, &mut self.operation);
        self.operation = match operation {
            OperationState::Running(mut running) => {
                running.cancel_requested = true;
                OperationState::Running(running)
            },
            other => other,
        };
    }

    /// Whether the verification that is going on can be skipped.
    pub fn can_skip(&self) -> (result: bool)
        ensures
            result == self@.can_skip(),
    {
        match &self.operation {
            OperationState::Running(running) => {
                running.position.phase == OperationPhase::Verifying && !running.skip_requested
            },
            _ => false,
        }
    }

    /// The user's wish to skip the verification was passed on, or could not be. The question is
    /// answered either way.
    pub fn note_skip(&mut self, passed_on: bool)
        ensures
            final(self)@ == old(self)@.skipping(passed_on),
    {
        let skip = self.can_skip() && passed_on;
        let mut operation = OperationState::Idle;
        core::mem::swap(&mut operation, &mut self.operation);
        self.operation = match operation {
            OperationState::Running(mut running) => {
                running.skip_requested = running.skip_requested || skip;
                OperationState::Running(running)
            },
            other => other,
        };
        self.overlay = None;
    }

    /// Everything is to be chosen again.
    pub fn reset_for_another(&mut self)
        ensures
            final(self)@ == old(self)@.reset(),
    {
        self.operation = OperationState::Idle;
        self.board = None;
        self.channel = Channel::Release;
        self.confirmed = None;
        self.selected_drive = None;
        self.clear_drives();
        self.drive_status = None;
        self.catalog_error = None;
        self.overlay = None;
    }

    /// The target is to be chosen again.
    pub fn return_to_setup(&mut self)
        ensures
            final(self)@ == old(self)@.back(),
    {
        self.operation = OperationState::Idle;
        self.selected_drive = None;
        self.clear_drives();
        self.drive_status = Some("Select the target again before retrying.".to_owned());
        self.overlay = None;
    }

    /// The window is asked to close. Tells whether it has to stay open for now.
    pub fn close_requested(&mut self) -> (stay: bool)
        ensures
            stay == old(self)@.operation is Running,
            final(self)@ == old(self)@.closing(),
    {
        let running = matches!(self.operation, OperationState::Running(_));
        if running && !self.quit_after_operation {
            self.overlay = Some(Overlay::CloseConfirmation);
        }
        running
    }

    /// The user wants to quit as soon as it is safe. Tells whether the operation is to be
    /// cancelled.
    pub fn stop_and_quit(&mut self) -> (cancel: bool)
        ensures
            cancel == old(self)@.quitting_cancels(),
            final(self)@ == old(self)@.quitting(),
    {
        self.quit_after_operation = true;
        self.overlay = None;
        let cancel = match &self.operation {
            OperationState::Running(running) => running.position.phase.can_cancel(),
            _ => false,
        };
        if cancel {
            self.note_cancel();
        }
        cancel
    }

    /// Show something above the screen.
    pub fn show_overlay(&mut self, overlay: Overlay)
        ensures
            final(self)@ == old(self)@.with_overlay(overlay),
    {
        self.overlay = Some(overlay);
    }

    /// Show nothing above the screen.
    pub fn close_overlay(&mut self)
        ensures
            final(self)@ == old(self)@.without_overlay(),
    {
        self.overlay = None;
    }

    /// Choose whether what was written is read back.
    pub fn set_verify_after_write(&mut self, verify: bool)
        ensures
            final(self)@ == old(self)@.with_verification(verify),
    {
        self.verify_after_write = verify;
    }
}

// ---------------------------------------------------------------------------------------------
// Laws
// ---------------------------------------------------------------------------------------------

/// Whatever the user does, a target stays chosen only for a confirmed image, and no image stays
/// confirmed whose release cannot be installed.
pub proof fn workflow_stays_well_formed(
    state: AppState,
    event: CatalogEvent,
    board: Board,
    channel: Channel,
    found: Result<Seq<DriveView>, DriveErrorView>,
    supported: bool,
    message: OperationMessage,
    elapsed_seconds: u64,
)
    requires
        state.well_formed(),
    ensures
        state.catalog(event).well_formed(),
        (AppState { board: Some(board), ..state }).without_image().well_formed(),
        (AppState { channel, ..state }).without_image().well_formed(),
        state.confirm().well_formed(),
        state.refresh(found).well_formed(),
        forall|index: int|
            state.confirmed is Some && 0 <= index < state.drives.len() ==> (AppState {
                selected_drive: Some(#[trigger] state.drives[index]),
                ..state
            }).well_formed(),
        state.begin(supported).well_formed(),
        state.message(message, elapsed_seconds).well_formed(),
        state.reset().well_formed(),
        state.back().well_formed(),
{
}

/// Only a release with complete integrity metadata enters the destructive path: what is flashed has
/// both checksums and both sizes, its URL was confirmed, and it fits the one selected target.
pub proof fn flashed_release_has_complete_integrity(
    state: AppState,
    supported: bool,
    request: PipelineRequest,
)
    requires
        state.request_fault(supported) is None,
        is_request(request, state),
    ensures
        state.confirmed matches Some(selection) && selection.manifest.schema_version == Some(
            release::INTEGRITY_SCHEMA,
        ),
        request.expected_compressed_sha256 matches Some(hash) && crate::digest::is_sha256_text(
            hash@,
        ),
        request.expected_raw_sha256 matches Some(hash) && crate::digest::is_sha256_text(hash@),
        request.expected_compressed_size matches Some(size) && size > 0,
        request.expected_raw_size matches Some(size) && 0 < size <= request.drive.capacity,
        state.selected_drive matches Some(drive) && request.drive@ == drives::worker_view(drive),
{
    let selection = state.confirmed->0;
    let image = selection.manifest.image(selection.board)->0;
    assert(release::integrity_fault(image) is None);
    assert(release::hash_fault(text::optional_text(image.sha256), "compressed image"@) is None);
    assert(release::hash_fault(text::optional_text(image.raw_sha256), "raw image"@) is None);
    assert(release::size_fault(image.compressed_size, "compressed image"@) is None);
    assert(release::size_fault(image.uncompressed_size, "raw image"@) is None);
}

/// A chosen drive that is not found again is not the target any more, nor is one whose identity has
/// changed.
pub proof fn vanished_target_is_forgotten(
    state: AppState,
    found: Result<Seq<DriveView>, DriveErrorView>,
)
    ensures
        state.refresh(found).selected_drive matches Some(drive) ==> state.selected_drive == Some(
            drive,
        ) && (found matches Ok(drives) && is_listed(drives, drive)),
{
}

/// A change of the board or the channel forgets both the confirmed image and the target.
pub proof fn changed_image_forgets_the_target(state: AppState, board: Board, channel: Channel)
    ensures
        (AppState { board: Some(board), ..state }).without_image().confirmed is None,
        (AppState { board: Some(board), ..state }).without_image().selected_drive is None,
        (AppState { channel, ..state }).without_image().confirmed is None,
        (AppState { channel, ..state }).without_image().selected_drive is None,
        (AppState { channel, ..state }).without_image().request_fault(true) is Some,
{
}

/// The release of the chosen channel is the one that was last loaded for it: loading a release for
/// a channel makes it the one that is shown once that channel is chosen, and changes nothing for the
/// other channel. Choosing a board or a channel keeps every release that was loaded.
pub proof fn chosen_channel_shows_its_own_release(
    state: AppState,
    loaded: Channel,
    manifest: Manifest,
    other: Channel,
    board: Board,
)
    requires
        other != loaded,
    ensures
        ({
            let after = state.catalog(CatalogEvent::Loaded(loaded, manifest));
            &&& after.with_channel(loaded).manifest() == Some(manifest@)
            &&& after.with_channel(loaded).channel == loaded
            &&& after.with_channel(other).manifest() == state.with_channel(other).manifest()
            &&& state.channel == loaded ==> after.manifest() == Some(manifest@)
            &&& state.channel == other ==> after.manifest() == state.manifest()
            &&& after.with_board(board).manifest() == after.manifest()
            &&& after.with_board(board).board == Some(board)
            &&& after.channel == state.channel && after.board == state.board
        }),
{
}

/// The release that was last loaded for a channel, if one was.
pub open spec fn last_loaded(events: Seq<CatalogEvent>, channel: Channel) -> Option<ManifestView>
    decreases events.len(),
{
    if events.len() == 0 {
        None
    } else {
        match events.last() {
            CatalogEvent::Loaded(loaded, manifest) => if loaded == channel {
                Some(manifest@)
            } else {
                last_loaded(events.drop_last(), channel)
            },
            CatalogEvent::Failed(_) => last_loaded(events.drop_last(), channel),
        }
    }
}

/// The workflow after some catalogs were loaded, or were not.
pub open spec fn after_catalogs(events: Seq<CatalogEvent>) -> AppState
    decreases events.len(),
{
    if events.len() == 0 {
        AppState::initial()
    } else {
        after_catalogs(events.drop_last()).catalog(events.last())
    }
}

/// Whichever catalogs were loaded, in whichever order: the release that a channel offers is the one
/// that was last loaded for this channel, and there is none where none was.
pub proof fn channel_offers_what_was_last_loaded_for_it(
    events: Seq<CatalogEvent>,
    channel: Channel,
)
    ensures
        after_catalogs(events).with_channel(channel).manifest() == last_loaded(events, channel),
    decreases events.len(),
{
    if events.len() > 0 {
        channel_offers_what_was_last_loaded_for_it(events.drop_last(), channel);
    }
}

/// Whether a release can be installed on a board: it has the schema with integrity metadata, and an
/// image for the board with an immutable URL, both checksums in 64 hexadecimal digits, and both
/// sizes.
pub open spec fn is_installable(manifest: ManifestView, board: Board) -> bool {
    &&& manifest.schema_version == Some(2u32)
    &&& manifest.image(board) matches Some(image)
    &&& image.url is Some
    &&& image.sha256 matches Some(hash)
    &&& hash@.len() == 64 && text::all_hex(hash@)
    &&& image.raw_sha256 matches Some(raw_hash)
    &&& raw_hash@.len() == 64 && text::all_hex(raw_hash@)
    &&& image.compressed_size matches Some(size)
    &&& size > 0
    &&& image.uncompressed_size matches Some(raw_size)
    &&& raw_size > 0
}

proof fn installable_releases_have_no_fault(manifest: ManifestView, board: Board)
    ensures
        release::release_fault(manifest, board) is None <==> is_installable(manifest, board),
{
    if let Some(image) = manifest.image(board) {
        assert(release::integrity_fault(image) is None <==> (release::hash_fault(
            text::optional_text(image.sha256),
            "compressed image"@,
        ) is None && release::hash_fault(
            text::optional_text(image.raw_sha256),
            "raw image"@,
        ) is None && release::size_fault(image.compressed_size, "compressed image"@) is None
            && release::size_fault(image.uncompressed_size, "raw image"@) is None));
    }
}

/// Confirming takes exactly what was chosen: where a board is chosen, the release of the chosen
/// channel can be installed on it, and its reference is resolved to an HTTPS URL, that board, that
/// release and that URL are confirmed and no target is chosen. In every other case what was
/// confirmed stays as it was, and where a board and a release are there, it is said why.
pub proof fn confirmed_image_is_the_chosen_one(
    state: AppState,
    resolved: Option<(Seq<char>, Seq<char>)>,
)
    ensures
        ({
            let after = state.confirm_resolved(resolved);
            let accepted = state.board is Some && state.manifest() is Some && is_installable(
                state.manifest()->0,
                state.board->0,
            ) && (resolved matches Some((scheme, url)) && scheme == "https"@);
            &&& accepted ==> {
                &&& after.confirmed == Some(
                    ImageSelectionView {
                        board: state.board->0,
                        manifest: state.manifest()->0,
                        url: (resolved->0).1,
                    },
                )
                &&& after.selected_drive is None
                &&& after.catalog_error is None
            }
            &&& !accepted ==> after.confirmed == state.confirmed && after.selected_drive
                == state.selected_drive
            &&& !accepted && state.board is Some && state.manifest() is Some
                ==> after.catalog_error is Some
            &&& after.board == state.board && after.channel == state.channel
            &&& after.manifest() == state.manifest()
            &&& after.operation == state.operation
            &&& after.verify_after_write == state.verify_after_write
        }),
{
    if state.board is Some && state.manifest() is Some {
        installable_releases_have_no_fault(state.manifest()->0, state.board->0);
    }
}

/// A request can be made exactly where an image is confirmed, a target is chosen, the platform can
/// flash, the release can be installed and the image fits the target.
pub proof fn request_needs_image_and_target_that_fit(state: AppState, supported: bool)
    ensures
        state.request_fault(supported) is None <==> {
            &&& state.confirmed matches Some(selection)
            &&& state.selected_drive matches Some(drive)
            &&& supported
            &&& is_installable(selection.manifest, selection.board)
            &&& selection.manifest.image(selection.board)->0.uncompressed_size->0 <= drive.capacity
        },
{
    if let Some(selection) = state.confirmed {
        installable_releases_have_no_fault(selection.manifest, selection.board);
    }
}

/// What is flashed is what was chosen. Whatever was loaded and chosen before: after a board, a
/// channel, the confirmation of its release, a listed drive and whether to verify were chosen, the
/// request downloads the confirmed URL, expects the sizes and checksums that the release of that
/// channel gives for that board, names that drive, and verifies exactly where that was chosen.
pub proof fn request_is_what_was_chosen(
    before: AppState,
    channel: Channel,
    board: Board,
    url: Seq<char>,
    found: Seq<DriveView>,
    index: int,
    verify: bool,
    request: PipelineRequest,
)
    requires
        ({
            let chosen = before.with_channel(channel).with_board(board);
            &&& chosen.manifest() matches Some(manifest)
            &&& is_installable(manifest, board)
            &&& 0 <= index < found.len()
            &&& manifest.image(board)->0.uncompressed_size->0 <= found[index].capacity
            &&& is_request(
                request,
                chosen.confirm_resolved(Some(("https"@, url))).picker(Ok(found)).with_drive(
                    index,
                ).with_verification(verify),
            )
        }),
    ensures
        ({
            let manifest = before.with_channel(channel).manifest()->0;
            let image = manifest.image(board)->0;
            let ready = before.with_channel(channel).with_board(board).confirm_resolved(
                Some(("https"@, url)),
            ).picker(Ok(found)).with_drive(index).with_verification(verify);
            &&& ready.request_fault(true) is None
            &&& request.image_url@ == url
            &&& request.expected_compressed_sha256 matches Some(hash) && hash@ == image.sha256->0@
            &&& request.expected_compressed_size == image.compressed_size
            &&& request.expected_raw_size == image.uncompressed_size
            &&& request.expected_raw_sha256 matches Some(hash) && hash@ == image.raw_sha256->0@
            &&& request.drive.id@ == found[index].id
            &&& request.drive.device@ == found[index].device
            &&& request.drive.capacity == found[index].capacity
            &&& request.verify == verify
            &&& ready.begin(true).operation matches OperationView::Running(running)
            &&& running.drive == found[index]
            &&& running.selection.board == board && running.selection.manifest == manifest
                && running.selection.url == url
            &&& running.verification_enabled == verify
            &&& !running.cancel_requested && !running.skip_requested
        }),
{
    let chosen = before.with_channel(channel).with_board(board);
    confirmed_image_is_the_chosen_one(chosen, Some(("https"@, url)));
    let ready = chosen.confirm_resolved(Some(("https"@, url))).picker(Ok(found)).with_drive(
        index,
    ).with_verification(verify);
    request_needs_image_and_target_that_fit(ready, true);
}

/// A target stays chosen exactly where the drives that were found hold one with its identifier, its
/// device path and its capacity. All drives that were found are listed.
pub proof fn found_target_stays_chosen(state: AppState, found: Seq<DriveView>)
    ensures
        state.refresh(Ok(found)).drives == found,
        state.selected_drive matches Some(selected) ==> state.refresh(Ok(found)).selected_drive
            == (if exists|i: int|
            0 <= i < found.len() && (#[trigger] found[i]).id == selected.id && found[i].device
                == selected.device && found[i].capacity == selected.capacity {
            Some(selected)
        } else {
            None
        }),
        state.selected_drive is None ==> state.refresh(Ok(found)).selected_drive is None,
        state.refresh(Ok(found)).confirmed == state.confirmed,
        state.refresh(Ok(found)).drive_status matches Some(status) && status == (if found.len()
            == 0 {
            "No removable physical drive found. Insert an SD card and refresh."@
        } else {
            "Choose exactly one target. Its contents will be erased."@
        }),
{
}

/// The end of an operation shows what it came to, of the image and the target that it was started
/// with: the report where it succeeded, and else the failure with the phase in which it came. A
/// message without a running operation changes nothing.
pub proof fn end_of_an_operation_is_shown(
    state: AppState,
    report: PipelineReport,
    failure: OperationFailure,
    message: OperationMessage,
    elapsed_seconds: u64,
)
    ensures
        state.operation matches OperationView::Running(running) ==> {
            let succeeded = state.message(OperationMessage::Finished(Ok(report)), elapsed_seconds);
            let failed = state.message(OperationMessage::Finished(Err(failure)), elapsed_seconds);
            &&& succeeded.operation matches OperationView::Succeeded(success)
            &&& success.report == report@ && success.selection == running.selection
                && success.drive == running.drive && success.elapsed_seconds == elapsed_seconds
            &&& failed.operation matches OperationView::Failed(shown)
            &&& shown.failure == failure@ && shown.selection == running.selection && shown.drive
                == running.drive && shown.phase == running.position.phase
            &&& succeeded.overlay is None && failed.overlay is None
            &&& succeeded.confirmed == state.confirmed && failed.confirmed == state.confirmed
        },
        !(state.operation is Running) ==> state.message(message, elapsed_seconds) == state,
        state.operation is Running && message is Event ==> {
            let running = state.operation->Running_0;
            let after = state.message(message, elapsed_seconds);
            &&& after.operation matches OperationView::Running(later)
            &&& later.selection == running.selection && later.drive == running.drive
            &&& later.cancel_requested == running.cancel_requested && later.skip_requested
                == running.skip_requested && later.verification_enabled
                == running.verification_enabled
        },
{
}

/// Going back keeps the confirmed image and asks for the target again; starting over forgets both,
/// and keeps the releases and the settings. Either way nothing is going on any more.
pub proof fn going_back_keeps_the_image_only(state: AppState)
    ensures
        state.back().confirmed == state.confirmed,
        state.back().board == state.board && state.back().manifest() == state.manifest(),
        state.back().selected_drive is None && state.back().drives.len() == 0,
        state.back().operation is Idle && state.reset().operation is Idle,
        state.reset().confirmed is None && state.reset().board is None,
        state.reset().selected_drive is None && state.reset().drives.len() == 0,
        state.reset().channel == Channel::Release,
        state.reset().stable == state.stable && state.reset().beta == state.beta,
        state.reset().verify_after_write == state.verify_after_write,
        state.back().verify_after_write == state.verify_after_write,
        state.back().overlay is None && state.reset().overlay is None,
{
}

/// A running operation can be cancelled by quitting until it synchronizes and ejects, and its
/// verification can be skipped only while it is going on, and once.
pub proof fn requests_depend_on_the_phase(state: AppState, passed_on: bool)
    ensures
        state.operation matches OperationView::Running(running) ==> {
            let phase = running.position.phase;
            let finishing = phase == OperationPhase::Syncing || phase == OperationPhase::Ejecting;
            &&& state.cancelling().operation matches OperationView::Running(cancelled)
            &&& cancelled.cancel_requested && cancelled.skip_requested == running.skip_requested
                && cancelled.position == running.position && cancelled.drive == running.drive
            &&& state.quitting().operation matches OperationView::Running(quitting)
            &&& quitting.cancel_requested == (running.cancel_requested || !finishing)
            &&& state.quitting_cancels() == !finishing
            &&& state.quitting().quit_after_operation
            &&& state.skipping(passed_on).operation matches OperationView::Running(skipped)
            &&& skipped.skip_requested == (running.skip_requested || (passed_on && phase
                == OperationPhase::Verifying))
            &&& skipped.cancel_requested == running.cancel_requested && skipped.position
                == running.position
            &&& state.can_skip() == (phase == OperationPhase::Verifying
                && !running.skip_requested)
        },
        !(state.operation is Running) ==> !state.can_skip() && !state.quitting_cancels()
            && state.closing() == state && state.cancelling() == state,
        state.operation is Running && !state.quit_after_operation ==> state.closing().overlay
            == Some(Overlay::CloseConfirmation),
{
}

/// A catalog that could not be loaded says why, and nothing that was loaded or chosen is lost.
pub proof fn failed_catalog_says_why(state: AppState, event: CatalogEvent)
    requires
        event is Failed,
    ensures
        event matches CatalogEvent::Failed(error) ==> state.catalog(event).catalog_error == Some(
            error@,
        ),
        state.catalog(event).stable == state.stable,
        state.catalog(event).beta == state.beta,
        state.catalog(event).board == state.board,
        state.catalog(event).channel == state.channel,
        state.catalog(event).confirmed == state.confirmed,
        state.catalog(event).selected_drive == state.selected_drive,
        state.catalog(event).operation == state.operation,
{
}

/// What is written is read back unless the user says otherwise: it is so at first, and neither the
/// choice of an image and a target nor the end of an operation changes it.
pub proof fn reading_back_is_left_to_the_user(
    state: AppState,
    event: CatalogEvent,
    board: Board,
    channel: Channel,
    found: Result<Seq<DriveView>, DriveErrorView>,
    index: int,
    message: OperationMessage,
    seconds: u64,
)
    ensures
        AppState::initial().catalog(event).with_channel(channel).with_board(
            board,
        ).verify_after_write,
        state.catalog(event).verify_after_write == state.verify_after_write,
        state.with_board(board).verify_after_write == state.verify_after_write,
        state.with_channel(channel).verify_after_write == state.verify_after_write,
        state.confirm().verify_after_write == state.verify_after_write,
        state.picker(found).verify_after_write == state.verify_after_write,
        state.with_drive(index).verify_after_write == state.verify_after_write,
        state.message(message, seconds).verify_after_write == state.verify_after_write,
        state.reset().verify_after_write == state.verify_after_write,
        state.back().verify_after_write == state.verify_after_write,
{
}

/// At first nothing is chosen, loaded or going on, and to choose everything again leads back there,
/// but for what was loaded and how the user wants to work.
pub proof fn choosing_again_starts_afresh(state: AppState)
    ensures
        ({
            let first = AppState::initial();
            let again = state.reset();
            &&& first.stable is None && first.beta is None && first.board is None
            &&& first.confirmed is None && first.selected_drive is None && first.drives.len() == 0
            &&& first.operation is Idle && first.overlay is None && !first.quit_after_operation
            &&& first.channel == Channel::Release
            &&& again == (AppState {
                stable: state.stable,
                beta: state.beta,
                verify_after_write: state.verify_after_write,
                quit_after_operation: state.quit_after_operation,
                ..first
            })
        }),
{
}

/// What was shown above the screen goes when it is closed, and nothing else with it. A look for
/// drives says what came of it where none is listed.
pub proof fn overlays_come_and_go(
    state: AppState,
    overlay: Overlay,
    found: Result<Seq<DriveView>, DriveErrorView>,
)
    ensures
        state.with_overlay(overlay).overlay == Some(overlay),
        state.with_overlay(overlay).without_overlay() == state.without_overlay(),
        state.overlay is None ==> state.with_overlay(overlay).without_overlay() == state,
        state.overlay is None ==> state.without_overlay() == state,
        found matches Err(error) ==> state.refresh(found).picker_status() == error.text(),
        state.refresh(found).drive_status == Some(state.refresh(found).picker_status()),
        state.drive_status is None ==> state.picker_status()
            == "No removable physical drive found."@,
{
}

/// The screen can rest only where both catalogs were loaded and nothing goes on; and while an
/// operation goes on, quitting cancels it exactly where its phase can be cancelled.
pub proof fn resting_and_quitting_go_by_the_operation(state: AppState)
    ensures
        !state.is_waiting() <==> !(state.operation is Running) && state.stable is Some
            && state.beta is Some,
        state.operation matches OperationView::Running(running) ==> state.quitting_cancels()
            == running.position.phase.is_cancellable(),
{
}

/// With another board or channel nothing that depended on the image stays chosen: neither the image
/// nor a target, nor the drives that were listed for it. What was loaded stays.
pub proof fn another_choice_drops_the_image(state: AppState, board: Board, channel: Channel)
    ensures
        ({
            let boarded = state.with_board(board);
            let channelled = state.with_channel(channel);
            &&& boarded.board == Some(board) && boarded.channel == state.channel
            &&& channelled.channel == channel && channelled.board == state.board
            &&& boarded.confirmed is None && channelled.confirmed is None
            &&& boarded.selected_drive is None && channelled.selected_drive is None
            &&& boarded.drives.len() == 0 && channelled.drives.len() == 0
            &&& boarded.drive_status is None && channelled.drive_status is None
            &&& boarded.stable == state.stable && channelled.stable == state.stable
            &&& boarded.beta == state.beta && channelled.beta == state.beta
            &&& boarded.operation == state.operation && channelled.operation == state.operation
        }),
{
}

/// The target is picked from the drives that were just found, and only once an image is confirmed.
/// Where none could be looked for, none is offered.
pub proof fn targets_are_picked_from_what_was_found(
    state: AppState,
    found: Result<Seq<DriveView>, DriveErrorView>,
)
    ensures
        state.confirmed is None ==> state.picker(found) == state,
        state.confirmed is Some ==> {
            let picker = state.picker(found);
            &&& picker.overlay == Some(Overlay::TargetPicker)
            &&& picker.confirmed == state.confirmed
            &&& found matches Ok(drives) ==> picker.drives == drives
            &&& found matches Err(error) ==> picker.drives.len() == 0 && picker.selected_drive is None
                && picker.drive_status == Some(error.text())
        },
{
}

} // verus!
