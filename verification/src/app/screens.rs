//! What the screens say and offer.

use vstd::prelude::*;
use vstd::string::*;

use crate::app::numbers;
use crate::app::numbers::{format_bytes, format_duration, progress_permille, progress_text};
use crate::app::phases::OperationPhase;
use crate::app::release;
use crate::app::release::validate_release_image;
use crate::app::{
    AppState, FailureState, FailureView, RunningOperation, RunningView, ScreenAction,
    SnapDogInstallerApp, SuccessState, SuccessView,
};
use crate::drives;
use crate::model;
use crate::model::{Channel, Drive, DriveView};
use crate::text;
use crate::text::{join2, join3};

verus! {

broadcast use vstd::seq_lib::group_seq_properties;

// ---------------------------------------------------------------------------------------------
// Choosing an image
// ---------------------------------------------------------------------------------------------

/// The first step.
#[derive(Debug)]
pub struct SourceScreen {
    /// Whether a channel can be chosen.
    pub channels_enabled: bool,
    /// Whether there is a version to confirm.
    pub version_enabled: bool,
    pub version_label: String,
    pub can_confirm: bool,
    pub confirm_label: String,
    /// Why the release cannot be installed.
    pub release_error: Option<String>,
    /// Whether to warn of a preview.
    pub is_preview: bool,
    pub catalog_error: Option<String>,
}

impl AppState {
    /// The version of the newest release, as it is shown.
    pub open spec fn version_words(self) -> Seq<char> {
        match self.manifest() {
            Some(manifest) => manifest.version,
            None => "Loading releases…"@,
        }
    }

    /// Why the newest release cannot be installed on the chosen board.
    pub open spec fn release_error(self) -> Option<Seq<char>> {
        match (self.board, self.manifest()) {
            (Some(board), Some(manifest)) => release::release_fault(manifest, board),
            _ => None,
        }
    }

    /// What the button that confirms an image says.
    pub open spec fn confirm_words(self) -> Seq<char> {
        match self.confirmed {
            Some(selection) => "SnapDog OS "@ + selection.manifest.version + " selected ✓"@,
            None => "Use SnapDog OS "@ + self.version_words(),
        }
    }

    /// What is said below the button that selects a target, where none is selected.
    pub open spec fn target_status(self) -> Seq<char> {
        if self.confirmed is None {
            "Choose an image first"@
        } else {
            match self.drive_status {
                Some(status) => status,
                None => "Only removable physical drives are shown. System drives are excluded."@,
            }
        }
    }
}

/// Whether a screen is the first step of a workflow in this state.
pub open spec fn is_source_screen(screen: SourceScreen, state: AppState) -> bool {
    &&& screen.channels_enabled == state.board is Some
    &&& screen.version_enabled == (state.board is Some && state.manifest() is Some)
    &&& screen.version_label@ == state.version_words() + " — Latest"@
    &&& screen.can_confirm == (state.board is Some && state.manifest() is Some
        && state.release_error() is None)
    &&& screen.confirm_label@ == state.confirm_words()
    &&& text::optional_text(screen.release_error) == state.release_error()
    &&& screen.is_preview == (state.channel == Channel::Beta)
    &&& text::optional_text(screen.catalog_error) == state.catalog_error
}

/// A drive, as it is shown.
pub open spec fn drive_words(drive: DriveView) -> Seq<char> {
    drive.name + " — "@ + model::capacity_text(drive.capacity)
}

impl SnapDogInstallerApp {
    /// The first step.
    pub fn source_step(&self) -> (screen: SourceScreen)
        ensures
            is_source_screen(screen, self@),
    {
        let manifest = self.selected_manifest();
        let version: String = match manifest {
            Some(manifest) => manifest.version.clone(),
            None => "Loading releases…".to_owned(),
        };
        let release_error = match (self.board(), manifest) {
            (Some(board), Some(manifest)) => match validate_release_image(manifest, board) {
                Ok(()) => None,
                Err(error) => Some(error),
            },
            _ => None,
        };
        let has_board = self.board().is_some();
        let confirm_label = match self.confirmed() {
            Some(selection) => join3(
                "SnapDog OS ",
                selection.manifest.version.as_str(),
                " selected ✓",
            ),
            None => join2("Use SnapDog OS ", version.as_str()),
        };
        SourceScreen {
            channels_enabled: has_board,
            version_enabled: has_board && manifest.is_some(),
            version_label: join2(version.as_str(), " — Latest"),
            can_confirm: has_board && manifest.is_some() && release_error.is_none(),
            confirm_label,
            release_error,
            is_preview: self.channel() == Channel::Beta,
            catalog_error: text::copy_text(self.catalog_error()),
        }
    }
}

// ---------------------------------------------------------------------------------------------
// Choosing a target
// ---------------------------------------------------------------------------------------------

/// The second step.
#[derive(Debug)]
pub struct TargetScreen {
    pub ready: bool,
    pub button: &'static str,
    /// The selected drive and its device, where one is selected.
    pub selected: Option<(String, String)>,
    /// What is said where none is selected.
    pub status: String,
}

/// The third step.
#[derive(Debug)]
pub struct FlashScreen {
    pub ready: bool,
    pub status: String,
}

/// One drive that can be picked.
#[derive(Debug)]
pub struct PickerEntry {
    pub label: String,
    pub selected: bool,
}

/// What an entry of the picker says, and whether it is the selected one.
pub open spec fn is_entry(entry: PickerEntry, drive: DriveView, selected: Option<DriveView>) ->
    bool {
    &&& entry.label@ == drive_words(drive) + "\n"@ + drive.device
    &&& entry.selected == (selected == Some(drive))
}

/// What is asked before a drive is erased.
#[derive(Debug)]
pub struct EraseSummary {
    pub target: String,
    pub device: String,
    pub image: String,
    pub model: &'static str,
    pub verification: &'static str,
}

/// Whether a screen is the second step of a workflow in this state.
pub open spec fn is_target_screen(screen: TargetScreen, state: AppState) -> bool {
    &&& screen.ready == state.confirmed is Some
    &&& screen.button@ == (if state.selected_drive is Some {
        "Change target"@
    } else {
        "Select target"@
    })
    &&& match (screen.selected, state.selected_drive) {
        (Some(shown), Some(drive)) => shown.0@ == drive_words(drive) && shown.1@ == drive.device,
        (None, None) => true,
        _ => false,
    }
    &&& screen.status@ == state.target_status()
}

/// Whether a screen is the third step of a workflow in this state.
pub open spec fn is_flash_screen(screen: FlashScreen, state: AppState, supported: bool) -> bool {
    &&& screen.ready == state.request_fault(supported) is None
    &&& screen.status@ == (match state.request_fault(supported) {
        Some(fault) => fault,
        None => "Ready to download and flash"@,
    })
}

/// Whether entries are those of the drives that can be picked, in the order of their numbers.
pub open spec fn is_picker(entries: Seq<PickerEntry>, state: AppState) -> bool {
    &&& entries.len() == state.drives.len()
    &&& forall|i: int|
        0 <= i < entries.len() ==> is_entry(
            #[trigger] entries[i],
            state.drives[i],
            state.selected_drive,
        )
}

/// Whether this is asked before the selected drive is erased.
pub open spec fn is_erase_summary(summary: Option<EraseSummary>, state: AppState) -> bool {
    match (summary, state.confirmed, state.selected_drive) {
        (Some(shown), Some(selection), Some(drive)) => {
            &&& shown.target@ == drive_words(drive)
            &&& shown.device@ == drive.device
            &&& shown.image@ == "SnapDog OS "@ + selection.manifest.version
            &&& shown.model@ == selection.board.label_text()
            &&& shown.verification@ == (if state.verify_after_write {
                "Enabled"@
            } else {
                "Skipped"@
            })
        },
        (None, None, _) | (None, _, None) => true,
        _ => false,
    }
}

fn same_drive(first: &Drive, second: &Drive) -> (same: bool)
    ensures
        same == (first@ == second@),
{
    first.id == second.id && first.device == second.device && first.name == second.name
        && first.capacity == second.capacity
}

impl SnapDogInstallerApp {
    /// The second step.
    pub fn target_step(&self) -> (screen: TargetScreen)
        ensures
            is_target_screen(screen, self@),
    {
        let ready = self.confirmed().is_some();
        let status: String = if !ready {
            "Choose an image first".to_owned()
        } else {
            match self.drive_status() {
                Some(status) => status.clone(),
                None => {
                    "Only removable physical drives are shown. System drives are excluded.".to_owned()
                },
            }
        };
        match self.selected_drive() {
            Some(drive) => TargetScreen {
                ready,
                button: "Change target",
                selected: Some((drive.label(), drive.device.clone())),
                status,
            },
            None => TargetScreen { ready, button: "Select target", selected: None, status },
        }
    }

    /// The third step. `supported` tells whether this platform can flash.
    pub fn flash_step(&self, supported: bool) -> (screen: FlashScreen)
        ensures
            is_flash_screen(screen, self@, supported),
    {
        match self.pipeline_request(supported) {
            Ok(_) => FlashScreen { ready: true, status: "Ready to download and flash".to_owned() },
            Err(fault) => FlashScreen { ready: false, status: fault },
        }
    }

    /// The drives that can be picked, in the order of their numbers.
    pub fn target_picker(&self) -> (entries: Vec<PickerEntry>)
        ensures
            is_picker(entries@, self@),
    {
        let listed = self.listed_drives();
        let mut entries: Vec<PickerEntry> = Vec::new();
        let mut index: usize = 0;
        while index < listed.len()
            invariant
                index <= listed@.len(),
                entries@.len() == index,
                drives::drive_views(listed@) == self@.drives,
                forall|i: int|
                    0 <= i < index ==> is_entry(
                        #[trigger] entries@[i],
                        self@.drives[i],
                        self@.selected_drive,
                    ),
            decreases listed@.len() - index,
        {
            let drive: &Drive = &listed[index];
            assert(self@.drives[index as int] == drive@);
            let selected = match self.selected_drive() {
                Some(chosen) => same_drive(chosen, drive),
                None => false,
            };
            let name = drive.label();
            entries.push(
                PickerEntry { label: join3(name.as_str(), "\n", drive.device.as_str()), selected },
            );
            index += 1;
        }
        entries
    }

    /// What the picker says where no drive can be picked.
    pub fn empty_picker_status(&self) -> (status: String)
        ensures
            status@ == self@.picker_status(),
    {
        match self.drive_status() {
            Some(status) => status.clone(),
            None => "No removable physical drive found.".to_owned(),
        }
    }

    /// What is asked before the selected drive is erased, where everything is chosen.
    pub fn erase_summary(&self) -> (summary: Option<EraseSummary>)
        ensures
            is_erase_summary(summary, self@),
    {
        match (self.confirmed(), self.selected_drive()) {
            (Some(selection), Some(drive)) => Some(
                EraseSummary {
                    target: drive.label(),
                    device: drive.device.clone(),
                    image: join2("SnapDog OS ", selection.manifest.version.as_str()),
                    model: selection.board.label(),
                    verification: if self.verify_after_write() {
                        "Enabled"
                    } else {
                        "Skipped"
                    },
                },
            ),
            _ => None,
        }
    }
}

// ---------------------------------------------------------------------------------------------
// The strip of steps
// ---------------------------------------------------------------------------------------------

/// How one step is shown.
#[derive(Clone, Copy, Debug, PartialEq, Eq, Structural)]
pub enum Tone {
    /// It is behind.
    Done,
    /// It is going on.
    Current,
    /// It is ahead, or skipped.
    Muted,
}

/// One step of the strip.
#[derive(Clone, Copy, Debug, PartialEq, Eq)]
pub struct StripPart {
    pub label: &'static str,
    pub tone: Tone,
    /// Whether the line before the step is reached.
    pub reached: bool,
}

/// The number of steps in the strip.
pub const STRIP_STEPS: usize = 5;

/// The step in which the card is read back.
pub const VERIFY_STEP: usize = 3;

/// The name of a step.
pub open spec fn strip_name(index: nat) -> Seq<char> {
    if index == 0 {
        "Download"@
    } else if index == 1 {
        "Prepare"@
    } else if index == 2 {
        "Write"@
    } else if index == 3 {
        "Verify"@
    } else {
        "Finish"@
    }
}

/// Whether a part shows the step with this number.
pub open spec fn is_strip_part(
    part: StripPart,
    index: nat,
    current: nat,
    verification_expected: bool,
) -> bool {
    let skipped = index == VERIFY_STEP && !verification_expected;
    &&& part.label@ == (if skipped {
        "Verify skipped"@
    } else {
        strip_name(index)
    })
    &&& part.tone == (if skipped || index > current {
        Tone::Muted
    } else if index < current {
        Tone::Done
    } else {
        Tone::Current
    })
    &&& part.reached == (index <= current)
}

/// Whether parts are the strip of an operation in this step.
pub open spec fn is_strip(parts: Seq<StripPart>, current: nat, verification_expected: bool) -> bool {
    &&& parts.len() == STRIP_STEPS
    &&& forall|i: int|
        0 <= i < parts.len() ==> is_strip_part(
            #[trigger] parts[i],
            i as nat,
            current,
            verification_expected,
        )
}

/// The strip of an operation in this step.
pub fn phase_strip(current: usize, verification_expected: bool) -> (parts: Vec<StripPart>)
    ensures
        is_strip(parts@, current as nat, verification_expected),
{
    let mut parts: Vec<StripPart> = Vec::new();
    let mut index: usize = 0;
    while index < STRIP_STEPS
        invariant
            index <= STRIP_STEPS,
            parts@.len() == index,
            forall|i: int|
                0 <= i < index ==> is_strip_part(
                    #[trigger] parts@[i],
                    i as nat,
                    current as nat,
                    verification_expected,
                ),
        decreases STRIP_STEPS - index,
    {
        let skipped = index == VERIFY_STEP && !verification_expected;
        let name = if index == 0 {
            "Download"
        } else if index == 1 {
            "Prepare"
        } else if index == 2 {
            "Write"
        } else if index == 3 {
            "Verify"
        } else {
            "Finish"
        };
        let label = if skipped {
            "Verify skipped"
        } else {
            name
        };
        let tone = if skipped || index > current {
            Tone::Muted
        } else if index < current {
            Tone::Done
        } else {
            Tone::Current
        };
        parts.push(StripPart { label, tone, reached: index <= current });
        index += 1;
    }
    parts
}

// ---------------------------------------------------------------------------------------------
// Operations
// ---------------------------------------------------------------------------------------------

/// What can be done while an operation runs.
#[derive(Clone, Copy, Debug, PartialEq, Eq, Structural)]
pub enum RunningChoice {
    /// The operation is being stopped.
    Stopping,
    /// The operation ends without verification.
    FinishingUnverified,
    /// Buttons to cancel and to skip the verification.
    Buttons { can_cancel: bool, can_skip: bool },
}

/// An operation that is going on.
#[derive(Debug)]
pub struct RunningScreen {
    pub strip: Vec<StripPart>,
    pub title: &'static str,
    pub detail: &'static str,
    /// How much is done, in thousandths; where that is unknown, only that something is.
    pub permille: Option<u16>,
    pub progress: String,
    /// Whether the card is being read back.
    pub verifying: bool,
    pub choice: RunningChoice,
}

impl RunningView {
    /// What can be done now.
    pub open spec fn choice(self) -> RunningChoice {
        if self.cancel_requested {
            RunningChoice::Stopping
        } else if self.skip_requested {
            RunningChoice::FinishingUnverified
        } else {
            RunningChoice::Buttons {
                can_cancel: self.position.phase != OperationPhase::Syncing && self.position.phase
                    != OperationPhase::Ejecting,
                can_skip: self.position.phase == OperationPhase::Verifying,
            }
        }
    }
}

/// Whether a screen is that of an operation that is going on.
pub open spec fn is_running_screen(screen: RunningScreen, running: RunningView) -> bool {
    let position = running.position;
    &&& is_strip(
        screen.strip@,
        position.phase.step_number(),
        running.verification_enabled && !running.skip_requested,
    )
    &&& screen.title@ == position.phase.title_text()
    &&& screen.detail@ == position.phase.detail_text()
    &&& match screen.permille {
        Some(share) => numbers::permille(position.processed, position.total) == Some(share as nat),
        None => numbers::permille(position.processed, position.total) is None,
    }
    &&& screen.progress@ == numbers::progress_words(position.processed, position.total)
    &&& screen.verifying == (position.phase == OperationPhase::Verifying)
    &&& screen.choice == running.choice()
}

/// The screen of an operation that is going on.
pub fn running_screen(running: &RunningOperation) -> (screen: RunningScreen)
    ensures
        is_running_screen(screen, running@),
{
    let phase = running.position.phase;
    let choice = if running.cancel_requested {
        RunningChoice::Stopping
    } else if running.skip_requested {
        RunningChoice::FinishingUnverified
    } else {
        RunningChoice::Buttons {
            can_cancel: phase.can_cancel(),
            can_skip: phase == OperationPhase::Verifying,
        }
    };
    RunningScreen {
        strip: phase_strip(phase.step(), running.verification_enabled && !running.skip_requested),
        title: phase.title(),
        detail: phase.detail(),
        permille: progress_permille(running.position.processed, running.position.total),
        progress: progress_text(running.position.processed, running.position.total),
        verifying: phase == OperationPhase::Verifying,
        choice,
    }
}

/// An operation that succeeded.
#[derive(Debug)]
pub struct SuccessScreen {
    pub strip: Vec<StripPart>,
    pub verified: bool,
    pub verdict: &'static str,
    pub image: String,
    pub target: String,
    pub written: String,
    pub elapsed: String,
}

/// What is said of the verification.
pub open spec fn verdict_words(verified: bool) -> Seq<char> {
    if verified {
        "Verified — the card matches the SnapDog OS release image."@
    } else {
        "Verification skipped — the image was written but not read back."@
    }
}

/// Whether a screen is that of an operation that succeeded.
pub open spec fn is_success_screen(screen: SuccessScreen, success: SuccessView) -> bool {
    &&& is_strip(screen.strip@, STRIP_STEPS as nat, success.report.verified)
    &&& screen.verified == success.report.verified
    &&& screen.verdict@ == verdict_words(success.report.verified)
    &&& screen.image@ == "SnapDog OS "@ + success.selection.manifest.version
    &&& screen.target@ == drive_words(success.drive)
    &&& screen.written@ == numbers::bytes_text(success.report.raw_size)
    &&& screen.elapsed@ == numbers::duration_words(success.elapsed_seconds)
}

/// The screen of an operation that succeeded.
pub fn success_screen(success: &SuccessState) -> (screen: SuccessScreen)
    ensures
        is_success_screen(screen, success@),
{
    SuccessScreen {
        strip: phase_strip(STRIP_STEPS, success.report.verified),
        verified: success.report.verified,
        verdict: if success.report.verified {
            "Verified — the card matches the SnapDog OS release image."
        } else {
            "Verification skipped — the image was written but not read back."
        },
        image: join2("SnapDog OS ", success.selection.manifest.version.as_str()),
        target: success.drive.label(),
        written: format_bytes(success.report.raw_size),
        elapsed: format_duration(success.elapsed_seconds),
    }
}

/// What can be done after a failure.
#[derive(Clone, Copy, Debug, PartialEq, Eq, Structural)]
pub enum FailureChoice {
    /// Only the eject failed: there is nothing more to do.
    Done,
    /// Nothing of the target was looked at: the same again, or back to the setup.
    RetryOrBack,
    /// The target has to be chosen again.
    ChooseTargetAgain,
}

/// An operation that failed.
#[derive(Debug)]
pub struct FailureScreen {
    pub cancelled: bool,
    pub heading: &'static str,
    /// Whether to say that the card may be incomplete.
    pub may_be_incomplete: bool,
    /// Whether to say that only the eject failed.
    pub eject_only: bool,
    pub message: String,
    pub context: String,
    pub choice: FailureChoice,
}

impl FailureView {
    /// Whether only the eject failed.
    pub open spec fn eject_only(self) -> bool {
        !self.failure.cancelled && self.phase == OperationPhase::Ejecting
    }

    /// Whether the same can be tried again.
    pub open spec fn can_retry(self) -> bool {
        !self.failure.cancelled && self.phase.precedes_target()
    }

    /// Whether the card may be left incomplete by a cancellation.
    pub open spec fn may_be_incomplete(self) -> bool {
        self.failure.cancelled && self.phase.has_written()
    }

    /// What can be done now.
    pub open spec fn choice(self) -> FailureChoice {
        if self.eject_only() {
            FailureChoice::Done
        } else if self.can_retry() {
            FailureChoice::RetryOrBack
        } else {
            FailureChoice::ChooseTargetAgain
        }
    }

    /// Where it failed.
    pub open spec fn context_words(self) -> Seq<char> {
        self.phase.title_text() + " • "@ + self.selection.board.label_text() + " • "@
            + drive_words(self.drive)
    }
}

/// Whether a screen is that of an operation that failed.
pub open spec fn is_failure_screen(screen: FailureScreen, failure: FailureView) -> bool {
    &&& screen.cancelled == failure.failure.cancelled
    &&& screen.heading@ == (if failure.failure.cancelled {
        "Flash cancelled"@
    } else {
        "Couldn’t complete the flash"@
    })
    &&& screen.may_be_incomplete == failure.may_be_incomplete()
    &&& screen.eject_only == failure.eject_only()
    &&& screen.message@ == failure.failure.message
    &&& screen.context@ == failure.context_words()
    &&& screen.choice == failure.choice()
}

/// The screen of an operation that failed.
pub fn failure_screen(failure: &FailureState) -> (screen: FailureScreen)
    ensures
        is_failure_screen(screen, failure@),
{
    let cancelled = failure.failure.cancelled;
    let can_retry = !cancelled && matches!(
        failure.phase,
        OperationPhase::Downloading
            | OperationPhase::Decompressing
            | OperationPhase::Authorizing
            | OperationPhase::ValidatingImage
    );
    let eject_only = !cancelled && failure.phase == OperationPhase::Ejecting;
    let may_be_incomplete = cancelled && matches!(
        failure.phase,
        OperationPhase::Writing
            | OperationPhase::Verifying
            | OperationPhase::Syncing
            | OperationPhase::Ejecting
    );
    let drive = failure.drive.label();
    let start = join3(failure.phase.title(), " • ", failure.selection.board.label());
    FailureScreen {
        cancelled,
        heading: if cancelled {
            "Flash cancelled"
        } else {
            "Couldn’t complete the flash"
        },
        may_be_incomplete,
        eject_only,
        message: failure.failure.message.clone(),
        context: join3(start.as_str(), " • ", drive.as_str()),
        choice: if eject_only {
            FailureChoice::Done
        } else if can_retry {
            FailureChoice::RetryOrBack
        } else {
            FailureChoice::ChooseTargetAgain
        },
    }
}

/// The first button of a choice, and the second where there is one.
pub open spec fn actions_of(choice: FailureChoice) -> (ScreenAction, Option<ScreenAction>) {
    match choice {
        FailureChoice::Done => (ScreenAction::Done, None),
        FailureChoice::RetryOrBack => (ScreenAction::Back, Some(ScreenAction::Retry)),
        FailureChoice::ChooseTargetAgain => (ScreenAction::Back, None),
    }
}

/// The first button of a choice, and the second where there is one.
pub fn failure_actions(choice: FailureChoice) -> (actions: (ScreenAction, Option<ScreenAction>))
    ensures
        actions == actions_of(choice),
{
    match choice {
        FailureChoice::Done => (ScreenAction::Done, None),
        FailureChoice::RetryOrBack => (ScreenAction::Back, Some(ScreenAction::Retry)),
        FailureChoice::ChooseTargetAgain => (ScreenAction::Back, None),
    }
}

/// The same target is offered again only where nothing of it was looked at: after any later failure
/// it has to be chosen again, unless everything but the eject succeeded.
pub proof fn retry_is_offered_only_before_the_target(failure: FailureView)
    ensures
        failure.choice() == FailureChoice::RetryOrBack ==> !failure.phase.has_written()
            && failure.phase != OperationPhase::ValidatingTarget && failure.phase
            != OperationPhase::Unmounting && !failure.failure.cancelled,
        failure.choice() == FailureChoice::Done ==> failure.phase == OperationPhase::Ejecting,
        failure.failure.cancelled ==> failure.choice() == FailureChoice::ChooseTargetAgain,
        failure.failure.cancelled && failure.phase.has_written() ==> failure.may_be_incomplete(),
{
}

/// A skipped verification is always visible: the strip of a success names it, and so does the
/// verdict.
pub proof fn skipped_verification_is_visible(strip: Seq<StripPart>)
    requires
        is_strip(strip, STRIP_STEPS as nat, false),
    ensures
        strip[VERIFY_STEP as int].label@ == "Verify skipped"@,
        strip[VERIFY_STEP as int].tone == Tone::Muted,
        verdict_words(false) != verdict_words(true),
{
    assert(is_strip_part(strip[3], 3, STRIP_STEPS as nat, false));
    reveal_strlit("Verified — the card matches the SnapDog OS release image.");
    reveal_strlit("Verification skipped — the image was written but not read back.");
    assert(verdict_words(true)[6] == 'e');
    assert(verdict_words(false)[6] == 'c');
}

/// An image can be confirmed exactly where a board is chosen and the newest release of the chosen
/// channel can be installed on it; the step names that release's version, warns of a preview on the
/// preview channel only, and says why a release cannot be installed.
pub proof fn installable_image_can_be_confirmed(screen: SourceScreen, state: AppState)
    requires
        is_source_screen(screen, state),
    ensures
        ({
            let newest = match state.channel {
                Channel::Release => state.stable,
                Channel::Beta => state.beta,
            };
            &&& screen.can_confirm <==> {
                &&& state.board matches Some(board)
                &&& newest matches Some(release)
                &&& release::release_fault(release, board) is None
            }
            &&& screen.release_error is Some <==> {
                &&& state.board matches Some(board)
                &&& newest matches Some(release)
                &&& release::release_fault(release, board) is Some
            }
            &&& newest matches Some(release) ==> screen.version_label@ == release.version
                + " — Latest"@
            &&& state.confirmed is None && newest is Some ==> screen.confirm_label@
                == "Use SnapDog OS "@ + newest->0.version
            &&& state.confirmed matches Some(chosen) ==> screen.confirm_label@ == "SnapDog OS "@
                + chosen.manifest.version + " selected ✓"@
            &&& screen.channels_enabled <==> state.board is Some
            &&& screen.version_enabled <==> state.board is Some && newest is Some
            &&& screen.is_preview <==> state.channel is Beta
            &&& screen.catalog_error is Some <==> state.catalog_error is Some
            &&& screen.catalog_error matches Some(words) ==> words@ == state.catalog_error->0
        }),
{
}

/// A target can be chosen exactly where an image is confirmed, and the chosen one is shown with its
/// name, its capacity and its device.
pub proof fn chosen_target_is_shown(screen: TargetScreen, state: AppState)
    requires
        is_target_screen(screen, state),
    ensures
        screen.ready <==> state.confirmed is Some,
        screen.selected is Some <==> state.selected_drive is Some,
        screen.selected matches Some(shown) ==> shown.1@ == state.selected_drive->0.device
            && shown.0@ == state.selected_drive->0.name + " — "@ + model::capacity_text(
            state.selected_drive->0.capacity,
        ),
        state.confirmed is Some && state.drive_status is Some ==> screen.status@
            == state.drive_status->0,
{
}

/// The flash is offered exactly where an image is confirmed that can be installed, a target is
/// chosen that it fits, and the platform can flash.
pub proof fn flash_is_offered_for_a_fitting_choice(
    screen: FlashScreen,
    state: AppState,
    supported: bool,
)
    requires
        is_flash_screen(screen, state, supported),
    ensures
        screen.ready <==> {
            &&& supported
            &&& state.confirmed matches Some(selection)
            &&& state.selected_drive matches Some(drive)
            &&& release::release_fault(selection.manifest, selection.board) is None
            &&& selection.manifest.image(selection.board) matches Some(image)
            &&& image.uncompressed_size matches Some(size)
            &&& size <= drive.capacity
        },
{
}

/// Every drive that was found can be picked, in its place and under its own name and device; and
/// only the chosen one is marked.
pub proof fn every_drive_can_be_picked(entries: Seq<PickerEntry>, state: AppState, at: int)
    requires
        is_picker(entries, state),
        0 <= at < state.drives.len(),
    ensures
        at < entries.len() && entries.len() == state.drives.len(),
        entries[at].label@ == state.drives[at].name + " — "@ + model::capacity_text(
            state.drives[at].capacity,
        ) + "\n"@ + state.drives[at].device,
        entries[at].selected <==> state.selected_drive == Some(state.drives[at]),
{
    assert(is_entry(entries[at], state.drives[at], state.selected_drive));
}

/// Before a drive is erased it is asked for exactly what will be done: to which device, with which
/// release for which board, and whether it will be read back.
pub proof fn erasing_is_asked_for_as_chosen(summary: Option<EraseSummary>, state: AppState)
    requires
        is_erase_summary(summary, state),
    ensures
        summary is Some <==> state.confirmed is Some && state.selected_drive is Some,
        summary matches Some(shown) ==> {
            &&& shown.device@ == state.selected_drive->0.device
            &&& shown.image@ == "SnapDog OS "@ + state.confirmed->0.manifest.version
            &&& shown.model@ == state.confirmed->0.board.label_text()
            &&& shown.verification@ == "Enabled"@ <==> state.verify_after_write
            &&& shown.verification@ == "Skipped"@ <==> !state.verify_after_write
        },
{
    reveal_strlit("Enabled");
    reveal_strlit("Skipped");
    assert("Enabled"@[0] != "Skipped"@[0]);
}

/// While an operation runs it can be cancelled until the write is being finished, and its read-back
/// can be skipped while it goes on; a request that was made is shown instead of the buttons, the
/// cancellation first.
pub proof fn running_operation_offers_what_it_can(screen: RunningScreen, running: RunningView)
    requires
        is_running_screen(screen, running),
    ensures
        screen.choice is Stopping <==> running.cancel_requested,
        screen.choice is FinishingUnverified <==> running.skip_requested
            && !running.cancel_requested,
        screen.choice matches RunningChoice::Buttons { can_cancel, can_skip } ==> {
            &&& can_cancel <==> !(running.position.phase is Syncing)
                && !(running.position.phase is Ejecting)
            &&& can_skip <==> running.position.phase is Verifying
        },
        screen.verifying <==> running.position.phase is Verifying,
        screen.strip@.len() == 5,
        screen.strip@[3].label@ == "Verify skipped"@ <==> !running.verification_enabled
            || running.skip_requested,
        forall|i: int|
            #![trigger screen.strip@[i]]
            0 <= i < 5 ==> (screen.strip@[i].tone is Current ==> i
                == running.position.phase.step_number()) && (screen.strip@[i].tone is Done
                ==> i < running.position.phase.step_number()),
{
    reveal_strlit("Verify skipped");
    reveal_strlit("Verify");
    assert("Verify skipped"@.len() != "Verify"@.len());
    assert(is_strip_part(
        screen.strip@[3],
        3,
        running.position.phase.step_number(),
        running.verification_enabled && !running.skip_requested,
    ));
    assert forall|i: int| #![trigger screen.strip@[i]] 0 <= i < 5 implies (
    screen.strip@[i].tone is Current ==> i == running.position.phase.step_number()) && (
    screen.strip@[i].tone is Done ==> i < running.position.phase.step_number()) by {
        assert(is_strip_part(
            screen.strip@[i],
            i as nat,
            running.position.phase.step_number(),
            running.verification_enabled && !running.skip_requested,
        ));
    }
}

/// A success is shown as verified exactly where the card was read back, with the release, the
/// target, the bytes of the image and the time that it took.
pub proof fn success_is_shown_as_reported(screen: SuccessScreen, success: SuccessView)
    requires
        is_success_screen(screen, success),
    ensures
        screen.verified <==> success.report.verified,
        screen.verdict@ == verdict_words(true) <==> success.report.verified,
        screen.image@ == "SnapDog OS "@ + success.selection.manifest.version,
        screen.target@ == success.drive.name + " — "@ + model::capacity_text(
            success.drive.capacity,
        ),
        screen.written@ == numbers::bytes_text(success.report.raw_size),
        screen.elapsed@ == numbers::duration_words(success.elapsed_seconds),
        forall|i: int|
            #![trigger screen.strip@[i]]
            0 <= i < screen.strip@.len() && (i != 3 || success.report.verified)
                ==> screen.strip@[i].tone is Done,
{
    reveal_strlit("Verified — the card matches the SnapDog OS release image.");
    reveal_strlit("Verification skipped — the image was written but not read back.");
    assert(verdict_words(true)[6] != verdict_words(false)[6]);
    assert forall|i: int| #![trigger screen.strip@[i]] 0 <= i < screen.strip@.len() && (i != 3
        || success.report.verified) implies screen.strip@[i].tone is Done by {
        assert(is_strip_part(
            screen.strip@[i],
            i as nat,
            STRIP_STEPS as nat,
            success.report.verified,
        ));
    }
}

/// A failure is shown in its own words and as a cancellation exactly where it was one; the same can
/// be tried again exactly where the target was not looked at yet, and nothing is left to do exactly
/// where only the eject failed. A cancelled write is said to leave the card incomplete.
pub proof fn failure_is_shown_as_it_was(screen: FailureScreen, failure: FailureView)
    requires
        is_failure_screen(screen, failure),
    ensures
        screen.cancelled <==> failure.failure.cancelled,
        screen.message@ == failure.failure.message,
        screen.eject_only <==> !failure.failure.cancelled && failure.phase is Ejecting,
        screen.may_be_incomplete <==> failure.failure.cancelled && (failure.phase is Writing
            || failure.phase is Verifying || failure.phase is Syncing || failure.phase is Ejecting),
        actions_of(screen.choice).1 == Some(ScreenAction::Retry) <==> !failure.failure.cancelled
            && (failure.phase is Downloading || failure.phase is Decompressing
            || failure.phase is Authorizing || failure.phase is ValidatingImage),
        actions_of(screen.choice).0 == ScreenAction::Done <==> !failure.failure.cancelled
            && failure.phase is Ejecting,
        !(actions_of(screen.choice).0 == ScreenAction::Done) ==> actions_of(screen.choice).0
            == ScreenAction::Back,
{
}

} // verus!
