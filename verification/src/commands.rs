//! The command surface: what each command answers, given what the platform
//! reported.
//!
//! A command never calls a platform service itself. The caller asks the
//! service, turns a failure into its message, and hands the report to the
//! command, which decides what the frontend is told and what is done next.

use vstd::prelude::*;
use crate::shell::{ShellAction, ShellActionView};
use crate::state::AppState;
use crate::text::optional_text;

verus! {

/// The message for a command addressed at a main window that does not
/// exist.
pub const MAIN_WINDOW_NOT_FOUND: &'static str = "Main window not found";

/// What `get_system_info` tells the frontend about the machine.
#[derive(Debug)]
pub struct SystemInfo {
    pub platform: String,
    pub arch: String,
    pub os_version: String,
    pub hostname: String,
}

/// A `SystemInfo` with its texts as character sequences.
pub struct SystemInfoView {
    pub platform: Seq<char>,
    pub arch: Seq<char>,
    pub os_version: Seq<char>,
    pub hostname: Seq<char>,
}

impl View for SystemInfo {
    type V = SystemInfoView;

    open spec fn view(&self) -> SystemInfoView {
        SystemInfoView {
            platform: self.platform@,
            arch: self.arch@,
            os_version: self.os_version@,
            hostname: self.hostname@,
        }
    }
}

/// An update, as `check_for_updates` describes it to the frontend.
#[derive(Debug)]
pub struct UpdateInfo {
    pub available: bool,
    pub version: Option<String>,
    pub notes: Option<String>,
}

/// An `UpdateInfo` with its texts as character sequences.
pub struct UpdateInfoView {
    pub available: bool,
    pub version: Option<Seq<char>>,
    pub notes: Option<Seq<char>>,
}

impl View for UpdateInfo {
    type V = UpdateInfoView;

    open spec fn view(&self) -> UpdateInfoView {
        UpdateInfoView {
            available: self.available,
            version: optional_text(self.version),
            notes: optional_text(self.notes),
        }
    }
}

/// An update that the update provider holds ready.
#[derive(Debug)]
pub struct PendingUpdate {
    /// The version that would be installed.
    pub version: String,
    /// The release notes, where the provider has any.
    pub body: Option<String>,
}

/// A `PendingUpdate` with its texts as character sequences.
pub struct PendingUpdateView {
    pub version: Seq<char>,
    pub body: Option<Seq<char>>,
}

impl View for PendingUpdate {
    type V = PendingUpdateView;

    open spec fn view(&self) -> PendingUpdateView {
        PendingUpdateView { version: self.version@, body: optional_text(self.body) }
    }
}

/// The view of what the update provider reported: the update it holds
/// ready, if any, or the message of its failure.
pub open spec fn report_view(report: Result<Option<PendingUpdate>, String>) -> Result<
    Option<PendingUpdateView>,
    Seq<char>,
> {
    match report {
        Ok(Some(update)) => Ok(Some(update@)),
        Ok(None) => Ok(None),
        Err(failure) => Err(failure@),
    }
}

/// The view of the answer to an update check.
pub open spec fn check_view(outcome: Result<UpdateInfo, String>) -> Result<
    UpdateInfoView,
    Seq<char>,
> {
    match outcome {
        Ok(info) => Ok(info@),
        Err(message) => Err(message@),
    }
}

/// How a pending update, or the lack of one, is described to the frontend.
pub open spec fn update_info(pending: Option<PendingUpdateView>) -> UpdateInfoView {
    match pending {
        Some(update) => UpdateInfoView {
            available: true,
            version: Some(update.version),
            notes: update.body,
        },
        None => UpdateInfoView { available: false, version: None, notes: None },
    }
}

/// The answer to an update check, given the provider's report: what is
/// pending is described, and a failure is passed on with its message.
pub open spec fn checked(report: Result<Option<PendingUpdateView>, Seq<char>>) -> Result<
    UpdateInfoView,
    Seq<char>,
> {
    match report {
        Ok(pending) => Ok(update_info(pending)),
        Err(failure) => Err(failure),
    }
}

/// Answers an update check from the provider's report: a pending update
/// is described with its version and notes, none pending gives an
/// `UpdateInfo` that is not available, and a failure is passed on with its
/// message unchanged.
pub fn check_for_updates(report: Result<Option<PendingUpdate>, String>) -> (outcome: Result<
    UpdateInfo,
    String,
>)
    ensures
        check_view(outcome) == checked(report_view(report)),
{
    match report {
        Ok(Some(update)) => Ok(
            UpdateInfo { available: true, version: Some(update.version), notes: update.body },
        ),
        Ok(None) => Ok(UpdateInfo { available: false, version: None, notes: None }),
        Err(failure) => Err(failure),
    }
}

/// What `install_update` does once the provider has been asked again.
#[derive(Debug, PartialEq, Eq)]
pub enum InstallPlan {
    /// Download the pending update and install it. What that reports is the
    /// command's answer.
    DownloadAndInstall,
    /// Answer at once.
    Finish(Result<(), String>),
}

/// An `InstallPlan` with its message as a character sequence.
pub enum InstallPlanView {
    DownloadAndInstall,
    Finish(Result<(), Seq<char>>),
}

impl View for InstallPlan {
    type V = InstallPlanView;

    open spec fn view(&self) -> InstallPlanView {
        match *self {
            InstallPlan::DownloadAndInstall => InstallPlanView::DownloadAndInstall,
            InstallPlan::Finish(Ok(_)) => InstallPlanView::Finish(Ok(())),
            InstallPlan::Finish(Err(message)) => InstallPlanView::Finish(Err(message@)),
        }
    }
}

/// How an installation goes on, given the provider's fresh report: a
/// pending update is downloaded and installed, none pending ends the
/// command with success and nothing done, and a failure ends it with the
/// provider's message.
pub open spec fn install_plan(
    report: Result<Option<PendingUpdateView>, Seq<char>>,
) -> InstallPlanView {
    match report {
        Ok(Some(_)) => InstallPlanView::DownloadAndInstall,
        Ok(None) => InstallPlanView::Finish(Ok(())),
        Err(failure) => InstallPlanView::Finish(Err(failure)),
    }
}

/// Decides how an installation goes on from the provider's fresh report.
pub fn install_update(report: Result<Option<PendingUpdate>, String>) -> (plan: InstallPlan)
    ensures
        plan@ == install_plan(report_view(report)),
{
    match report {
        Ok(Some(_)) => InstallPlan::DownloadAndInstall,
        Ok(None) => InstallPlan::Finish(Ok(())),
        Err(failure) => InstallPlan::Finish(Err(failure)),
    }
}

/// How far a download has come.
#[derive(Debug, Clone, Copy, PartialEq, Eq, Structural)]
pub struct DownloadProgress {
    /// Bytes received so far.
    pub downloaded: usize,
    /// Size of the whole download, where the provider knows it.
    pub content_length: Option<u64>,
}

impl DownloadProgress {
    /// The progress before the first chunk.
    pub fn new() -> (progress: DownloadProgress)
        ensures
            progress == (DownloadProgress { downloaded: 0, content_length: None }),
    {
        DownloadProgress { downloaded: 0, content_length: None }
    }

    /// Counts a chunk that has arrived, and keeps the total size that came
    /// with it.
    pub fn record(&mut self, chunk_length: usize, content_length: Option<u64>)
        requires
            old(self).downloaded + chunk_length <= usize::MAX,
        ensures
            *final(self) == (DownloadProgress {
                downloaded: (old(self).downloaded + chunk_length) as usize,
                content_length,
            }),
    {
        self.downloaded = self.downloaded + chunk_length;
        self.content_length = content_length;
    }
}

/// The state after the badge count has been set to `count`.
pub open spec fn badge_set(state: AppState, count: u32) -> AppState {
    AppState { notification_count: count, is_authenticated: state.is_authenticated }
}

/// The state after the badge has been cleared.
pub open spec fn badge_cleared(state: AppState) -> AppState {
    AppState { notification_count: 0, is_authenticated: state.is_authenticated }
}

/// Stores the number of unread notifications. Never fails.
pub fn set_badge_count(state: &mut AppState, count: u32) -> (outcome: Result<(), String>)
    ensures
        outcome is Ok,
        final(state).notification_count == count,
        *final(state) == badge_set(*old(state), count),
{
    state.notification_count = count;
    Ok(())
}

/// Clears the badge. Never fails.
pub fn clear_badge(state: &mut AppState) -> (outcome: Result<(), String>)
    ensures
        outcome is Ok,
        *final(state) == badge_cleared(*old(state)),
{
    set_badge_count(state, 0)
}

/// What `set_autostart` asks of the autostart registry.
#[derive(Debug, Clone, Copy, PartialEq, Eq, Structural)]
pub enum AutostartChange {
    Enable,
    Disable,
}

/// Chooses the registry operation that makes autostart `enabled`. What the
/// registry reports is the command's answer.
pub fn set_autostart(enabled: bool) -> (change: AutostartChange)
    ensures
        change == if enabled {
            AutostartChange::Enable
        } else {
            AutostartChange::Disable
        },
{
    if enabled {
        AutostartChange::Enable
    } else {
        AutostartChange::Disable
    }
}

/// Answers the request to hide the main window. `hidden` is what hiding
/// reported, or `None` where there is no main window: then the command
/// fails with `MAIN_WINDOW_NOT_FOUND`. A report is passed on unchanged.
pub fn minimize_to_tray(hidden: Option<Result<(), String>>) -> (outcome: Result<(), String>)
    ensures
        match hidden {
            Some(Ok(_)) => outcome is Ok,
            Some(Err(failure)) => outcome matches Err(message) && message@ == failure@,
            None => outcome matches Err(message) && message@ == MAIN_WINDOW_NOT_FOUND@,
        },
{
    match hidden {
        Some(report) => report,
        None => Err(MAIN_WINDOW_NOT_FOUND.to_owned()),
    }
}

/// Puts what was read from the operating system into the answer for the
/// frontend. Always succeeds.
pub fn get_system_info(platform: &str, arch: &str, os_version: String, hostname: String) -> (info:
    SystemInfo)
    ensures
        info@ == (SystemInfoView {
            platform: platform@,
            arch: arch@,
            os_version: os_version@,
            hostname: hostname@,
        }),
{
    SystemInfo { platform: platform.to_owned(), arch: arch.to_owned(), os_version, hostname }
}

/// The request that ends the process, with exit code 0.
pub fn quit_app() -> (action: ShellAction)
    ensures
        action@ == (ShellActionView::Exit { code: 0 }),
{
    ShellAction::Exit { code: 0 }
}

/// Clearing the badge is setting its count to 0: both leave the same state
/// behind, whatever it was before.
pub proof fn lemma_clear_badge_is_set_to_zero(state: AppState)
    ensures
        badge_cleared(state) == badge_set(state, 0),
{
}

/// The count that is read after a write is the one written, whatever was
/// there before; of two writes the later one stays.
pub proof fn lemma_last_badge_write_stays(state: AppState, first: u32, second: u32)
    ensures
        badge_set(state, first).notification_count == first,
        badge_set(badge_set(state, first), second) == badge_set(state, second),
{
}

/// An installation and an update check agree on every report: the
/// installation downloads exactly when the check says that an update is
/// available, and it fails at once exactly when the check fails, with the
/// same message.
pub proof fn lemma_install_follows_check(report: Result<Option<PendingUpdateView>, Seq<char>>)
    ensures
        install_plan(report) is DownloadAndInstall <==> (checked(report) matches Ok(info)
            && info.available),
        forall|message: Seq<char>|
            install_plan(report) == InstallPlanView::Finish(Err(message)) <==> checked(report)
                == Err::<UpdateInfoView, Seq<char>>(message),
{
}

/// An update is described as available exactly when its version is given,
/// and notes come with an available update only.
pub proof fn lemma_update_info_is_consistent(pending: Option<PendingUpdateView>)
    ensures
        update_info(pending).available <==> update_info(pending).version is Some,
        update_info(pending).notes is Some ==> update_info(pending).available,
{
}

} // verus!
