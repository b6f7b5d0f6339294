//! What happens once at process start, and the handlers registered then:
//! the start-up order, the deep-link handler, and the platform's policies.

use vstd::prelude::*;
use crate::shell::{action_views, ShellAction, ShellActionView, DEEP_LINK_EVENT};
use crate::text::texts;

verus! {

/// The platform family the process runs on.
#[derive(Debug, Clone, Copy, PartialEq, Eq, Structural)]
pub enum Platform {
    MacOs,
    Windows,
    Linux,
    Other,
}

impl Platform {
    /// Whether a request to close the main window hides the window and
    /// keeps the process alive, so that only the tray's quit entry ends it.
    /// Elsewhere the window closes as the windowing system has it.
    pub fn hides_on_close(&self) -> (hides: bool)
        ensures
            hides == (*self == Platform::MacOs),
    {
        match self {
            Platform::MacOs => true,
            _ => false,
        }
    }

    /// Whether the platform shows the badge count on the dock icon.
    pub fn supports_dock_badge(&self) -> (supported: bool)
        ensures
            supported == (*self == Platform::MacOs),
    {
        match self {
            Platform::MacOs => true,
            _ => false,
        }
    }
}

/// One step of the start-up.
#[derive(Debug, Clone, Copy, PartialEq, Eq, Structural)]
pub enum StartupStep {
    /// Initialise the logging sink.
    InitLogging,
    /// Register every capability provider.
    RegisterProviders,
    /// Register the handler for URLs handed over by the operating system.
    RegisterDeepLinks,
    /// Build the tray icon and its menu.
    SetupTray,
    /// Open the debug inspector on the main window.
    OpenInspector,
}

/// The steps of the start-up, in the order in which they run. The
/// inspector is opened last, and in development builds only.
pub open spec fn startup_order(debug_build: bool) -> Seq<StartupStep> {
    let always = seq![
        StartupStep::InitLogging,
        StartupStep::RegisterProviders,
        StartupStep::RegisterDeepLinks,
        StartupStep::SetupTray,
    ];
    if debug_build {
        always.push(StartupStep::OpenInspector)
    } else {
        always
    }
}

/// Plans the start-up of the process.
pub fn run(debug_build: bool) -> (steps: Vec<StartupStep>)
    ensures
        steps@ == startup_order(debug_build),
{
    let mut steps: Vec<StartupStep> = Vec::new();
    steps.push(StartupStep::InitLogging);
    steps.push(StartupStep::RegisterProviders);
    steps.push(StartupStep::RegisterDeepLinks);
    steps.push(StartupStep::SetupTray);
    if debug_build {
        steps.push(StartupStep::OpenInspector);
    }
    assert(steps@ =~= startup_order(debug_build));
    steps
}

/// What the receipt of URLs asks of the shell: each URL is sent to the main
/// window as a deep-link event, in the order received, and then the window
/// is focused.
pub open spec fn deep_link_effect(urls: Seq<Seq<char>>) -> Seq<ShellActionView> {
    Seq::new(
        urls.len(),
        |i: int| ShellActionView::Emit { event: DEEP_LINK_EVENT@, payload: urls[i] },
    ).push(ShellActionView::FocusWindow)
}

/// Handles URLs handed over by the operating system.
pub fn open_urls(urls: &Vec<String>) -> (actions: Vec<ShellAction>)
    ensures
        action_views(actions@) == deep_link_effect(texts(urls@)),
{
    let mut actions: Vec<ShellAction> = Vec::new();
    let mut i: usize = 0;
    while i < urls.len()
        invariant
            i <= urls.len(),
            actions@.len() == i,
            forall|j: int|
                0 <= j < i ==> (#[trigger] actions@[j])@ == (ShellActionView::Emit {
                    event: DEEP_LINK_EVENT@,
                    payload: urls@[j]@,
                }),
        decreases urls.len() - i,
    {
        actions.push(
            ShellAction::Emit { event: DEEP_LINK_EVENT.to_owned(), payload: urls[i].clone() },
        );
        i += 1;
    }
    actions.push(ShellAction::FocusWindow);
    assert(action_views(actions@) =~= deep_link_effect(texts(urls@)));
    actions
}

/// A development build runs the steps of a release build and then opens
/// the inspector; no build runs a step twice.
pub proof fn lemma_startup_order(debug_build: bool)
    ensures
        startup_order(true) == startup_order(false).push(StartupStep::OpenInspector),
        startup_order(debug_build).contains(StartupStep::OpenInspector) <==> debug_build,
        startup_order(debug_build).no_duplicates(),
{
    let steps = startup_order(debug_build);
    if debug_build {
        assert(steps[4] == StartupStep::OpenInspector);
    }
}

} // verus!
