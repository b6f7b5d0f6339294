//! What the decision core asks the surrounding shell to do.
//!
//! The functions of this crate never touch a window or the process. They
//! return `ShellAction`s, in the order in which the caller is to carry them
//! out. An action on the main window is best effort: where that window does
//! not exist, or the windowing system reports a failure, the caller drops
//! the action and goes on with the next.

use vstd::prelude::*;

verus! {

/// Label under which the main window is registered.
pub const MAIN_WINDOW: &'static str = "main";

/// Event that carries a URL handed over by the operating system.
pub const DEEP_LINK_EVENT: &'static str = "deep-link";

/// Event that carries the tray entry the user picked.
pub const TRAY_ACTION_EVENT: &'static str = "tray-action";

/// One request to the shell.
#[derive(Debug, PartialEq, Eq)]
pub enum ShellAction {
    /// Make the main window visible.
    ShowWindow,
    /// Give the main window the input focus.
    FocusWindow,
    /// Send a named event with a text payload to the main window.
    Emit { event: String, payload: String },
    /// End the process with this exit code. Nothing follows it.
    Exit { code: i32 },
}

/// A `ShellAction` with its texts as character sequences.
pub enum ShellActionView {
    ShowWindow,
    FocusWindow,
    Emit { event: Seq<char>, payload: Seq<char> },
    Exit { code: i32 },
}

impl View for ShellAction {
    type V = ShellActionView;

    open spec fn view(&self) -> ShellActionView {
        match *self {
            ShellAction::ShowWindow => ShellActionView::ShowWindow,
            ShellAction::FocusWindow => ShellActionView::FocusWindow,
            ShellAction::Emit { event, payload } => ShellActionView::Emit {
                event: event@,
                payload: payload@,
            },
            ShellAction::Exit { code } => ShellActionView::Exit { code },
        }
    }
}

/// The views of a run of actions, in the same order.
pub open spec fn action_views(actions: Seq<ShellAction>) -> Seq<ShellActionView> {
    actions.map_values(|a: ShellAction| a@)
}

/// Show the main window, then focus it.
pub open spec fn show_and_focus() -> Seq<ShellActionView> {
    seq![ShellActionView::ShowWindow, ShellActionView::FocusWindow]
}

/// Builds the request to send `payload` under the name `event`.
pub fn emit(event: &str, payload: &str) -> (action: ShellAction)
    ensures
        action@ == (ShellActionView::Emit { event: event@, payload: payload@ }),
{
    ShellAction::Emit { event: event.to_owned(), payload: payload.to_owned() }
}

} // verus!
