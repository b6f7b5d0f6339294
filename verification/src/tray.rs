//! The system tray: its menu, and what each entry and each click on the
//! icon asks of the shell.

use vstd::prelude::*;
use crate::shell::{
    action_views, emit, show_and_focus, ShellAction, ShellActionView, TRAY_ACTION_EVENT,
};
use crate::text::{optional_str, same_text};

verus! {

/// The entries of the tray menu that do something.
#[derive(Debug, Clone, Copy, PartialEq, Eq, Structural)]
pub enum TrayCommand {
    Open,
    NewChat,
    Council,
    CheckUpdates,
    Preferences,
    Quit,
}

impl TrayCommand {
    /// The identifier under which the menu entry is registered.
    pub open spec fn id_text(self) -> Seq<char> {
        match self {
            TrayCommand::Open => "open"@,
            TrayCommand::NewChat => "new_chat"@,
            TrayCommand::Council => "council"@,
            TrayCommand::CheckUpdates => "check_updates"@,
            TrayCommand::Preferences => "preferences"@,
            TrayCommand::Quit => "quit"@,
        }
    }

    /// The command registered under an identifier, if there is one.
    pub open spec fn with_id(id: Seq<char>) -> Option<TrayCommand> {
        if id == "open"@ {
            Some(TrayCommand::Open)
        } else if id == "new_chat"@ {
            Some(TrayCommand::NewChat)
        } else if id == "council"@ {
            Some(TrayCommand::Council)
        } else if id == "check_updates"@ {
            Some(TrayCommand::CheckUpdates)
        } else if id == "preferences"@ {
            Some(TrayCommand::Preferences)
        } else if id == "quit"@ {
            Some(TrayCommand::Quit)
        } else {
            None
        }
    }

    /// The text shown in the menu.
    pub open spec fn label_text(self) -> Seq<char> {
        match self {
            TrayCommand::Open => "Open YULA"@,
            TrayCommand::NewChat => "New Chat"@,
            TrayCommand::Council => "Council Mode"@,
            TrayCommand::CheckUpdates => "Check for Updates..."@,
            TrayCommand::Preferences => "Preferences..."@,
            TrayCommand::Quit => "Quit YULA"@,
        }
    }

    /// The keyboard accelerator, for the entries that have one.
    pub open spec fn accelerator_text(self) -> Option<Seq<char>> {
        match self {
            TrayCommand::Open => None,
            TrayCommand::NewChat => Some("CmdOrCtrl+N"@),
            TrayCommand::Council => Some("CmdOrCtrl+Shift+C"@),
            TrayCommand::CheckUpdates => None,
            TrayCommand::Preferences => Some("CmdOrCtrl+,"@),
            TrayCommand::Quit => Some("CmdOrCtrl+Q"@),
        }
    }

    /// The payload of the event that the entry sends to the main window,
    /// for the entries that send one.
    pub open spec fn payload_text(self) -> Option<Seq<char>> {
        match self {
            TrayCommand::Open => None,
            TrayCommand::NewChat => Some("new-chat"@),
            TrayCommand::Council => Some("council"@),
            TrayCommand::CheckUpdates => Some("check-updates"@),
            TrayCommand::Preferences => Some("preferences"@),
            TrayCommand::Quit => None,
        }
    }

    /// Whether the entry brings the main window to the front.
    pub open spec fn raises_window(self) -> bool {
        match self {
            TrayCommand::Open => true,
            TrayCommand::NewChat => true,
            TrayCommand::Council => true,
            TrayCommand::CheckUpdates => false,
            TrayCommand::Preferences => true,
            TrayCommand::Quit => false,
        }
    }

    /// What activating the entry asks of the shell, in order: `Quit` ends
    /// the process with code 0 and does nothing else; every other entry
    /// first shows and focuses the main window, if it raises it, and then
    /// sends its payload, if it has one, as a tray-action event.
    pub open spec fn effect(self) -> Seq<ShellActionView> {
        if self == TrayCommand::Quit {
            seq![ShellActionView::Exit { code: 0 }]
        } else {
            let raise = if self.raises_window() {
                show_and_focus()
            } else {
                Seq::empty()
            };
            match self.payload_text() {
                Some(payload) => raise.push(
                    ShellActionView::Emit { event: TRAY_ACTION_EVENT@, payload },
                ),
                None => raise,
            }
        }
    }

    pub fn id(&self) -> (id: &'static str)
        ensures
            id@ == self.id_text(),
    {
        match self {
            TrayCommand::Open => "open",
            TrayCommand::NewChat => "new_chat",
            TrayCommand::Council => "council",
            TrayCommand::CheckUpdates => "check_updates",
            TrayCommand::Preferences => "preferences",
            TrayCommand::Quit => "quit",
        }
    }

    /// Looks an identifier up. An identifier that no entry carries gives
    /// `None`.
    pub fn from_id(id: &str) -> (command: Option<TrayCommand>)
        ensures
            command == TrayCommand::with_id(id@),
    {
        if same_text(id, "open") {
            Some(TrayCommand::Open)
        } else if same_text(id, "new_chat") {
            Some(TrayCommand::NewChat)
        } else if same_text(id, "council") {
            Some(TrayCommand::Council)
        } else if same_text(id, "check_updates") {
            Some(TrayCommand::CheckUpdates)
        } else if same_text(id, "preferences") {
            Some(TrayCommand::Preferences)
        } else if same_text(id, "quit") {
            Some(TrayCommand::Quit)
        } else {
            None
        }
    }

    pub fn label(&self) -> (label: &'static str)
        ensures
            label@ == self.label_text(),
    {
        match self {
            TrayCommand::Open => "Open YULA",
            TrayCommand::NewChat => "New Chat",
            TrayCommand::Council => "Council Mode",
            TrayCommand::CheckUpdates => "Check for Updates...",
            TrayCommand::Preferences => "Preferences...",
            TrayCommand::Quit => "Quit YULA",
        }
    }

    pub fn accelerator(&self) -> (accelerator: Option<&'static str>)
        ensures
            optional_str(accelerator) == self.accelerator_text(),
    {
        match self {
            TrayCommand::Open => None,
            TrayCommand::NewChat => Some("CmdOrCtrl+N"),
            TrayCommand::Council => Some("CmdOrCtrl+Shift+C"),
            TrayCommand::CheckUpdates => None,
            TrayCommand::Preferences => Some("CmdOrCtrl+,"),
            TrayCommand::Quit => Some("CmdOrCtrl+Q"),
        }
    }

    pub fn payload(&self) -> (payload: Option<&'static str>)
        ensures
            optional_str(payload) == self.payload_text(),
    {
        match self {
            TrayCommand::Open => None,
            TrayCommand::NewChat => Some("new-chat"),
            TrayCommand::Council => Some("council"),
            TrayCommand::CheckUpdates => Some("check-updates"),
            TrayCommand::Preferences => Some("preferences"),
            TrayCommand::Quit => None,
        }
    }

    /// The requests that activating the entry makes, in order.
    pub fn actions(&self) -> (actions: Vec<ShellAction>)
        ensures
            action_views(actions@) == self.effect(),
    {
        let mut actions: Vec<ShellAction> = Vec::new();
        match self {
            TrayCommand::Quit => {
                actions.push(ShellAction::Exit { code: 0 });
            },
            TrayCommand::CheckUpdates => {},
            _ => {
                actions.push(ShellAction::ShowWindow);
                actions.push(ShellAction::FocusWindow);
            },
        }
        match self.payload() {
            Some(payload) => {
                actions.push(emit(TRAY_ACTION_EVENT, payload));
            },
            None => {},
        }
        assert(action_views(actions@) =~= self.effect());
        actions
    }
}

/// One line of the tray menu.
#[derive(Debug, Clone, Copy, PartialEq, Eq, Structural)]
pub enum MenuEntry {
    /// An entry that the user can activate.
    Item(TrayCommand),
    /// A dividing line.
    Separator,
}

/// How the tray icon is set up.
#[derive(Debug)]
pub struct TrayPlan {
    /// The menu, from top to bottom.
    pub entries: Vec<MenuEntry>,
    /// Whether a left click on the icon opens the menu.
    pub menu_on_left_click: bool,
}

/// The tray menu from top to bottom.
pub open spec fn menu_layout() -> Seq<MenuEntry> {
    seq![
        MenuEntry::Item(TrayCommand::Open),
        MenuEntry::Separator,
        MenuEntry::Item(TrayCommand::NewChat),
        MenuEntry::Item(TrayCommand::Council),
        MenuEntry::Separator,
        MenuEntry::Item(TrayCommand::CheckUpdates),
        MenuEntry::Item(TrayCommand::Preferences),
        MenuEntry::Separator,
        MenuEntry::Item(TrayCommand::Quit),
    ]
}

/// What activating the menu entry registered under `id` asks of the shell.
/// An identifier that no entry carries asks nothing.
pub open spec fn menu_event_effect(id: Seq<char>) -> Seq<ShellActionView> {
    match TrayCommand::with_id(id) {
        Some(command) => command.effect(),
        None => Seq::empty(),
    }
}

/// Plans the tray icon: the menu in its fixed order, and a left click that
/// is left to `tray_icon_event` instead of opening the menu.
pub fn setup_tray() -> (plan: TrayPlan)
    ensures
        plan.entries@ == menu_layout(),
        !plan.menu_on_left_click,
{
    let mut entries: Vec<MenuEntry> = Vec::new();
    entries.push(MenuEntry::Item(TrayCommand::Open));
    entries.push(MenuEntry::Separator);
    entries.push(MenuEntry::Item(TrayCommand::NewChat));
    entries.push(MenuEntry::Item(TrayCommand::Council));
    entries.push(MenuEntry::Separator);
    entries.push(MenuEntry::Item(TrayCommand::CheckUpdates));
    entries.push(MenuEntry::Item(TrayCommand::Preferences));
    entries.push(MenuEntry::Separator);
    entries.push(MenuEntry::Item(TrayCommand::Quit));
    assert(entries@ =~= menu_layout());
    TrayPlan { entries, menu_on_left_click: false }
}

/// Dispatches the activation of a menu entry by its identifier.
pub fn tray_menu_event(id: &str) -> (actions: Vec<ShellAction>)
    ensures
        action_views(actions@) == menu_event_effect(id@),
{
    match TrayCommand::from_id(id) {
        Some(command) => command.actions(),
        None => {
            let actions: Vec<ShellAction> = Vec::new();
            assert(action_views(actions@) =~= Seq::empty());
            actions
        },
    }
}

/// A button of the pointing device.
#[derive(Debug, Clone, Copy, PartialEq, Eq, Structural)]
pub enum MouseButton {
    Left,
    Right,
    Middle,
}

/// Whether a button went down or came up.
#[derive(Debug, Clone, Copy, PartialEq, Eq, Structural)]
pub enum MouseButtonState {
    Up,
    Down,
}

/// Something that happened to the tray icon.
#[derive(Debug, Clone, Copy, PartialEq, Eq, Structural)]
pub enum TrayIconEvent {
    /// A single click.
    Click { button: MouseButton, button_state: MouseButtonState },
    /// Anything else: a double click, or the pointer entering, moving over
    /// or leaving the icon.
    Other,
}

impl TrayIconEvent {
    /// The release of the left button over the icon.
    pub open spec fn is_left_release(self) -> bool {
        self == (TrayIconEvent::Click {
            button: MouseButton::Left,
            button_state: MouseButtonState::Up,
        })
    }
}

/// What an event on the tray icon asks of the shell: releasing the left
/// button shows and focuses the main window, everything else is ignored.
pub open spec fn icon_event_effect(event: TrayIconEvent) -> Seq<ShellActionView> {
    if event.is_left_release() {
        show_and_focus()
    } else {
        Seq::empty()
    }
}

/// Handles an event on the tray icon.
pub fn tray_icon_event(event: TrayIconEvent) -> (actions: Vec<ShellAction>)
    ensures
        action_views(actions@) == icon_event_effect(event),
{
    let mut actions: Vec<ShellAction> = Vec::new();
    match event {
        TrayIconEvent::Click { button: MouseButton::Left, button_state: MouseButtonState::Up } => {
            actions.push(ShellAction::ShowWindow);
            actions.push(ShellAction::FocusWindow);
        },
        _ => {},
    }
    assert(action_views(actions@) =~= icon_event_effect(event));
    actions
}

/// Identifiers and commands correspond one to one: a command is found
/// under its own identifier, and an identifier finds no command but the one
/// that carries it.
pub proof fn lemma_ids_identify_commands(command: TrayCommand, id: Seq<char>)
    ensures
        TrayCommand::with_id(command.id_text()) == Some(command),
        TrayCommand::with_id(id) == Some(command) <==> id == command.id_text(),
{
    reveal_strlit("open");
    reveal_strlit("new_chat");
    reveal_strlit("council");
    reveal_strlit("check_updates");
    reveal_strlit("preferences");
    reveal_strlit("quit");
    assert("open"@.len() == 4 && "quit"@.len() == 4 && "open"@[0] != "quit"@[0]);
    assert("new_chat"@.len() == 8);
    assert("council"@.len() == 7);
    assert("check_updates"@.len() == 13);
    assert("preferences"@.len() == 11);
}

/// The menu offers every command, and none of them twice.
pub proof fn lemma_menu_offers_each_command_once(command: TrayCommand)
    ensures
        exists|i: int|
            0 <= i < menu_layout().len() && menu_layout()[i] == MenuEntry::Item(command),
        forall|i: int, j: int|
            0 <= i < j < menu_layout().len() && menu_layout()[i] is Item
                ==> menu_layout()[i] != menu_layout()[j],
{
    let layout = menu_layout();
    match command {
        TrayCommand::Open => assert(layout[0] == MenuEntry::Item(command)),
        TrayCommand::NewChat => assert(layout[2] == MenuEntry::Item(command)),
        TrayCommand::Council => assert(layout[3] == MenuEntry::Item(command)),
        TrayCommand::CheckUpdates => assert(layout[5] == MenuEntry::Item(command)),
        TrayCommand::Preferences => assert(layout[6] == MenuEntry::Item(command)),
        TrayCommand::Quit => assert(layout[8] == MenuEntry::Item(command)),
    }
}

/// Whatever identifier is activated: no more than one event is sent, and it
/// is a tray-action event; the process is ended only by the identifier of
/// `Quit`, and then with code 0 and with nothing else requested.
pub proof fn lemma_menu_event_effect(id: Seq<char>)
    ensures
        forall|i: int, j: int|
            0 <= i < menu_event_effect(id).len() && 0 <= j < menu_event_effect(id).len()
                && menu_event_effect(id)[i] is Emit && menu_event_effect(id)[j] is Emit
                ==> i == j,
        forall|i: int|
            0 <= i < menu_event_effect(id).len() ==> (
            #[trigger] menu_event_effect(id)[i] matches ShellActionView::Emit { event, .. }
                ==> event == TRAY_ACTION_EVENT@),
        (exists|i: int|
            0 <= i < menu_event_effect(id).len() && menu_event_effect(id)[i] is Exit)
            <==> id == TrayCommand::Quit.id_text(),
        id == TrayCommand::Quit.id_text() ==> menu_event_effect(id)
            == seq![ShellActionView::Exit { code: 0 }],
{
    lemma_ids_identify_commands(TrayCommand::Quit, id);
    if TrayCommand::with_id(id) == Some(TrayCommand::Quit) {
        assert(menu_event_effect(id)[0] is Exit);
    }
}

} // verus!
