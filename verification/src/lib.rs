//! Decision core of the desktop shell: the shared application state, the
//! command surface's pure parts, the tray menu and its dispatch, and the
//! start-up plan.
//!
//! Nothing here touches a window, a platform service or the process. The
//! functions take what the platform reported as plain values and return
//! what the frontend is told and what the shell is to do next.

pub mod commands;
pub mod lifecycle;
pub mod shell;
pub mod state;
pub mod text;
pub mod tray;

pub use commands::{
    check_for_updates, clear_badge, get_system_info, install_update, minimize_to_tray, quit_app,
    set_autostart, set_badge_count, AutostartChange, DownloadProgress, InstallPlan, PendingUpdate,
    SystemInfo, UpdateInfo, MAIN_WINDOW_NOT_FOUND,
};
pub use lifecycle::{open_urls, run, Platform, StartupStep};
pub use shell::{ShellAction, DEEP_LINK_EVENT, MAIN_WINDOW, TRAY_ACTION_EVENT};
pub use state::AppState;
pub use tray::{
    setup_tray, tray_icon_event, tray_menu_event, MenuEntry, MouseButton, MouseButtonState,
    TrayCommand, TrayIconEvent, TrayPlan,
};
