//! The decisions of the shell around the config flow: the menu item that opens
//! the settings window, that window's shape, and the startup redirect.

use vstd::prelude::*;
use crate::config::{ConfigStore, current_url};
use crate::controller::get_current_url;

verus! {

/// Title of the application submenu.
pub const APP_MENU_TITLE: &'static str = "Pilti";

/// Title of the submenu that holds the server switch.
pub const SETTINGS_MENU_TITLE: &'static str = "Settings";

/// Identifier of the menu item that opens the settings window.
pub const CHANGE_SERVER_ID: &'static str = "change_url";

/// Label of that menu item, also the settings window's title.
pub const CHANGE_SERVER_LABEL: &'static str = "Change Server";

/// Keyboard shortcut of that menu item.
pub const CHANGE_SERVER_ACCELERATOR: &'static str = "CmdOrCtrl+Shift+C";

/// Label of the window that shows the remote application.
pub const MAIN_WINDOW_LABEL: &'static str = "main";

/// Label of the settings window.
pub const SETTINGS_WINDOW_LABEL: &'static str = "settings";

/// Page of the bundled UI that the settings window shows.
pub const SETTINGS_PAGE: &'static str = "settings.html";

/// Whether a menu event comes from the "Change Server" item.
pub fn is_change_server(id: &str) -> (r: bool)
    ensures
        r == (id@ == CHANGE_SERVER_ID@),
{
    String::from_str(id) == String::from_str(CHANGE_SERVER_ID)
}

/// How the settings window is built.
pub struct WindowSpec {
    pub label: &'static str,
    pub page: &'static str,
    pub title: &'static str,
    pub width: u32,
    pub height: u32,
    pub resizable: bool,
    pub centered: bool,
    pub focused: bool,
}

/// The settings window: 420 by 280, fixed size, centred and focused.
pub fn settings_window_spec() -> (r: WindowSpec)
    ensures
        r.label@ == SETTINGS_WINDOW_LABEL@,
        r.page@ == SETTINGS_PAGE@,
        r.title@ == CHANGE_SERVER_LABEL@,
        r.width == 420,
        r.height == 280,
        !r.resizable,
        r.centered,
        r.focused,
{
    WindowSpec {
        label: SETTINGS_WINDOW_LABEL,
        page: SETTINGS_PAGE,
        title: CHANGE_SERVER_LABEL,
        width: 420,
        height: 280,
        resizable: false,
        centered: true,
        focused: true,
    }
}

/// What to do when "Change Server" is activated.
#[derive(PartialEq, Eq, Structural, Clone, Copy, Debug)]
pub enum SettingsAction {
    /// The settings window exists: bring it to the front.
    FocusExisting,
    /// There is none: build one from `settings_window_spec`.
    CreateWindow,
}

/// The action taken on activation, given whether the window exists.
pub open spec fn activation_action(open: bool) -> SettingsAction {
    if open {
        SettingsAction::FocusExisting
    } else {
        SettingsAction::CreateWindow
    }
}

/// How many settings windows there are once `action` has been carried out.
pub open spec fn windows_after(open: bool, action: SettingsAction) -> nat {
    (if open { 1nat } else { 0nat }) + (if action == SettingsAction::CreateWindow { 1nat } else { 0nat })
}

/// Whether the settings window exists.
pub struct SettingsWindows {
    pub open: bool,
}

impl SettingsWindows {
    /// The state as the window system reports it.
    pub fn new(open: bool) -> (r: SettingsWindows)
        ensures
            r.open == open,
    {
        SettingsWindows { open }
    }

    /// "Change Server" was activated: focus the window if it exists, else
    /// create it. Either way it exists afterwards.
    pub fn on_change_server(&mut self) -> (r: SettingsAction)
        ensures
            r == activation_action(old(self).open),
            final(self).open,
    {
        let action = if self.open {
            SettingsAction::FocusExisting
        } else {
            SettingsAction::CreateWindow
        };
        self.open = true;
        action
    }

    /// The user closed the settings window.
    pub fn on_closed(&mut self)
        ensures
            !final(self).open,
    {
        self.open = false;
    }
}

/// Activating "Change Server" twice in a row leaves exactly one settings
/// window: the first activation creates it unless it exists, the second only
/// focuses it.
pub proof fn lemma_repeated_activation_keeps_one_window(open: bool)
    ensures
        activation_action(true) == SettingsAction::FocusExisting,
        windows_after(open, activation_action(open)) == 1,
        windows_after(true, activation_action(true)) == 1,
{
}

/// The script that sends the main window to `url`.
pub open spec fn redirect_script(url: Seq<char>) -> Seq<char> {
    "window.location.href = '"@ + url + "';"@
}

/// The redirect for `url`.
pub fn navigation_script(url: &str) -> (r: String)
    ensures
        r@ == redirect_script(url@),
{
    let mut script = String::from_str("window.location.href = '");
    script.append(url);
    script.append("';");
    script
}

/// The redirect run at startup: to the URL in force.
pub fn startup_script(store: &ConfigStore) -> (r: String)
    ensures
        r@ == redirect_script(current_url(store@)),
{
    let url = get_current_url(store);
    navigation_script(url.as_str())
}

} // verus!
