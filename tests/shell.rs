use server_switch::config::ConfigStore;
use server_switch::controller::update_url;
use server_switch::shell::{
    is_change_server, navigation_script, settings_window_spec, startup_script, SettingsAction,
    SettingsWindows, CHANGE_SERVER_ACCELERATOR, CHANGE_SERVER_ID,
};

#[test]
fn menu_item_identifier() {
    assert_eq!(CHANGE_SERVER_ID, "change_url");
    assert_eq!(CHANGE_SERVER_ACCELERATOR, "CmdOrCtrl+Shift+C");
    assert!(is_change_server("change_url"));
    assert!(!is_change_server("change_ur"));
    assert!(!is_change_server("quit"));
    assert!(!is_change_server(""));
}

#[test]
fn settings_window_shape() {
    let w = settings_window_spec();
    assert_eq!(w.label, "settings");
    assert_eq!(w.page, "settings.html");
    assert_eq!(w.title, "Change Server");
    assert_eq!((w.width, w.height), (420, 280));
    assert!(!w.resizable);
    assert!(w.centered);
    assert!(w.focused);
}

#[test]
fn change_server_twice_opens_one_window() {
    let mut windows = SettingsWindows::new(false);
    assert_eq!(windows.on_change_server(), SettingsAction::CreateWindow);
    assert_eq!(windows.on_change_server(), SettingsAction::FocusExisting);
    assert!(windows.open);
}

#[test]
fn change_server_after_close_creates_again() {
    let mut windows = SettingsWindows::new(true);
    assert_eq!(windows.on_change_server(), SettingsAction::FocusExisting);
    windows.on_closed();
    assert!(!windows.open);
    assert_eq!(windows.on_change_server(), SettingsAction::CreateWindow);
}

#[test]
fn navigation_script_text() {
    assert_eq!(
        navigation_script("https://example.com:8443/app"),
        "window.location.href = 'https://example.com:8443/app';"
    );
}

#[test]
fn startup_redirects_to_default_then_to_saved() {
    let mut store = ConfigStore::empty();
    assert_eq!(
        startup_script(&store),
        "window.location.href = 'https://smartyapp.piltismart.com';"
    );
    assert!(update_url(&mut store, "https://example.com:8443/app").is_ok());
    assert_eq!(startup_script(&store), "window.location.href = 'https://example.com:8443/app';");
}
