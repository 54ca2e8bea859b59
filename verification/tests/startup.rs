use staged::startup::{
    exit_requested, menu_event_name, store_incompatibility, updater_pubkey_present, web_server_enabled, DbCompatibility,
};

#[test]
fn compatible_database_needs_no_prompt() {
    assert!(store_incompatibility(&DbCompatibility::Compatible, "0.2.0").is_none());
}

#[test]
fn old_database_asks_for_reset() {
    let info = store_incompatibility(&DbCompatibility::NeedsReset { db_app_version: "0.1.0".to_string() }, "0.2.0")
        .expect("an incompatibility");
    assert_eq!(info.db_app_version, "0.1.0");
    assert_eq!(info.app_version, "0.2.0");
    assert_eq!(info.kind, "needs_reset");
}

#[test]
fn newer_database_asks_for_update() {
    let info = store_incompatibility(&DbCompatibility::TooNew { db_app_version: "0.9.0".to_string() }, "0.2.0")
        .expect("an incompatibility");
    assert_eq!(info.db_app_version, "0.9.0");
    assert_eq!(info.kind, "too_new");
}

#[test]
fn web_server_switch_values() {
    assert!(web_server_enabled(Some("1")));
    assert!(web_server_enabled(Some("true")));
    assert!(web_server_enabled(Some("TRUE")));
    assert!(web_server_enabled(Some("True")));
    assert!(!web_server_enabled(Some("yes")));
    assert!(!web_server_enabled(Some("0")));
    assert!(!web_server_enabled(Some(" true")));
    assert!(!web_server_enabled(None));
}

#[test]
fn updater_needs_a_non_blank_key() {
    assert!(updater_pubkey_present(Some("dW50cnVzdGVk")));
    assert!(!updater_pubkey_present(Some("  \n")));
    assert!(!updater_pubkey_present(None));
}

#[test]
fn menu_items_map_to_frontend_events() {
    assert_eq!(menu_event_name("settings"), Some("menu:settings"));
    assert_eq!(menu_event_name("find"), Some("menu:find"));
    assert_eq!(menu_event_name("find_next"), Some("menu:find-next"));
    assert_eq!(menu_event_name("find_previous"), Some("menu:find-previous"));
    assert_eq!(menu_event_name("zoom_in"), Some("menu:zoom-in"));
    assert_eq!(menu_event_name("zoom_out"), Some("menu:zoom-out"));
    assert_eq!(menu_event_name("zoom_reset"), Some("menu:zoom-reset"));
    assert_eq!(menu_event_name("quit"), None);
}

#[test]
fn only_the_first_quit_request_runs_the_shutdown() {
    let mut quitting = false;
    assert!(exit_requested(&mut quitting));
    assert!(quitting);
    assert!(!exit_requested(&mut quitting));
    assert!(quitting);
}
