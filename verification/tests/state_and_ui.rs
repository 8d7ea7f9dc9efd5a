use ironcloak::backend::on_bootstrap_outcome;
use ironcloak::backend::polls_until_quit;
use ironcloak::backend::POLL_INTERVAL_MS;
use ironcloak::config::IronCloakConfig;
use ironcloak::config::LoggingConfig;
use ironcloak::config::ProxyConfig;
use ironcloak::config::TorConfig;
use ironcloak::state::AppState;
use ironcloak::tor::storage_paths;
use ironcloak::ui::apply_language_change;
use ironcloak::ui::apply_port_change;
use ironcloak::ui::icon_should_update;
use ironcloak::ui::initial_needs_restart;
use ironcloak::ui::initial_port_input;
use ironcloak::ui::tray_menu_command;
use ironcloak::ui::validated_port;
use ironcloak::ui::TrayCommand;

fn fresh_state() -> AppState {
    AppState::new(9150, "ironcloak.toml".to_string(), "en".to_string())
}

#[test]
fn new_state_starts_disconnected_and_running() {
    let s = fresh_state();
    assert!(!s.is_connected());
    assert_eq!(s.get_port(), 9150);
    assert_eq!(s.get_pending_port(), 0);
    assert!(!s.should_quit());
    assert_eq!(s.get_language(), "en");
    assert!(s.get_tray_quit_menu_id().is_none());
}

#[test]
fn connectivity_flag_set_once() {
    let mut s = fresh_state();
    s.set_connected(true);
    assert!(s.is_connected());
}

#[test]
fn quit_flag_sticks() {
    let mut s = fresh_state();
    s.request_quit();
    assert!(s.should_quit());
    // No method clears it; other changes leave it set.
    s.set_pending_port(9051);
    s.set_language("fr".to_string());
    assert!(s.should_quit());
}

#[test]
fn language_and_menu_token_round_trip() {
    let mut s = fresh_state();
    s.set_language("es".to_string());
    assert_eq!(s.get_language(), "es");
    s.set_tray_quit_menu_id("1002".to_string());
    assert_eq!(s.get_tray_quit_menu_id().as_deref(), Some("1002"));
}

#[test]
fn bootstrap_success_turns_connectivity_on() {
    let mut s = fresh_state();
    assert!(on_bootstrap_outcome(&mut s, true));
    assert!(s.is_connected());
}

#[test]
fn bootstrap_failure_leaves_connectivity_alone() {
    let mut s = fresh_state();
    assert!(!on_bootstrap_outcome(&mut s, false));
    assert!(!s.is_connected());
    // A failure after a success does not reset the flag either.
    on_bootstrap_outcome(&mut s, true);
    on_bootstrap_outcome(&mut s, false);
    assert!(s.is_connected());
}

#[test]
fn shutdown_seen_within_one_poll_of_being_set() {
    assert_eq!(POLL_INTERVAL_MS, 100);
    // Flag set before the third poll and never cleared: the loop
    // exits at that poll, not later.
    let flags = vec![false, false, true, true, true];
    assert_eq!(polls_until_quit(&flags), Some(2));
    // Set from the start: the first poll already exits.
    assert_eq!(polls_until_quit(&vec![true, true]), Some(0));
    // Never set while idle: the loop keeps polling.
    assert_eq!(polls_until_quit(&vec![false, false, false]), None);
}

#[test]
fn config_defaults_match_the_documented_values() {
    let p = ProxyConfig::default();
    assert_eq!(p.listen_addr, "127.0.0.1");
    assert_eq!(p.listen_port, 9150);
    assert!(p.dns_reject_ip);
    let t = TorConfig::default();
    assert_eq!(t.data_dir, "./data/arti");
    let l = LoggingConfig::default();
    assert_eq!(l.level, "info");
    assert_eq!(l.log_dir, "./logs");
    assert!(l.language.is_none());
    let c = IronCloakConfig::default();
    assert_eq!(c.proxy.listen_port, 9150);
    assert_eq!(c.tor.data_dir, "./data/arti");
    assert_eq!(c.logging.level, "info");
}

#[test]
fn storage_paths_hang_off_the_data_dir() {
    let (cache, state) = storage_paths("./data/arti");
    assert_eq!(cache, "./data/arti/cache");
    assert_eq!(state, "./data/arti/state");
}

#[test]
fn window_shows_pending_port_when_queued() {
    assert_eq!(initial_port_input(0, 9150), 9150);
    assert_eq!(initial_port_input(9051, 9150), 9051);
    assert!(!initial_needs_restart(0, 9150));
    assert!(initial_needs_restart(9051, 9150));
    assert!(!initial_needs_restart(9150, 9150));
}

#[test]
fn port_entry_screening() {
    assert_eq!(validated_port(Some(9051)), Some(9051));
    assert_eq!(validated_port(Some(0)), None);
    assert_eq!(validated_port(None), None);
}

#[test]
fn saving_a_new_port_queues_it_for_restart() {
    let mut s = fresh_state();
    assert!(apply_port_change(&mut s, 9051));
    assert_eq!(s.get_pending_port(), 9051);
    assert_eq!(s.get_port(), 9150);
    // Saving the current port again clears the queue.
    assert!(!apply_port_change(&mut s, 9150));
    assert_eq!(s.get_pending_port(), 0);
}

#[test]
fn saving_a_new_language_owes_a_restart() {
    let mut s = fresh_state();
    assert!(apply_language_change(&mut s, "fr".to_string()));
    assert_eq!(s.get_language(), "fr");
    assert!(!apply_language_change(&mut s, "fr".to_string()));
}

#[test]
fn tray_menu_events_map_to_commands() {
    let configure = "1001".to_string();
    let quit = "1002".to_string();
    assert!(matches!(
        tray_menu_command(&"1001".to_string(), &configure, &quit),
        TrayCommand::OpenConfig
    ));
    assert!(matches!(
        tray_menu_command(&"1002".to_string(), &configure, &quit),
        TrayCommand::RequestQuit
    ));
    assert!(matches!(
        tray_menu_command(&"9999".to_string(), &configure, &quit),
        TrayCommand::Ignore
    ));
}

#[test]
fn icon_redraw_only_on_change() {
    assert!(icon_should_update(true, false));
    assert!(icon_should_update(false, true));
    assert!(!icon_should_update(true, true));
    assert!(!icon_should_update(false, false));
}
