//! Decisions of the presentation layer.
//!
//! The windows and menus themselves live outside; what they decide —
//! which port to show, when a restart is owed, what a staged change
//! does to the shared state, which command a menu event amounts to —
//! is here, so the presentation layer only draws and forwards.

use crate::state::AppState;
use vstd::prelude::*;

verus! {

/// The port the configuration window shows first: a staged pending
/// port if one is queued, else the port in use.
pub fn initial_port_input(pending: u16, current: u16) -> (r: u16)
    ensures
        r == if pending > 0 {
            pending
        } else {
            current
        },
{
    if pending > 0 {
        pending
    } else {
        current
    }
}

/// Whether unapplied changes already await a restart when the window
/// opens: a pending port is queued and differs from the port in use.
pub fn initial_needs_restart(pending: u16, current: u16) -> (r: bool)
    ensures
        r == (pending > 0 && pending != current),
{
    pending > 0 && pending != current
}

/// Screens a parsed port entry: a port is accepted exactly when it
/// parsed and is positive.
pub fn validated_port(parsed: Option<u16>) -> (r: Option<u16>)
    ensures
        r == if (parsed matches Some(p) && p > 0) {
            parsed
        } else {
            Option::<u16>::None
        },
{
    match parsed {
        Some(p) if p > 0 => Some(p),
        _ => None,
    }
}

/// Stages a saved port: a port other than the one in use is queued
/// for the next restart and a restart is owed; the same port clears
/// the queue. The running listener is never touched.
pub fn apply_port_change(state: &mut AppState, new_port: u16) -> (restart: bool)
    ensures
        restart == (new_port != old(state).port),
        final(state).pending_port == if new_port != old(state).port {
            new_port
        } else {
            0u16
        },
        final(state).connected == old(state).connected,
        final(state).port == old(state).port,
        final(state).quit == old(state).quit,
        final(state).config_path == old(state).config_path,
        final(state).language == old(state).language,
        final(state).tray_quit_menu_id == old(state).tray_quit_menu_id,
{
    let current = state.get_port();
    if new_port != current {
        state.set_pending_port(new_port);
        true
    } else {
        state.set_pending_port(0);
        false
    }
}

/// Records a saved language: a tag other than the current one is
/// stored and owes a restart; the same tag changes nothing.
pub fn apply_language_change(state: &mut AppState, lang: String) -> (restart: bool)
    ensures
        restart == (lang@ != old(state).language@),
        final(state).language@ == lang@,
        final(state).connected == old(state).connected,
        final(state).port == old(state).port,
        final(state).pending_port == old(state).pending_port,
        final(state).quit == old(state).quit,
        final(state).config_path == old(state).config_path,
        final(state).tray_quit_menu_id == old(state).tray_quit_menu_id,
{
    let current = state.get_language();
    if lang == current {
        false
    } else {
        state.set_language(lang);
        true
    }
}

/// What a menu event amounts to.
pub enum TrayCommand {
    /// Open the configuration window.
    OpenConfig,
    /// Set the shutdown flag.
    RequestQuit,
    /// Not one of ours.
    Ignore,
}

/// Sorts a menu event by its identifier: the configure entry opens
/// the window, the quit entry requests shutdown, anything else is
/// ignored. The configure entry wins if both match.
pub fn tray_menu_command(event_id: &String, configure_id: &String, quit_id: &String) -> (r:
    TrayCommand)
    ensures
        r is OpenConfig <==> event_id@ == configure_id@,
        r is RequestQuit <==> (event_id@ != configure_id@ && event_id@ == quit_id@),
        r is Ignore <==> (event_id@ != configure_id@ && event_id@ != quit_id@),
{
    if *event_id == *configure_id {
        TrayCommand::OpenConfig
    } else if *event_id == *quit_id {
        TrayCommand::RequestQuit
    } else {
        TrayCommand::Ignore
    }
}

/// Whether the status icon must be redrawn: exactly when the
/// connectivity shown no longer matches the connectivity there is.
pub fn icon_should_update(connected: bool, was_connected: bool) -> (r: bool)
    ensures
        r == (connected != was_connected),
{
    connected != was_connected
}

} // verus!
