//! Shared application state.
//!
//! One record per process, shared between the network core and the
//! presentation layer. Every field is an independent single value: no
//! two fields ever need to change together, so the process may guard
//! each one with its own atomic or mutex. The contracts here say
//! exactly which field each method touches and that the others keep
//! their values.

use vstd::prelude::*;

verus! {

/// Process-wide state shared between the network core and the
/// presentation layer.
pub struct AppState {
    /// True once the overlay client has bootstrapped; never reset.
    pub connected: bool,
    /// The port the proxy listener is bound to (or will bind to).
    pub port: u16,
    /// A port staged for the next restart; 0 means no change queued.
    pub pending_port: u16,
    /// The shutdown flag; once set it is never cleared.
    pub quit: bool,
    /// Where the configuration file lives; fixed at construction.
    pub config_path: String,
    /// The current display-language tag, e.g. "en" or "fr".
    pub language: String,
    /// Correlation token of the presentation layer's quit menu entry,
    /// if one was registered.
    pub tray_quit_menu_id: Option<String>,
}

impl AppState {
    /// Builds the initial state: not connected, no pending port, no
    /// shutdown requested, no menu token.
    pub fn new(port: u16, config_path: String, language: String) -> (s: AppState)
        ensures
            s.connected == false,
            s.port == port,
            s.pending_port == 0,
            s.quit == false,
            s.config_path == config_path,
            s.language == language,
            s.tray_quit_menu_id is None,
    {
        AppState {
            connected: false,
            port,
            pending_port: 0,
            quit: false,
            config_path,
            language,
            tray_quit_menu_id: None,
        }
    }

    pub fn is_connected(&self) -> (r: bool)
        ensures
            r == self.connected,
    {
        self.connected
    }

    pub fn set_connected(&mut self, val: bool)
        ensures
            final(self).connected == val,
            final(self).port == old(self).port,
            final(self).pending_port == old(self).pending_port,
            final(self).quit == old(self).quit,
            final(self).config_path == old(self).config_path,
            final(self).language == old(self).language,
            final(self).tray_quit_menu_id == old(self).tray_quit_menu_id,
    {
        self.connected = val;
    }

    pub fn get_port(&self) -> (r: u16)
        ensures
            r == self.port,
    {
        self.port
    }

    pub fn get_pending_port(&self) -> (r: u16)
        ensures
            r == self.pending_port,
    {
        self.pending_port
    }

    pub fn set_pending_port(&mut self, port: u16)
        ensures
            final(self).pending_port == port,
            final(self).connected == old(self).connected,
            final(self).port == old(self).port,
            final(self).quit == old(self).quit,
            final(self).config_path == old(self).config_path,
            final(self).language == old(self).language,
            final(self).tray_quit_menu_id == old(self).tray_quit_menu_id,
    {
        self.pending_port = port;
    }

    pub fn get_language(&self) -> (r: String)
        ensures
            r@ == self.language@,
    {
        self.language.clone()
    }

    pub fn set_language(&mut self, lang: String)
        ensures
            final(self).language == lang,
            final(self).connected == old(self).connected,
            final(self).port == old(self).port,
            final(self).pending_port == old(self).pending_port,
            final(self).quit == old(self).quit,
            final(self).config_path == old(self).config_path,
            final(self).tray_quit_menu_id == old(self).tray_quit_menu_id,
    {
        self.language = lang;
    }

    pub fn should_quit(&self) -> (r: bool)
        ensures
            r == self.quit,
    {
        self.quit
    }

    /// Sets the shutdown flag. The flag only ever goes from false to
    /// true: no method of this type clears it.
    pub fn request_quit(&mut self)
        ensures
            final(self).quit == true,
            final(self).connected == old(self).connected,
            final(self).port == old(self).port,
            final(self).pending_port == old(self).pending_port,
            final(self).config_path == old(self).config_path,
            final(self).language == old(self).language,
            final(self).tray_quit_menu_id == old(self).tray_quit_menu_id,
    {
        self.quit = true;
    }

    pub fn set_tray_quit_menu_id(&mut self, id: String)
        ensures
            final(self).tray_quit_menu_id == Some(id),
            final(self).connected == old(self).connected,
            final(self).port == old(self).port,
            final(self).pending_port == old(self).pending_port,
            final(self).quit == old(self).quit,
            final(self).config_path == old(self).config_path,
            final(self).language == old(self).language,
    {
        self.tray_quit_menu_id = Some(id);
    }

    pub fn get_tray_quit_menu_id(&self) -> (r: Option<String>)
        ensures
            r == self.tray_quit_menu_id,
    {
        self.tray_quit_menu_id.clone()
    }
}

} // verus!
