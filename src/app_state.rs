//! The state that the user interface keeps about the server and its own
//! layout, and how messages change it.
//!
//! Instants are given as milliseconds on a monotonic clock of the host.

use vstd::prelude::*;
use crate::session::ServerDetails;
use crate::views::{Followup, SearchMessage, Searching, ViewState, searching_update};

verus! {

/// The port of the log server when none is configured.
pub const DEFAULT_PORT: u32 = 3002;

/// How long server details stay fresh, in milliseconds.
pub const DETAILS_FRESH_MS: u64 = 1000;

/// The width of the side bar before the user resizes it.
pub const DEFAULT_SPLIT_SIZE: u16 = 208;

/// Where the log server listens.
#[derive(Debug, Clone)]
pub struct Flags {
    pub host: String,
    pub port: u32,
}

impl Default for Flags {
    /// The loopback address and the default port.
    fn default() -> (r: Flags)
        ensures
            r.host@ == "127.0.0.1"@,
            r.port == DEFAULT_PORT,
    {
        let host = "127.0.0.1".to_string();
        proof {
            vstd::string::to_string_from_display_ensures_for_str("127.0.0.1", host);
        }
        Flags { host, port: DEFAULT_PORT }
    }
}

/// Whether details last updated at `last_updated` are stale at `now`: at
/// least one second has passed (an earlier `now` counts as no time passed).
pub open spec fn stale(last_updated: u64, now: u64) -> bool {
    now >= last_updated && now - last_updated >= DETAILS_FRESH_MS
}

/// The state of the user interface.
pub struct App {
    server_errors: Vec<String>,
    host: String,
    port: u32,
    uptime: u64,
    last_updated: u64,
    split_size: Option<u16>,
    view_state: ViewState,
    searching_view: Searching,
}

impl Default for App {
    /// The state at start-up with the default flags, at instant 0.
    fn default() -> (r: App)
        ensures
            r.spec_host()@ == "127.0.0.1"@,
            r.spec_port() == DEFAULT_PORT,
            r.spec_uptime() == 0,
            r.spec_last_updated() == 0,
            r.spec_server_errors().len() == 0,
            r.spec_split_size() == Some(DEFAULT_SPLIT_SIZE),
            r.spec_view_state() == ViewState::Main,
    {
        App::new_no_server(Flags::default(), 0)
    }
}

impl App {
    /// The state at start-up, before any server is running, at instant `now`.
    pub fn new_no_server(flags: Flags, now: u64) -> (r: App)
        ensures
            r.spec_host()@ == flags.host@,
            r.spec_port() == flags.port,
            r.spec_uptime() == 0,
            r.spec_last_updated() == now,
            r.spec_server_errors().len() == 0,
            r.spec_split_size() == Some(DEFAULT_SPLIT_SIZE),
            r.spec_view_state() == ViewState::Main,
            r.spec_searching_view().filter@.len() == 0,
            !r.spec_searching_view().case_sensitive,
            !r.spec_searching_view().regex_sensitive,
    {
        App {
            host: flags.host,
            port: flags.port,
            uptime: 0,
            last_updated: now,
            server_errors: Vec::new(),
            split_size: Some(DEFAULT_SPLIT_SIZE),
            view_state: ViewState::default(),
            searching_view: Searching::default(),
        }
    }

    /// The window title.
    pub fn title(&self) -> (r: String)
        ensures
            r@ == "CodeCTRL"@,
    {
        let r = "CodeCTRL".to_string();
        proof {
            vstd::string::to_string_from_display_ensures_for_str("CodeCTRL", r);
        }
        r
    }

    pub fn host(&self) -> (r: &String)
        ensures
            *r == self.spec_host(),
    {
        &self.host
    }

    pub fn port(&self) -> (r: u32)
        ensures
            r == self.spec_port(),
    {
        self.port
    }

    /// The server's uptime in seconds, as last reported.
    pub fn uptime(&self) -> (r: u64)
        ensures
            r == self.spec_uptime(),
    {
        self.uptime
    }

    pub fn split_size(&self) -> (r: Option<u16>)
        ensures
            r == self.spec_split_size(),
    {
        self.split_size
    }

    pub fn view_state(&self) -> (r: ViewState)
        ensures
            r == self.spec_view_state(),
    {
        self.view_state
    }

    pub fn searching_view(&self) -> (r: &Searching)
        ensures
            *r == self.spec_searching_view(),
    {
        &self.searching_view
    }

    /// Shows `state`.
    pub fn update_view_state(&mut self, state: ViewState)
        ensures
            final(self).spec_view_state() == state,
            final(self).same_server(*old(self)),
            final(self).spec_split_size() == old(self).spec_split_size(),
            final(self).spec_searching_view() == old(self).spec_searching_view(),
    {
        self.view_state = state;
    }

    /// Sets the width of the side bar.
    pub fn split_resize(&mut self, size: u16)
        ensures
            final(self).spec_split_size() == Some(size),
            final(self).same_server(*old(self)),
            final(self).spec_view_state() == old(self).spec_view_state(),
            final(self).spec_searching_view() == old(self).spec_searching_view(),
    {
        self.split_size = Some(size);
    }

    /// Hands a message to the search view; the search view asks for what
    /// comes next.
    pub fn update_search(&mut self, message: SearchMessage) -> (r: Option<Followup>)
        ensures
            final(self).same_server(*old(self)),
            final(self).spec_split_size() == old(self).spec_split_size(),
            final(self).spec_view_state() == old(self).spec_view_state(),
            searching_update(old(self).spec_searching_view(), message, final(self).spec_searching_view(), r),
    {
        self.searching_view.update(message)
    }

    /// The embedded server started at `host`:`port`.
    pub fn server_started(&mut self, host: String, port: u32)
        ensures
            final(self).spec_host() == host,
            final(self).spec_port() == port,
            final(self).spec_uptime() == old(self).spec_uptime(),
            final(self).spec_last_updated() == old(self).spec_last_updated(),
            final(self).spec_server_errors() == old(self).spec_server_errors(),
            final(self).same_layout(*old(self)),
    {
        self.host = host;
        self.port = port;
    }

    /// Queues a server error, if there is one.
    pub fn add_server_error(&mut self, error: Option<String>)
        ensures
            final(self).spec_server_errors() == match error {
                Some(e) => old(self).spec_server_errors().push(e),
                None => old(self).spec_server_errors(),
            },
            final(self).spec_host() == old(self).spec_host(),
            final(self).spec_port() == old(self).spec_port(),
            final(self).spec_uptime() == old(self).spec_uptime(),
            final(self).spec_last_updated() == old(self).spec_last_updated(),
            final(self).same_layout(*old(self)),
    {
        if let Some(e) = error {
            self.server_errors.push(e);
        }
    }

    /// Takes every queued server error, oldest first, and leaves the queue
    /// empty.
    pub fn take_server_errors(&mut self) -> (r: Vec<String>)
        ensures
            r@ == old(self).spec_server_errors(),
            final(self).spec_server_errors().len() == 0,
            final(self).spec_host() == old(self).spec_host(),
            final(self).spec_port() == old(self).spec_port(),
            final(self).spec_uptime() == old(self).spec_uptime(),
            final(self).spec_last_updated() == old(self).spec_last_updated(),
            final(self).same_layout(*old(self)),
    {
        let mut taken: Vec<String> = Vec::new();
        std::mem::swap(&mut taken, &mut self.server_errors);
        taken
    }

    /// Whether the server details are stale at `now`, so that a refresh is due.
    pub fn details_stale(&self, now: u64) -> (r: bool)
        ensures
            r == stale(self.spec_last_updated(), now),
    {
        now >= self.last_updated && now - self.last_updated >= DETAILS_FRESH_MS
    }

    /// Takes in the server details that a refresh brought, if any, at `now`.
    pub fn set_connection_details(&mut self, details: Option<ServerDetails>, now: u64)
        ensures
            match details {
                Some(d) => {
                    &&& final(self).spec_host() == d.host
                    &&& final(self).spec_port() == d.port
                    &&& final(self).spec_uptime() == d.uptime
                    &&& final(self).spec_last_updated() == now
                },
                None => {
                    &&& final(self).spec_host() == old(self).spec_host()
                    &&& final(self).spec_port() == old(self).spec_port()
                    &&& final(self).spec_uptime() == old(self).spec_uptime()
                    &&& final(self).spec_last_updated() == old(self).spec_last_updated()
                },
            },
            final(self).spec_server_errors() == old(self).spec_server_errors(),
            final(self).same_layout(*old(self)),
    {
        if let Some(d) = details {
            self.host = d.host;
            self.port = d.port;
            self.uptime = d.uptime;
            self.last_updated = now;
        }
    }

    /// The server part of the two states is the same.
    pub open spec fn same_server(&self, other: App) -> bool {
        &&& self.spec_host() == other.spec_host()
        &&& self.spec_port() == other.spec_port()
        &&& self.spec_uptime() == other.spec_uptime()
        &&& self.spec_last_updated() == other.spec_last_updated()
        &&& self.spec_server_errors() == other.spec_server_errors()
    }

    /// The layout part of the two states is the same.
    pub open spec fn same_layout(&self, other: App) -> bool {
        &&& self.spec_split_size() == other.spec_split_size()
        &&& self.spec_view_state() == other.spec_view_state()
        &&& self.spec_searching_view() == other.spec_searching_view()
    }

    pub closed spec fn spec_host(&self) -> String {
        self.host
    }

    pub closed spec fn spec_port(&self) -> u32 {
        self.port
    }

    pub closed spec fn spec_uptime(&self) -> u64 {
        self.uptime
    }

    pub closed spec fn spec_last_updated(&self) -> u64 {
        self.last_updated
    }

    pub closed spec fn spec_server_errors(&self) -> Seq<String> {
        self.server_errors@
    }

    pub closed spec fn spec_split_size(&self) -> Option<u16> {
        self.split_size
    }

    pub closed spec fn spec_view_state(&self) -> ViewState {
        self.view_state
    }

    pub closed spec fn spec_searching_view(&self) -> Searching {
        self.searching_view
    }
}

} // verus!
