//! The connection side bar: what it holds while its list is loaded, and
//! what it shows.

use vstd::prelude::*;
use vstd::string::StringExecFns;
use crate::connection_list::ConnectionListItem;

verus! {

/// The state of the connection side bar.
#[derive(Clone, Debug, PartialEq, Eq)]
pub struct ConnectionSidebarState {
    pub connections: Vec<ConnectionListItem>,
    pub is_loading: bool,
    pub error: Option<String>,
}

impl ConnectionSidebarState {
    /// An empty side bar, not loading.
    pub fn new() -> (s: Self)
        ensures
            s.connections@.len() == 0,
            !s.is_loading,
            s.error is None,
    {
        ConnectionSidebarState { connections: Vec::new(), is_loading: false, error: None }
    }

    /// Starts loading the list. Without the application state there is
    /// nothing to load from, and the side bar shows that instead. Gives
    /// whether loading started.
    pub fn begin_refresh(&mut self, has_app_state: bool) -> (started: bool)
        ensures
            started == has_app_state,
            final(self).connections == old(self).connections,
            has_app_state ==> final(self).is_loading && final(self).error is None,
            !has_app_state ==> final(self).is_loading == old(self).is_loading,
            !has_app_state ==> (final(self).error matches Some(m) && m@
                == "App state is not initialized"@),
    {
        if !has_app_state {
            self.error = Some(String::from_str("App state is not initialized"));
            return false;
        }
        self.is_loading = true;
        self.error = None;
        true
    }

    /// Takes in the outcome of loading: the list, or the message of what
    /// went wrong, in which case the list is emptied.
    pub fn finish_refresh(&mut self, result: Result<Vec<ConnectionListItem>, String>)
        ensures
            !final(self).is_loading,
            match result {
                Ok(items) => final(self).connections == items && final(self).error is None,
                Err(m) => final(self).connections@.len() == 0 && final(self).error == Some(m),
            },
    {
        self.is_loading = false;
        match result {
            Ok(items) => {
                self.connections = items;
                self.error = None;
            },
            Err(m) => {
                self.connections = Vec::new();
                self.error = Some(m);
            },
        }
    }

    /// Whether the side bar says that there is no connection yet: not
    /// loading, no error, and an empty list.
    pub fn shows_empty_message(&self) -> (b: bool)
        ensures
            b == (!self.is_loading && self.error is None && self.connections@.len() == 0),
    {
        !self.is_loading && self.error.is_none() && self.connections.len() == 0
    }
}

} // verus!
