//! Process-wide configuration, built once at start-up and shared by reference.

use vstd::prelude::*;

verus! {

/// What the stages read of the application's state: the one API key that
/// every request has to present.
#[derive(Debug, PartialEq, Eq)]
pub struct AppState {
    pub api_key: String,
}

impl AppState {
    /// State that admits exactly the holders of `api_key`.
    pub fn new(api_key: String) -> (state: AppState)
        ensures
            state.api_key@ == api_key@,
    {
        AppState { api_key }
    }
}

impl Clone for AppState {
    fn clone(&self) -> (copy: AppState)
        ensures
            copy.api_key@ == self.api_key@,
    {
        AppState { api_key: self.api_key.clone() }
    }
}

} // verus!
