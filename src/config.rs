use vstd::prelude::*;

verus! {

/// The client's settings.
pub struct Config {
    /// The token the client logs in with.
    pub token: String,
    /// The application id the commands are registered under.
    pub app_id: u64,
    /// Whether the play and skip commands are registered when the client
    /// becomes ready.
    pub register: bool,
}

} // verus!
