//! The bridge's error type and the text each error reads as.
use vstd::prelude::*;

verus! {

/// What can go wrong in the bridge. The I/O and JSON variants carry the
/// message of the underlying error.
#[derive(Debug, Clone)]
pub enum BridgeError {
    Config(String),
    NoSession,
    Matrix(String),
    RoomNotFound(String),
    LoginFailed(String),
    SyncFailed(String),
    SendFailed(String),
    Io(String),
    Json(String),
    Other(String),
}

/// The text of an error, as it is shown to the user.
pub open spec fn error_text(e: BridgeError) -> Seq<char> {
    match e {
        BridgeError::Config(s) => "Configuration error: "@ + s@,
        BridgeError::NoSession => "No saved session — run `matrix-bridge setup` first"@,
        BridgeError::Matrix(s) => "Matrix error: "@ + s@,
        BridgeError::RoomNotFound(s) => "Room not found: "@ + s@,
        BridgeError::LoginFailed(s) => "Login failed: "@ + s@,
        BridgeError::SyncFailed(s) => "Sync failed: "@ + s@,
        BridgeError::SendFailed(s) => "Send failed: "@ + s@,
        BridgeError::Io(s) => "IO error: "@ + s@,
        BridgeError::Json(s) => "JSON error: "@ + s@,
        BridgeError::Other(s) => s@,
    }
}

/// `prefix` followed by `s`.
pub fn prefixed(prefix: &str, s: &String) -> (r: String)
    ensures
        r@ == prefix@ + s@,
{
    let mut r = prefix.to_owned();
    r.append(s.as_str());
    r
}

impl BridgeError {
    /// The text of the error.
    pub fn message(&self) -> (r: String)
        ensures
            r@ == error_text(*self),
    {
        match self {
            BridgeError::Config(s) => prefixed("Configuration error: ", s),
            BridgeError::NoSession => "No saved session — run `matrix-bridge setup` first".to_owned(),
            BridgeError::Matrix(s) => prefixed("Matrix error: ", s),
            BridgeError::RoomNotFound(s) => prefixed("Room not found: ", s),
            BridgeError::LoginFailed(s) => prefixed("Login failed: ", s),
            BridgeError::SyncFailed(s) => prefixed("Sync failed: ", s),
            BridgeError::SendFailed(s) => prefixed("Send failed: ", s),
            BridgeError::Io(s) => prefixed("IO error: ", s),
            BridgeError::Json(s) => prefixed("JSON error: ", s),
            BridgeError::Other(s) => s.clone(),
        }
    }
}

} // verus!
