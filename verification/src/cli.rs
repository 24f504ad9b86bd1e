//! The command line: global options and the commands.
use vstd::prelude::*;

verus! {

/// The parsed command line.
#[derive(Debug, Clone)]
pub struct Cli {
    /// Output in JSON format
    pub json: bool,
    pub command: Commands,
}

/// The commands of the bridge.
#[derive(Debug, Clone)]
pub enum Commands {
    /// Interactive setup: login, create device, save config
    Setup,
    /// Send a message to a room
    Send {
        /// Message text
        message: String,
        /// Room ID (overrides default_room)
        room: Option<String>,
        /// User ID to @mention
        mention: Option<String>,
        /// Suppress default mention
        no_mention: bool,
    },
    /// Read recent messages from a room
    Read {
        /// Room ID (overrides default_room)
        room: Option<String>,
        /// Number of messages (1-100)
        limit: u32,
    },
    /// List joined rooms
    Rooms,
    /// Send a message and wait for a reply
    SendWait {
        /// Message text
        message: String,
        /// Room ID (overrides default_room)
        room: Option<String>,
        /// User ID to @mention
        mention: Option<String>,
        /// Suppress default mention
        no_mention: bool,
        /// Timeout in seconds (1-300)
        timeout: u64,
    },
    /// View or set config values
    Config {
        /// Config key to view or set
        key: Option<String>,
        /// Value to set
        value: Option<String>,
    },
    /// Start the MCP server (stdin/stdout)
    McpServer,
}

} // verus!
