//! Gateway core that exposes a job engine's runners and workers as callable tools.

pub mod common;
pub mod data;
pub mod jobworkerp;
pub mod json;
pub mod model;
pub mod text;
pub mod tool_conversion;

use vstd::prelude::*;

verus! {

/// Where the gateway listens when it serves many sessions over the network.
#[derive(Clone, Debug, PartialEq)]
pub struct SseServerSettings {
    pub bind: String,
    pub sse_path: String,
    pub post_path: String,
}

/// The network settings that the environment gives: the address to bind,
/// `127.0.0.1:8000` unless one is given, and the two fixed paths.
pub fn sse_server_settings(mcp_addr: Option<String>) -> (settings: SseServerSettings)
    ensures
        settings.bind@ == match mcp_addr {
            Some(address) => address@,
            None => "127.0.0.1:8000"@,
        },
        settings.sse_path@ == "/sse"@,
        settings.post_path@ == "/message"@,
{
    SseServerSettings {
        bind: text::text_or(mcp_addr, "127.0.0.1:8000"),
        sse_path: "/sse".to_owned(),
        post_path: "/message".to_owned(),
    }
}

} // verus!
