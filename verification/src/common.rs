//! Parts that more than one side of the gateway uses.

pub mod jsonrpc;
