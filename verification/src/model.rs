//! Records of the tool-calling protocol, as far as the gateway reads or
//! fills them, each with its mathematical view.

use crate::json::{entries_of, json_of, Entries, Json, JsonObject};
use serde_json::Value;
use vstd::prelude::*;

verus! {

/// A tool as the protocol lists it.
#[derive(Debug, PartialEq)]
pub struct Tool {
    pub name: String,
    pub description: String,
    pub input_schema: JsonObject,
}

/// The mathematical view of [`Tool`].
pub struct ToolView {
    pub name: Seq<char>,
    pub description: Seq<char>,
    pub input_schema: Entries,
}

impl View for Tool {
    type V = ToolView;

    open spec fn view(&self) -> ToolView {
        ToolView {
            name: self.name@,
            description: self.description@,
            input_schema: entries_of(self.input_schema),
        }
    }
}

/// The views of a list of tools.
pub open spec fn tools_view(tools: Seq<Tool>) -> Seq<ToolView> {
    Seq::new(tools.len(), |i: int| tools[i]@)
}

/// The answer to a listing of the tools.
#[derive(Debug, PartialEq)]
pub struct ListToolsResult {
    pub tools: Vec<Tool>,
    pub next_cursor: Option<String>,
}

/// The mathematical view of [`ListToolsResult`].
pub struct ListToolsResultView {
    pub tools: Seq<ToolView>,
    pub next_cursor: Option<Seq<char>>,
}

impl View for ListToolsResult {
    type V = ListToolsResultView;

    open spec fn view(&self) -> ListToolsResultView {
        ListToolsResultView {
            tools: tools_view(self.tools@),
            next_cursor: crate::data::text_view(self.next_cursor),
        }
    }
}

/// A call of a tool: its name and, where given, its arguments.
#[derive(Debug, PartialEq)]
pub struct CallToolRequestParam {
    pub name: String,
    pub arguments: Option<JsonObject>,
}

/// The mathematical view of [`CallToolRequestParam`].
pub struct CallToolRequestParamView {
    pub name: Seq<char>,
    pub arguments: Option<Entries>,
}

/// The entries that an optional object holds.
pub open spec fn object_view(object: Option<JsonObject>) -> Option<Entries> {
    match object {
        Some(o) => Some(entries_of(o)),
        None => None,
    }
}

/// The value that an optional JSON value holds.
pub open spec fn value_view(value: Option<Value>) -> Option<Json> {
    match value {
        Some(v) => Some(json_of(v)),
        None => None,
    }
}

impl View for CallToolRequestParam {
    type V = CallToolRequestParamView;

    open spec fn view(&self) -> CallToolRequestParamView {
        CallToolRequestParamView { name: self.name@, arguments: object_view(self.arguments) }
    }
}

/// The result of a call: its content, each item a JSON value.
#[derive(Debug, PartialEq)]
pub struct CallToolResult {
    pub content: Vec<Value>,
    pub is_error: Option<bool>,
}

/// The mathematical view of [`CallToolResult`].
pub struct CallToolResultView {
    pub content: Seq<Json>,
    pub is_error: Option<bool>,
}

/// The values that a list of JSON values holds.
pub open spec fn content_view(content: Seq<Value>) -> Seq<Json> {
    Seq::new(content.len(), |i: int| json_of(content[i]))
}

impl View for CallToolResult {
    type V = CallToolResultView;

    open spec fn view(&self) -> CallToolResultView {
        CallToolResultView { content: content_view(self.content@), is_error: self.is_error }
    }
}

/// An error of the protocol.
#[derive(Clone, Debug, PartialEq)]
pub enum McpError {
    /// No tool of that name can be called.
    MethodNotFound,
    /// The arguments of the call cannot be used.
    InvalidParams(String),
    /// The gateway or the engine failed.
    InternalError(String),
}

/// The mathematical view of [`McpError`].
pub enum McpErrorView {
    MethodNotFound,
    InvalidParams(Seq<char>),
    InternalError(Seq<char>),
}

impl View for McpError {
    type V = McpErrorView;

    open spec fn view(&self) -> McpErrorView {
        match self {
            McpError::MethodNotFound => McpErrorView::MethodNotFound,
            McpError::InvalidParams(message) => McpErrorView::InvalidParams(message@),
            McpError::InternalError(message) => McpErrorView::InternalError(message@),
        }
    }
}

/// The view of the outcome of a call.
pub open spec fn outcome_view(outcome: Result<CallToolResult, McpError>) -> Result<
    CallToolResultView,
    McpErrorView,
> {
    match outcome {
        Ok(result) => Ok(result@),
        Err(error) => Err(error@),
    }
}

} // verus!
