//! Records of the job engine, as far as the gateway reads or fills them.
//!
//! Each record has a mathematical view, over which the contracts of the
//! gateway are stated.

use vstd::prelude::*;

verus! {

/// The category of a runner, which decides how a call to it is handled.
#[derive(Clone, Copy, Debug, PartialEq, Eq, Structural)]
pub enum RunnerType {
    /// An ordinary function: one tool, called with its arguments.
    Standard,
    /// A runner whose instances are workflow definitions kept as workers.
    ReusableWorkflow,
    /// A runner that stands for an external tool server and its tools.
    McpServer,
}

/// Identifier of a runner. A negative value marks a reusable workflow.
#[derive(Clone, Copy, Debug, PartialEq, Eq, Structural)]
pub struct RunnerId {
    pub value: i64,
}

/// Identifier of a worker.
#[derive(Clone, Copy, Debug, PartialEq, Eq, Structural)]
pub struct WorkerId {
    pub value: i64,
}

/// How the result of a job reaches the caller.
#[derive(Clone, Copy, Debug, PartialEq, Eq, Structural)]
pub enum ResponseType {
    /// The caller does not wait for the result.
    NoResult,
    /// The caller waits and receives the result directly.
    Direct,
}

/// What the engine says of a runner.
#[derive(Clone, Debug, PartialEq)]
pub struct RunnerData {
    pub name: String,
    pub description: String,
    pub runner_type: RunnerType,
}

/// The mathematical view of [`RunnerData`].
pub struct RunnerDataView {
    pub name: Seq<char>,
    pub description: Seq<char>,
    pub runner_type: RunnerType,
}

impl View for RunnerData {
    type V = RunnerDataView;

    open spec fn view(&self) -> RunnerDataView {
        RunnerDataView {
            name: self.name@,
            description: self.description@,
            runner_type: self.runner_type,
        }
    }
}

/// A runner as the engine returns it; either part may be missing.
#[derive(Clone, Debug, PartialEq)]
pub struct Runner {
    pub id: Option<RunnerId>,
    pub data: Option<RunnerData>,
}

/// The mathematical view of [`Runner`].
pub struct RunnerView {
    pub id: Option<RunnerId>,
    pub data: Option<RunnerDataView>,
}

impl View for Runner {
    type V = RunnerView;

    open spec fn view(&self) -> RunnerView {
        RunnerView {
            id: self.id,
            data: match self.data {
                Some(data) => Some(data@),
                None => None,
            },
        }
    }
}

/// A worker: a named instance of a runner with fixed settings.
#[derive(Clone, Debug, PartialEq)]
pub struct WorkerData {
    pub name: String,
    pub description: String,
    pub runner_id: Option<RunnerId>,
    pub runner_settings: Vec<u8>,
    pub channel: Option<String>,
    pub response_type: ResponseType,
    pub broadcast_results: bool,
}

/// The mathematical view of [`WorkerData`].
pub struct WorkerDataView {
    pub name: Seq<char>,
    pub description: Seq<char>,
    pub runner_id: Option<RunnerId>,
    pub runner_settings: Seq<u8>,
    pub channel: Option<Seq<char>>,
    pub response_type: ResponseType,
    pub broadcast_results: bool,
}

/// The text that an optional string holds.
pub open spec fn text_view(text: Option<String>) -> Option<Seq<char>> {
    match text {
        Some(t) => Some(t@),
        None => None,
    }
}

impl View for WorkerData {
    type V = WorkerDataView;

    open spec fn view(&self) -> WorkerDataView {
        WorkerDataView {
            name: self.name@,
            description: self.description@,
            runner_id: self.runner_id,
            runner_settings: self.runner_settings@,
            channel: text_view(self.channel),
            response_type: self.response_type,
            broadcast_results: self.broadcast_results,
        }
    }
}

/// A tool of an external tool server.
#[derive(Clone, Debug, PartialEq)]
pub struct McpTool {
    pub name: String,
    pub description: Option<String>,
    pub input_schema: String,
}

/// The mathematical view of [`McpTool`].
pub struct McpToolView {
    pub name: Seq<char>,
    pub description: Option<Seq<char>>,
    pub input_schema: Seq<char>,
}

impl View for McpTool {
    type V = McpToolView;

    open spec fn view(&self) -> McpToolView {
        McpToolView {
            name: self.name@,
            description: text_view(self.description),
            input_schema: self.input_schema@,
        }
    }
}

/// The schema texts of a function. An empty text stands for a schema that
/// is not there.
#[derive(Clone, Debug, PartialEq)]
pub struct FunctionSchema {
    pub settings: Option<String>,
    pub arguments: String,
}

/// The mathematical view of [`FunctionSchema`].
pub struct FunctionSchemaView {
    pub settings: Option<Seq<char>>,
    pub arguments: Seq<char>,
}

impl View for FunctionSchema {
    type V = FunctionSchemaView;

    open spec fn view(&self) -> FunctionSchemaView {
        FunctionSchemaView { settings: text_view(self.settings), arguments: self.arguments@ }
    }
}

/// What a catalog entry declares: one pair of schemas, or the tools of an
/// external tool server.
#[derive(Clone, Debug, PartialEq)]
pub enum Schema {
    SingleSchema(FunctionSchema),
    McpTools(Vec<McpTool>),
}

/// The mathematical view of [`Schema`].
pub enum SchemaView {
    SingleSchema(FunctionSchemaView),
    McpTools(Seq<McpToolView>),
}

/// The views of a list of tools.
pub open spec fn mcp_tools_view(tools: Seq<McpTool>) -> Seq<McpToolView> {
    Seq::new(tools.len(), |i: int| tools[i]@)
}

impl View for Schema {
    type V = SchemaView;

    open spec fn view(&self) -> SchemaView {
        match self {
            Schema::SingleSchema(schema) => SchemaView::SingleSchema(schema@),
            Schema::McpTools(tools) => SchemaView::McpTools(mcp_tools_view(tools@)),
        }
    }
}

/// One entry of the engine's catalog: a runner, or a worker of a runner.
#[derive(Clone, Debug, PartialEq)]
pub struct FunctionSpecs {
    pub runner_type: RunnerType,
    pub runner_id: Option<RunnerId>,
    pub worker_id: Option<WorkerId>,
    pub name: String,
    pub description: String,
    pub schema: Option<Schema>,
}

/// The mathematical view of [`FunctionSpecs`].
pub struct FunctionSpecsView {
    pub runner_type: RunnerType,
    pub runner_id: Option<RunnerId>,
    pub worker_id: Option<WorkerId>,
    pub name: Seq<char>,
    pub description: Seq<char>,
    pub schema: Option<SchemaView>,
}

impl View for FunctionSpecs {
    type V = FunctionSpecsView;

    open spec fn view(&self) -> FunctionSpecsView {
        FunctionSpecsView {
            runner_type: self.runner_type,
            runner_id: self.runner_id,
            worker_id: self.worker_id,
            name: self.name@,
            description: self.description@,
            schema: match self.schema {
                Some(schema) => Some(schema@),
                None => None,
            },
        }
    }
}

/// The views of a catalog.
pub open spec fn catalog_view(functions: Seq<FunctionSpecs>) -> Seq<FunctionSpecsView> {
    Seq::new(functions.len(), |i: int| functions[i]@)
}

/// An error of the engine's client: that something was not found, or any
/// other failure, each with the client's message.
#[derive(Clone, Debug, PartialEq)]
pub enum BackendError {
    NotFound(String),
    Other(String),
}

/// The mathematical view of [`BackendError`].
pub enum BackendErrorView {
    NotFound(Seq<char>),
    Other(Seq<char>),
}

impl View for BackendError {
    type V = BackendErrorView;

    open spec fn view(&self) -> BackendErrorView {
        match self {
            BackendError::NotFound(message) => BackendErrorView::NotFound(message@),
            BackendError::Other(message) => BackendErrorView::Other(message@),
        }
    }
}

impl BackendErrorView {
    /// The client's message.
    pub open spec fn message(self) -> Seq<char> {
        match self {
            BackendErrorView::NotFound(message) => message,
            BackendErrorView::Other(message) => message,
        }
    }
}

} // verus!
