//! The gateway's handling of one tool call and of the tool listing.
//!
//! A call alternates between decisions, which are made here, and work of
//! the job engine, which is done elsewhere. So a call is a small state
//! machine: [`JobworkerpRouter::call_tool`] starts it, each step either
//! names a [`Command`] for the engine together with the [`CallState`] to
//! come back with, or is the reply, and [`JobworkerpRouter::resume`] takes
//! the engine's answer as an [`Event`] and makes the next step.

pub mod repository;

use crate::data::{
    catalog_view, text_view, BackendError, BackendErrorView, FunctionSpecs, Runner, RunnerData,
    RunnerDataView, RunnerId, RunnerType, RunnerView, WorkerData, WorkerDataView,
};
use crate::json::{
    entries_of, json_of, lemma_upsert_first, new_object, object_insert, object_value, text_value,
    Entries, Json, JsonObject,
};
use crate::model::{
    outcome_view, CallToolRequestParam, CallToolRequestParamView, CallToolResult,
    CallToolResultView, ListToolsResult, ListToolsResultView, McpError, McpErrorView,
};
use crate::text::{concatenate, parse_bool, parse_u32, parsed_bool, parsed_u32, text_or};
use crate::tool_conversion::{tools_of_catalog, ToolConverter};
use repository::{
    answer_view, name_lookup, normalized_document, runner_job, worker_job, workflow_draft,
    FunctionQuery, FunctionQueryView, JobworkerpRepository, LookupStage, LookupStageView,
    NameLookup, NameLookupView, RunnerJob, RunnerJobView, WorkerJob, WorkerJobView, WorkflowDraft,
    WorkflowDraftView,
};
use serde_json::Value;
use vstd::prelude::*;

verus! {

/// What the gateway is started with.
#[derive(Clone, Debug, PartialEq)]
pub struct JobworkerpRouterConfig {
    pub jobworkerp_address: String,
    pub request_timeout_sec: Option<u32>,
    pub exclude_worker_as_tool: bool,
    pub exclude_runner_as_tool: bool,
    pub set_name: Option<String>,
}

/// The flag that an optional text writes: false unless the text is `true`.
pub open spec fn flag_of(text: Option<Seq<char>>) -> bool {
    match text {
        Some(t) => parsed_bool(t) == Some(true),
        None => false,
    }
}

impl JobworkerpRouterConfig {
    /// The configuration that the values of the environment give.
    ///
    /// The engine's address is `http://127.0.0.1:9000` unless one is given.
    /// The timeout is set where its text is a number of seconds, see
    /// [`parsed_u32`]. Each flag is set where its text is `true`. The name
    /// of the tool set is taken as it is.
    pub fn from_env_values(
        jobworkerp_addr: Option<String>,
        request_timeout_sec: Option<String>,
        exclude_runner_as_tool: Option<String>,
        exclude_worker_as_tool: Option<String>,
        tool_set_name: Option<String>,
    ) -> (config: Self)
        ensures
            config.jobworkerp_address@ == match jobworkerp_addr {
                Some(address) => address@,
                None => "http://127.0.0.1:9000"@,
            },
            config.request_timeout_sec == match request_timeout_sec {
                Some(text) => parsed_u32(text@),
                None => None,
            },
            config.exclude_runner_as_tool == flag_of(text_view(exclude_runner_as_tool)),
            config.exclude_worker_as_tool == flag_of(text_view(exclude_worker_as_tool)),
            config.set_name == tool_set_name,
    {
        JobworkerpRouterConfig {
            jobworkerp_address: text_or(jobworkerp_addr, "http://127.0.0.1:9000"),
            request_timeout_sec: match request_timeout_sec {
                Some(text) => parse_u32(text.as_str()),
                None => None,
            },
            exclude_worker_as_tool: flag(exclude_worker_as_tool),
            exclude_runner_as_tool: flag(exclude_runner_as_tool),
            set_name: tool_set_name,
        }
    }
}

/// Reads a flag of the environment: see [`flag_of`].
fn flag(text: Option<String>) -> (set: bool)
    ensures
        set == flag_of(text_view(text)),
{
    match text {
        Some(t) => match parse_bool(t.as_str()) {
            Some(value) => value,
            None => false,
        },
        None => false,
    }
}

/// Work that a call needs from the job engine.
#[derive(Debug, PartialEq)]
pub enum Command {
    /// Look up the runner of this name.
    FindRunner { name: String },
    /// Look up the worker of this name.
    FindWorker { name: String },
    /// Tell whether the runner declares a schema for its settings.
    FindSettingsDescriptor { runner_name: String },
    /// Encode the settings against the runner's settings schema.
    EncodeSettings { runner_name: String, settings: JsonObject },
    /// Find the worker of that name, or create it as given.
    FindOrCreateWorker { data: WorkerData },
    /// Run a job on a runner and wait for its result.
    EnqueueWithRunner { runner_job: RunnerJob },
    /// Run a job on a worker and wait for its result.
    EnqueueWithWorker { worker_job: WorkerJob },
}

/// The mathematical view of [`Command`].
pub enum CommandView {
    FindRunner { name: Seq<char> },
    FindWorker { name: Seq<char> },
    FindSettingsDescriptor { runner_name: Seq<char> },
    EncodeSettings { runner_name: Seq<char>, settings: Entries },
    FindOrCreateWorker { data: WorkerDataView },
    EnqueueWithRunner { runner_job: RunnerJobView },
    EnqueueWithWorker { worker_job: WorkerJobView },
}

impl View for Command {
    type V = CommandView;

    open spec fn view(&self) -> CommandView {
        match self {
            Command::FindRunner { name } => CommandView::FindRunner { name: name@ },
            Command::FindWorker { name } => CommandView::FindWorker { name: name@ },
            Command::FindSettingsDescriptor { runner_name } => CommandView::FindSettingsDescriptor {
                runner_name: runner_name@,
            },
            Command::EncodeSettings { runner_name, settings } => CommandView::EncodeSettings {
                runner_name: runner_name@,
                settings: entries_of(*settings),
            },
            Command::FindOrCreateWorker { data } => CommandView::FindOrCreateWorker { data: data@ },
            Command::EnqueueWithRunner { runner_job } => CommandView::EnqueueWithRunner {
                runner_job: runner_job@,
            },
            Command::EnqueueWithWorker { worker_job } => CommandView::EnqueueWithWorker {
                worker_job: worker_job@,
            },
        }
    }
}

/// What a call is waiting for.
#[derive(Debug, PartialEq)]
pub enum CallState {
    /// The answer to a lookup of a runner.
    RunnerLookup { request: CallToolRequestParam, stage: LookupStage },
    /// The answer to a lookup of a worker.
    WorkerLookup { request: CallToolRequestParam, stage: LookupStage },
    /// Whether the runner of a workflow declares a settings schema.
    SettingsDescriptor { runner_name: String, draft: WorkflowDraft },
    /// The encoded settings of a workflow's worker.
    SettingsEncoding { worker: WorkerData },
    /// The worker of a workflow.
    WorkerProvision,
    /// The result of a job.
    JobResult,
}

/// The mathematical view of [`CallState`].
pub enum CallStateView {
    RunnerLookup { request: CallToolRequestParamView, stage: LookupStageView },
    WorkerLookup { request: CallToolRequestParamView, stage: LookupStageView },
    SettingsDescriptor { runner_name: Seq<char>, draft: WorkflowDraftView },
    SettingsEncoding { worker: WorkerDataView },
    WorkerProvision,
    JobResult,
}

impl View for CallState {
    type V = CallStateView;

    open spec fn view(&self) -> CallStateView {
        match self {
            CallState::RunnerLookup { request, stage } => CallStateView::RunnerLookup {
                request: request@,
                stage: stage@,
            },
            CallState::WorkerLookup { request, stage } => CallStateView::WorkerLookup {
                request: request@,
                stage: stage@,
            },
            CallState::SettingsDescriptor { runner_name, draft } => {
                CallStateView::SettingsDescriptor { runner_name: runner_name@, draft: draft@ }
            },
            CallState::SettingsEncoding { worker } => CallStateView::SettingsEncoding {
                worker: worker@,
            },
            CallState::WorkerProvision => CallStateView::WorkerProvision,
            CallState::JobResult => CallStateView::JobResult,
        }
    }
}

/// An answer of the job engine to a command.
#[derive(Debug, PartialEq)]
pub enum Event {
    /// To `FindRunner`: the runner, if there is one.
    Runner(Result<Option<Runner>, BackendError>),
    /// To `FindWorker`: the worker, if there is one.
    Worker(Result<Option<WorkerData>, BackendError>),
    /// To `FindSettingsDescriptor`: whether there is a settings schema.
    SettingsDescriptor(Result<bool, BackendError>),
    /// To `EncodeSettings`: the encoded settings.
    EncodedSettings(Result<Vec<u8>, BackendError>),
    /// To `FindOrCreateWorker`: that the worker is there.
    WorkerProvisioned(Result<(), BackendError>),
    /// To `EnqueueWithRunner` and `EnqueueWithWorker`: the job's result.
    JobResult(Result<Value, BackendError>),
}

/// The mathematical view of [`Event`].
pub enum EventView {
    Runner(Result<Option<RunnerView>, BackendErrorView>),
    Worker(Result<Option<WorkerDataView>, BackendErrorView>),
    SettingsDescriptor(Result<bool, BackendErrorView>),
    EncodedSettings(Result<Seq<u8>, BackendErrorView>),
    WorkerProvisioned(Result<(), BackendErrorView>),
    JobResult(Result<Json, BackendErrorView>),
}

impl View for Event {
    type V = EventView;

    open spec fn view(&self) -> EventView {
        match self {
            Event::Runner(answer) => EventView::Runner(answer_view(*answer)),
            Event::Worker(answer) => EventView::Worker(answer_view(*answer)),
            Event::SettingsDescriptor(answer) => EventView::SettingsDescriptor(
                match answer {
                    Ok(found) => Ok(*found),
                    Err(error) => Err(error@),
                },
            ),
            Event::EncodedSettings(answer) => EventView::EncodedSettings(
                match answer {
                    Ok(bytes) => Ok(bytes@),
                    Err(error) => Err(error@),
                },
            ),
            Event::WorkerProvisioned(answer) => EventView::WorkerProvisioned(
                match answer {
                    Ok(_) => Ok(()),
                    Err(error) => Err(error@),
                },
            ),
            Event::JobResult(answer) => EventView::JobResult(
                match answer {
                    Ok(value) => Ok(json_of(*value)),
                    Err(error) => Err(error@),
                },
            ),
        }
    }
}

/// One step of a call: work for the engine and the state to resume with,
/// or the reply that ends the call.
#[derive(Debug, PartialEq)]
pub enum CallStep {
    Perform { command: Command, state: CallState },
    Reply(Result<CallToolResult, McpError>),
}

/// The mathematical view of [`CallStep`].
pub enum CallStepView {
    Perform { command: CommandView, state: CallStateView },
    Reply(Result<CallToolResultView, McpErrorView>),
}

impl View for CallStep {
    type V = CallStepView;

    open spec fn view(&self) -> CallStepView {
        match self {
            CallStep::Perform { command, state } => CallStepView::Perform {
                command: command@,
                state: state@,
            },
            CallStep::Reply(outcome) => CallStepView::Reply(outcome_view(*outcome)),
        }
    }
}

/// The reply that no tool of the name can be called.
pub open spec fn not_found() -> CallStepView {
    CallStepView::Reply(Err(McpErrorView::MethodNotFound))
}

/// The reply that the gateway or the engine failed, with what was being
/// done and the engine's message.
pub open spec fn failed(doing: Seq<char>, error: BackendErrorView) -> CallStepView {
    CallStepView::Reply(Err(McpErrorView::InternalError(doing + error.message())))
}

/// The arguments of a request, or an object without entries where the
/// request has none.
pub open spec fn request_args(request: CallToolRequestParamView) -> Entries {
    match request.arguments {
        Some(arguments) => arguments,
        None => Seq::empty(),
    }
}

/// The first step of a call: the lookup of a runner by the tool's name.
pub open spec fn first_step(request: CallToolRequestParamView) -> CallStepView {
    CallStepView::Perform {
        command: CommandView::FindRunner { name: request.name },
        state: CallStateView::RunnerLookup { request, stage: LookupStageView::Exact },
    }
}

/// The start of a workflow creation: the worker is drafted from the
/// arguments of the call, and the engine is asked for the runner's settings
/// schema. A call without arguments is refused.
pub open spec fn workflow_creation(
    request: CallToolRequestParamView,
    runner_id: RunnerId,
    runner: RunnerDataView,
) -> CallStepView {
    match request.arguments {
        Some(arguments) => CallStepView::Perform {
            command: CommandView::FindSettingsDescriptor { runner_name: runner.name },
            state: CallStateView::SettingsDescriptor {
                runner_name: runner.name,
                draft: workflow_draft(runner_id, runner, normalized_document(arguments)),
            },
        },
        None => CallStepView::Reply(
            Err(
                McpErrorView::InvalidParams(
                    "Workflow creation requires a workflow json arguments."@,
                ),
            ),
        ),
    }
}

/// The call of a runner: a job with the shaped arguments. A runner that
/// the engine returned without its data cannot be called.
pub open spec fn runner_call(
    timeout_sec: u32,
    request: CallToolRequestParamView,
    runner: RunnerView,
    suffix: Option<Seq<char>>,
) -> CallStepView {
    match runner.data {
        Some(data) => CallStepView::Perform {
            command: CommandView::EnqueueWithRunner {
                runner_job: runner_job(
                    timeout_sec,
                    data.name,
                    runner,
                    request_args(request),
                    suffix,
                ),
            },
            state: CallStateView::JobResult,
        },
        None => CallStepView::Reply(
            Err(McpErrorView::InternalError("Failed to enqueue job: runner data is missing"@)),
        ),
    }
}

/// The start of the lookup of a worker by the tool's name.
pub open spec fn worker_call(request: CallToolRequestParamView) -> CallStepView {
    CallStepView::Perform {
        command: CommandView::FindWorker { name: request.name },
        state: CallStateView::WorkerLookup { request, stage: LookupStageView::Exact },
    }
}

/// Whether a runner that was found creates workflows: it is a
/// reusable-workflow runner with both its identifier and its data.
pub open spec fn creates_workflows(runner: RunnerView) -> bool {
    &&& runner.id is Some
    &&& runner.data matches Some(data)
    &&& data.runner_type == RunnerType::ReusableWorkflow
}

/// What the name of a tool resolved to. A name resolves to a runner or to a
/// worker, never to both.
#[derive(Clone, Debug, PartialEq)]
pub enum ResolvedTarget {
    /// A runner that creates workflows: the call is a workflow creation.
    ReusableWorkflowRunner { runner_id: RunnerId, runner_data: RunnerData },
    /// Any other runner: the call is a job for it.
    StandardRunner { runner: Runner },
    /// A worker: the call is a job for it.
    Worker { worker_data: WorkerData },
}

/// The mathematical view of [`ResolvedTarget`].
pub enum ResolvedTargetView {
    ReusableWorkflowRunner { runner_id: RunnerId, runner_data: RunnerDataView },
    StandardRunner { runner: RunnerView },
    Worker { worker_data: WorkerDataView },
}

impl View for ResolvedTarget {
    type V = ResolvedTargetView;

    open spec fn view(&self) -> ResolvedTargetView {
        match self {
            ResolvedTarget::ReusableWorkflowRunner { runner_id, runner_data } => {
                ResolvedTargetView::ReusableWorkflowRunner {
                    runner_id: *runner_id,
                    runner_data: runner_data@,
                }
            },
            ResolvedTarget::StandardRunner { runner } => ResolvedTargetView::StandardRunner {
                runner: runner@,
            },
            ResolvedTarget::Worker { worker_data } => ResolvedTargetView::Worker {
                worker_data: worker_data@,
            },
        }
    }
}

/// The target that a runner is.
pub open spec fn runner_target(runner: RunnerView) -> ResolvedTargetView {
    if creates_workflows(runner) {
        ResolvedTargetView::ReusableWorkflowRunner {
            runner_id: runner.id->0,
            runner_data: runner.data->0,
        }
    } else {
        ResolvedTargetView::StandardRunner { runner }
    }
}

/// The step that handles a resolved call: the start of a workflow
/// creation, or a job for the runner or the worker.
pub open spec fn dispatch(
    timeout_sec: u32,
    request: CallToolRequestParamView,
    target: ResolvedTargetView,
    suffix: Option<Seq<char>>,
) -> CallStepView {
    match target {
        ResolvedTargetView::ReusableWorkflowRunner { runner_id, runner_data } => {
            workflow_creation(request, runner_id, runner_data)
        },
        ResolvedTargetView::StandardRunner { runner } => runner_call(
            timeout_sec,
            request,
            runner,
            suffix,
        ),
        ResolvedTargetView::Worker { worker_data } => CallStepView::Perform {
            command: CommandView::EnqueueWithWorker {
                worker_job: worker_job(timeout_sec, worker_data, request_args(request), suffix),
            },
            state: CallStateView::JobResult,
        },
    }
}

/// The step after an answer to a runner lookup.
///
/// A failure of the engine is reported as not found. A runner that is found
/// is handled at once, as a workflow creation or as a call. Only where no
/// runner has the name, nor its server half, the workers are searched.
pub open spec fn after_runner_lookup(
    timeout_sec: u32,
    request: CallToolRequestParamView,
    lookup: NameLookupView<RunnerView>,
) -> CallStepView {
    match lookup {
        NameLookupView::Failed { .. } => not_found(),
        NameLookupView::NotFound => worker_call(request),
        NameLookupView::Retry { server_name, tool_name } => CallStepView::Perform {
            command: CommandView::FindRunner { name: server_name },
            state: CallStateView::RunnerLookup {
                request,
                stage: LookupStageView::Server { tool_name },
            },
        },
        NameLookupView::Found { entry, suffix } => dispatch(
            timeout_sec,
            request,
            runner_target(entry),
            suffix,
        ),
    }
}

/// The step after an answer to a worker lookup: a job for the worker that
/// is found, and not found in every case in which none is.
pub open spec fn after_worker_lookup(
    timeout_sec: u32,
    request: CallToolRequestParamView,
    lookup: NameLookupView<WorkerDataView>,
) -> CallStepView {
    match lookup {
        NameLookupView::Failed { .. } => not_found(),
        NameLookupView::NotFound => not_found(),
        NameLookupView::Retry { server_name, tool_name } => CallStepView::Perform {
            command: CommandView::FindWorker { name: server_name },
            state: CallStateView::WorkerLookup {
                request,
                stage: LookupStageView::Server { tool_name },
            },
        },
        NameLookupView::Found { entry, suffix } => dispatch(
            timeout_sec,
            request,
            ResolvedTargetView::Worker { worker_data: entry },
            suffix,
        ),
    }
}

/// The worker with its settings set.
pub open spec fn with_settings(worker: WorkerDataView, runner_settings: Seq<u8>) -> WorkerDataView {
    WorkerDataView {
        name: worker.name,
        description: worker.description,
        runner_id: worker.runner_id,
        runner_settings,
        channel: worker.channel,
        response_type: worker.response_type,
        broadcast_results: worker.broadcast_results,
    }
}

/// The command that provides the worker of a workflow.
pub open spec fn provision(worker: WorkerDataView) -> CallStepView {
    CallStepView::Perform {
        command: CommandView::FindOrCreateWorker { data: worker },
        state: CallStateView::WorkerProvision,
    }
}

/// The content that acknowledges a workflow creation.
pub open spec fn created() -> CallToolResultView {
    CallToolResultView {
        content: seq![Json::Object(seq![("status"@, Json::Text("ok"@))])],
        is_error: None,
    }
}

/// The reply to the result of a job: the result as the one item of the
/// content; not found where the engine says so; its message otherwise.
pub open spec fn job_reply(answer: Result<Json, BackendErrorView>) -> CallStepView {
    match answer {
        Ok(value) => CallStepView::Reply(
            Ok(CallToolResultView { content: seq![value], is_error: None }),
        ),
        Err(BackendErrorView::NotFound(_)) => not_found(),
        Err(error) => failed("Failed to enqueue job: "@, error),
    }
}

/// The step that follows a state and the engine's answer.
///
/// An answer that does not belong to the state ends the call with an
/// internal error.
pub open spec fn transition(
    timeout_sec: u32,
    state: CallStateView,
    event: EventView,
) -> CallStepView {
    match (state, event) {
        (CallStateView::RunnerLookup { request, stage }, EventView::Runner(answer)) => {
            after_runner_lookup(timeout_sec, request, name_lookup(request.name, stage, answer))
        },
        (CallStateView::WorkerLookup { request, stage }, EventView::Worker(answer)) => {
            after_worker_lookup(timeout_sec, request, name_lookup(request.name, stage, answer))
        },
        (
            CallStateView::SettingsDescriptor { runner_name, draft },
            EventView::SettingsDescriptor(answer),
        ) => match answer {
            Ok(true) => CallStepView::Perform {
                command: CommandView::EncodeSettings { runner_name, settings: draft.settings },
                state: CallStateView::SettingsEncoding { worker: draft.worker },
            },
            Ok(false) => provision(draft.worker),
            Err(error) => failed("Failed to create workflow: "@, error),
        },
        (CallStateView::SettingsEncoding { worker }, EventView::EncodedSettings(answer)) => {
            match answer {
                Ok(runner_settings) => provision(with_settings(worker, runner_settings)),
                Err(error) => failed("Failed to create workflow: "@, error),
            }
        },
        (CallStateView::WorkerProvision, EventView::WorkerProvisioned(answer)) => match answer {
            Ok(_) => CallStepView::Reply(Ok(created())),
            Err(error) => failed("Failed to create workflow: "@, error),
        },
        (CallStateView::JobResult, EventView::JobResult(answer)) => job_reply(answer),
        _ => CallStepView::Reply(
            Err(McpErrorView::InternalError("Unexpected answer from the job engine"@)),
        ),
    }
}

/// How many answers of the engine a call in this state can still need.
pub open spec fn remaining_steps(state: CallStateView) -> nat {
    match state {
        CallStateView::RunnerLookup { stage: LookupStageView::Exact, .. } => 6,
        CallStateView::RunnerLookup { stage: LookupStageView::Server { .. }, .. } => 5,
        CallStateView::WorkerLookup { stage: LookupStageView::Exact, .. } => 4,
        CallStateView::WorkerLookup { stage: LookupStageView::Server { .. }, .. } => 3,
        CallStateView::SettingsDescriptor { .. } => 3,
        CallStateView::SettingsEncoding { .. } => 2,
        CallStateView::WorkerProvision => 1,
        CallStateView::JobResult => 1,
    }
}

/// Whether a state is a search among the workers.
pub open spec fn searches_workers(state: CallStateView) -> bool {
    state is WorkerLookup
}

/// Every step that does not end a call brings it nearer to its end: no
/// state comes twice in one call, and a call that starts with
/// [`first_step`] needs at most six answers of the engine.
pub proof fn lemma_call_advances(timeout_sec: u32, state: CallStateView, event: EventView)
    ensures
        transition(timeout_sec, state, event) matches CallStepView::Perform { state: next, .. }
            ==> remaining_steps(next) < remaining_steps(state),
{
}

/// A runner that is found ends the search: the next step is the creation of
/// a workflow, a job for the runner, or a reply, and never a lookup. So no
/// call is answered by a runner and a worker both.
pub proof fn lemma_found_runner_ends_search(
    timeout_sec: u32,
    request: CallToolRequestParamView,
    stage: LookupStageView,
    runner: RunnerView,
)
    ensures
        match transition(
            timeout_sec,
            CallStateView::RunnerLookup { request, stage },
            EventView::Runner(Ok(Some(runner))),
        ) {
            CallStepView::Perform { command, state } => {
                &&& !(command is FindRunner)
                &&& !(command is FindWorker)
                &&& !(command is EnqueueWithWorker)
                &&& !(state is RunnerLookup)
                &&& !(state is WorkerLookup)
            },
            CallStepView::Reply(_) => true,
        },
{
}

/// The workers are searched only after the runners: a step from a runner
/// lookup leads to a worker lookup only where the engine answered that no
/// runner has the name, and then either the name is not composite or its
/// server half was looked up already.
pub proof fn lemma_workers_come_after_runners(
    timeout_sec: u32,
    request: CallToolRequestParamView,
    stage: LookupStageView,
    event: EventView,
)
    requires
        transition(
            timeout_sec,
            CallStateView::RunnerLookup { request, stage },
            event,
        ) matches CallStepView::Perform { state, .. } && searches_workers(state),
    ensures
        event == EventView::Runner(Ok(None)),
        stage is Server || crate::tool_conversion::divided(request.name) is None,
        transition(timeout_sec, CallStateView::RunnerLookup { request, stage }, event)
            == worker_call(request),
{
}

/// Every job that a step hands to the engine carries the timeout that the
/// gateway was configured with.
pub proof fn lemma_jobs_carry_the_timeout(timeout_sec: u32, state: CallStateView, event: EventView)
    ensures
        match transition(timeout_sec, state, event) {
            CallStepView::Perform {
                command: CommandView::EnqueueWithRunner { runner_job },
                ..
            } => runner_job.timeout_sec == timeout_sec,
            CallStepView::Perform {
                command: CommandView::EnqueueWithWorker { worker_job },
                ..
            } => worker_job.timeout_sec == timeout_sec,
            _ => true,
        },
{
}

/// The worker that a workflow creation hands to the engine is the drafted
/// one: bound to the runner that was found, on the channel `"workflow"`,
/// answering directly and broadcasting its results. Its settings are empty
/// where the runner declares no settings schema, and the encoded settings
/// where it does; nothing else of the draft changes on the way.
pub proof fn lemma_provisioned_worker_is_the_draft(
    timeout_sec: u32,
    runner_name: Seq<char>,
    runner_id: RunnerId,
    runner: RunnerDataView,
    definition: Entries,
    runner_settings: Seq<u8>,
)
    ensures
        ({
            let draft = workflow_draft(runner_id, runner, definition);
            let waiting = CallStateView::SettingsDescriptor { runner_name, draft };
            let encoding = CallStateView::SettingsEncoding { worker: draft.worker };
            &&& draft.worker.runner_id == Some(runner_id)
            &&& draft.worker.runner_settings == Seq::<u8>::empty()
            &&& transition(timeout_sec, waiting, EventView::SettingsDescriptor(Ok(false)))
                == provision(draft.worker)
            &&& transition(timeout_sec, waiting, EventView::SettingsDescriptor(Ok(true)))
                == (CallStepView::Perform {
                command: CommandView::EncodeSettings { runner_name, settings: draft.settings },
                state: encoding,
            })
            &&& transition(timeout_sec, encoding, EventView::EncodedSettings(Ok(runner_settings)))
                == provision(with_settings(draft.worker, runner_settings))
            &&& with_settings(draft.worker, runner_settings).runner_id == Some(runner_id)
            &&& with_settings(draft.worker, runner_settings).name == draft.worker.name
        }),
{
}

/// A name that no runner and no worker has, as it stands or by its server
/// half, is answered as not found, and no job is handed to the engine on
/// the way: the last lookup among the workers ends the call.
pub proof fn lemma_unknown_name_is_not_found(
    timeout_sec: u32,
    request: CallToolRequestParamView,
    stage: LookupStageView,
)
    requires
        stage is Server || crate::tool_conversion::divided(request.name) is None,
    ensures
        transition(
            timeout_sec,
            CallStateView::WorkerLookup { request, stage },
            EventView::Worker(Ok(None)),
        ) == not_found(),
{
}

/// How the gateway describes itself to a client.
pub const SERVER_INSTRUCTIONS: &'static str =
    "The system runs as an asynchronous job processing server that executes various functions in parallel. It supports general-purpose processing tasks like shell commands and HTTP/gRPC requests, while allowing users to create workflows through JSON-defined specifications. These workflows can compose multiple functions with defined input/output schemas, with all operations managed concurrently for efficient execution.";

/// The version of the protocol that the gateway speaks.
pub const PROTOCOL_VERSION: &'static str = "2024-11-05";

/// What the gateway tells a client about itself.
#[derive(Clone, Debug, PartialEq)]
pub struct ServerInfo {
    pub protocol_version: String,
    pub enable_tools: bool,
    pub instructions: Option<String>,
}

impl ResolvedTarget {
    /// The target that a runner is: a creator of workflows where it is a
    /// reusable-workflow runner with both its identifier and its data, a
    /// runner to call otherwise.
    pub fn of_runner(runner: Runner) -> (target: ResolvedTarget)
        ensures
            target@ == runner_target(runner@),
    {
        match runner {
            Runner { id: Some(runner_id), data: Some(runner_data) } => {
                if matches!(runner_data.runner_type, RunnerType::ReusableWorkflow) {
                    ResolvedTarget::ReusableWorkflowRunner { runner_id, runner_data }
                } else {
                    ResolvedTarget::StandardRunner {
                        runner: Runner { id: Some(runner_id), data: Some(runner_data) },
                    }
                }
            },
            runner => ResolvedTarget::StandardRunner { runner },
        }
    }
}

/// The gateway: the repository and what the catalog is narrowed by.
#[derive(Clone, Debug, PartialEq)]
pub struct JobworkerpRouter {
    pub repository: JobworkerpRepository,
    pub exclude_worker_as_tool: bool,
    pub exclude_runner_as_tool: bool,
    pub set_name: Option<String>,
}

impl JobworkerpRouter {
    /// The gateway for a configuration.
    pub fn new(config: JobworkerpRouterConfig) -> (router: Self)
        ensures
            router.repository == JobworkerpRepository::new_spec(config.request_timeout_sec),
            router.exclude_worker_as_tool == config.exclude_worker_as_tool,
            router.exclude_runner_as_tool == config.exclude_runner_as_tool,
            router.set_name == config.set_name,
    {
        JobworkerpRouter {
            repository: JobworkerpRepository::new(config.request_timeout_sec),
            exclude_worker_as_tool: config.exclude_worker_as_tool,
            exclude_runner_as_tool: config.exclude_runner_as_tool,
            set_name: config.set_name,
        }
    }

    /// Starts the creation of a workflow: see [`workflow_creation`].
    pub fn handle_reusable_workflow(
        &self,
        request: CallToolRequestParam,
        runner_id: RunnerId,
        runner_data: RunnerData,
    ) -> (step: CallStep)
        ensures
            step@ == workflow_creation(request@, runner_id, runner_data@),
    {
        match self.repository.create_workflow(runner_id, &runner_data, request.arguments) {
            Ok(draft) => CallStep::Perform {
                command: Command::FindSettingsDescriptor { runner_name: runner_data.name.clone() },
                state: CallState::SettingsDescriptor { runner_name: runner_data.name, draft },
            },
            Err(_) => CallStep::Reply(
                Err(
                    McpError::InvalidParams(
                        "Workflow creation requires a workflow json arguments.".to_owned(),
                    ),
                ),
            ),
        }
    }

    /// Calls a runner: see [`runner_call`].
    pub fn handle_runner_call(
        &self,
        request: CallToolRequestParam,
        runner: Runner,
        tool_name_opt: Option<String>,
    ) -> (step: CallStep)
        ensures
            step@ == runner_call(
                self.repository.timeout_sec,
                request@,
                runner@,
                text_view(tool_name_opt),
            ),
    {
        if runner.data.is_none() {
            return CallStep::Reply(
                Err(
                    McpError::InternalError(
                        "Failed to enqueue job: runner data is missing".to_owned(),
                    ),
                ),
            );
        }
        let request_args = match request.arguments {
            Some(arguments) => arguments,
            None => new_object(),
        };
        let job = self.repository.setup_worker_and_enqueue_with_json(
            &runner,
            request_args,
            tool_name_opt,
        );
        CallStep::Perform {
            command: Command::EnqueueWithRunner { runner_job: job },
            state: CallState::JobResult,
        }
    }

    /// Starts the search among the workers: see [`worker_call`].
    pub fn handle_worker_call(&self, request: CallToolRequestParam) -> (step: CallStep)
        ensures
            step@ == worker_call(request@),
    {
        CallStep::Perform {
            command: Command::FindWorker { name: request.name.clone() },
            state: CallState::WorkerLookup { request, stage: LookupStage::Exact },
        }
    }

    /// Handles a resolved call: see [`dispatch`].
    pub fn dispatch(
        &self,
        request: CallToolRequestParam,
        target: ResolvedTarget,
        suffix: Option<String>,
    ) -> (step: CallStep)
        ensures
            step@ == dispatch(self.repository.timeout_sec, request@, target@, text_view(suffix)),
    {
        match target {
            ResolvedTarget::ReusableWorkflowRunner { runner_id, runner_data } => {
                self.handle_reusable_workflow(request, runner_id, runner_data)
            },
            ResolvedTarget::StandardRunner { runner } => self.handle_runner_call(
                request,
                runner,
                suffix,
            ),
            ResolvedTarget::Worker { worker_data } => {
                let request_args = match request.arguments {
                    Some(arguments) => arguments,
                    None => new_object(),
                };
                let job = self.repository.enqueue_with_json(&worker_data, request_args, suffix);
                CallStep::Perform {
                    command: Command::EnqueueWithWorker { worker_job: job },
                    state: CallState::JobResult,
                }
            },
        }
    }

    /// Starts a call: the tool's name is first looked up among the runners.
    pub fn call_tool(&self, request: CallToolRequestParam) -> (step: CallStep)
        ensures
            step@ == first_step(request@),
    {
        CallStep::Perform {
            command: Command::FindRunner { name: request.name.clone() },
            state: CallState::RunnerLookup { request, stage: LookupStage::Exact },
        }
    }

    /// Goes on with a call after the engine's answer: see [`transition`].
    pub fn resume(&self, state: CallState, event: Event) -> (step: CallStep)
        ensures
            step@ == transition(self.repository.timeout_sec, state@, event@),
    {
        match (state, event) {
            (CallState::RunnerLookup { request, stage }, Event::Runner(answer)) => {
                let lookup = self.repository.find_runner_by_name_with_mcp(
                    request.name.as_str(),
                    stage,
                    answer,
                );
                match lookup {
                    NameLookup::Failed { .. } => not_found_reply(),
                    NameLookup::NotFound => self.handle_worker_call(request),
                    NameLookup::Retry { server_name, tool_name } => CallStep::Perform {
                        command: Command::FindRunner { name: server_name },
                        state: CallState::RunnerLookup {
                            request,
                            stage: LookupStage::Server { tool_name },
                        },
                    },
                    NameLookup::Found { entry, suffix } => {
                        self.dispatch(request, ResolvedTarget::of_runner(entry), suffix)
                    },
                }
            },
            (CallState::WorkerLookup { request, stage }, Event::Worker(answer)) => {
                let lookup = self.repository.find_worker_by_name_with_mcp(
                    request.name.as_str(),
                    stage,
                    answer,
                );
                match lookup {
                    NameLookup::Failed { .. } => not_found_reply(),
                    NameLookup::NotFound => not_found_reply(),
                    NameLookup::Retry { server_name, tool_name } => CallStep::Perform {
                        command: Command::FindWorker { name: server_name },
                        state: CallState::WorkerLookup {
                            request,
                            stage: LookupStage::Server { tool_name },
                        },
                    },
                    NameLookup::Found { entry, suffix } => {
                        self.dispatch(request, ResolvedTarget::Worker { worker_data: entry }, suffix)
                    },
                }
            },
            (
                CallState::SettingsDescriptor { runner_name, draft },
                Event::SettingsDescriptor(answer),
            ) => match answer {
                Ok(true) => CallStep::Perform {
                    command: Command::EncodeSettings { runner_name, settings: draft.settings },
                    state: CallState::SettingsEncoding { worker: draft.worker },
                },
                Ok(false) => provision_step(draft.worker),
                Err(error) => failed_reply("Failed to create workflow: ", error),
            },
            (CallState::SettingsEncoding { worker }, Event::EncodedSettings(answer)) => {
                match answer {
                    Ok(runner_settings) => provision_step(
                        WorkerData {
                            name: worker.name,
                            description: worker.description,
                            runner_id: worker.runner_id,
                            runner_settings,
                            channel: worker.channel,
                            response_type: worker.response_type,
                            broadcast_results: worker.broadcast_results,
                        },
                    ),
                    Err(error) => failed_reply("Failed to create workflow: ", error),
                }
            },
            (CallState::WorkerProvision, Event::WorkerProvisioned(answer)) => match answer {
                Ok(_) => {
                    let status = text_value("ok".to_owned());
                    proof {
                        lemma_upsert_first("status"@, json_of(status));
                    }
                    let mut acknowledgment = new_object();
                    object_insert(&mut acknowledgment, "status".to_owned(), status);
                    let mut content: Vec<Value> = Vec::new();
                    content.push(object_value(acknowledgment));
                    let result = CallToolResult { content, is_error: None };
                    assert(result@.content =~= created().content);
                    CallStep::Reply(Ok(result))
                },
                Err(error) => failed_reply("Failed to create workflow: ", error),
            },
            (CallState::JobResult, Event::JobResult(answer)) => match answer {
                Ok(value) => {
                    let mut content: Vec<Value> = Vec::new();
                    content.push(value);
                    let result = CallToolResult { content, is_error: None };
                    assert(result@.content =~= seq![json_of(value)]);
                    CallStep::Reply(Ok(result))
                },
                Err(BackendError::NotFound(_)) => not_found_reply(),
                Err(error) => failed_reply("Failed to enqueue job: ", error),
            },
            _ => CallStep::Reply(
                Err(McpError::InternalError("Unexpected answer from the job engine".to_owned())),
            ),
        }
    }

    /// What a listing asks the engine for: the named set where one is
    /// configured, else the whole catalog narrowed by the two flags.
    pub fn list_tools(&self) -> (query: FunctionQuery)
        ensures
            query@ == match self.set_name {
                Some(name) => FunctionQueryView::BySet { name: name@ },
                None => FunctionQueryView::All {
                    exclude_runner_as_tool: self.exclude_runner_as_tool,
                    exclude_worker_as_tool: self.exclude_worker_as_tool,
                },
            },
    {
        match &self.set_name {
            Some(name) => self.repository.find_function_list_by_set(name.as_str()),
            None => self.repository.find_function_list(
                self.exclude_runner_as_tool,
                self.exclude_worker_as_tool,
            ),
        }
    }

    /// The answer to a listing, from the engine's answer: the tools of the
    /// catalog, or the engine's message as an internal error.
    pub fn listed_tools(&self, functions: Result<Vec<FunctionSpecs>, BackendError>) -> (listed:
        Result<ListToolsResult, McpError>)
        ensures
            match functions {
                Ok(catalog) => listed matches Ok(list) && list@ == (ListToolsResultView {
                    tools: tools_of_catalog(catalog_view(catalog@)),
                    next_cursor: None,
                }),
                Err(error) => listed matches Err(e) && e@ == McpErrorView::InternalError(
                    "Failed to find tools: "@ + error@.message(),
                ),
            },
    {
        match functions {
            Ok(catalog) => ToolConverter::convert_functions_to_mcp_tools(catalog),
            Err(error) => Err(
                McpError::InternalError(concatenate("Failed to find tools: ", message_of(&error))),
            ),
        }
    }

    /// What the gateway tells a client about itself: the protocol version it
    /// speaks, that it offers tools, and how it is meant to be used.
    pub fn get_info(&self) -> (info: ServerInfo)
        ensures
            info.protocol_version@ == PROTOCOL_VERSION@,
            info.enable_tools,
            info.instructions matches Some(text) && text@ == SERVER_INSTRUCTIONS@,
    {
        ServerInfo {
            protocol_version: PROTOCOL_VERSION.to_owned(),
            enable_tools: true,
            instructions: Some(SERVER_INSTRUCTIONS.to_owned()),
        }
    }
}

/// The engine's message of an error.
fn message_of(error: &BackendError) -> (message: &str)
    ensures
        message@ == error@.message(),
{
    match error {
        BackendError::NotFound(message) => message.as_str(),
        BackendError::Other(message) => message.as_str(),
    }
}

fn not_found_reply() -> (step: CallStep)
    ensures
        step@ == not_found(),
{
    CallStep::Reply(Err(McpError::MethodNotFound))
}

fn failed_reply(doing: &str, error: BackendError) -> (step: CallStep)
    ensures
        step@ == failed(doing@, error@),
{
    CallStep::Reply(Err(McpError::InternalError(concatenate(doing, message_of(&error)))))
}

fn provision_step(worker: WorkerData) -> (step: CallStep)
    ensures
        step@ == provision(worker@),
{
    CallStep::Perform {
        command: Command::FindOrCreateWorker { data: worker },
        state: CallState::WorkerProvision,
    }
}

} // verus!
