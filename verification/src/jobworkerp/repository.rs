//! What the gateway decides and builds around its calls to the job engine:
//! unwrapping nested or stringified arguments, drafting the worker of a
//! workflow, shaping the arguments of a job, and following a name lookup.

use crate::data::{
    text_view, BackendError, BackendErrorView, ResponseType, Runner, RunnerData, RunnerDataView,
    RunnerId, RunnerType, RunnerView, WorkerData, WorkerDataView,
};
use crate::json::{
    as_object, as_str, clone_object, clone_value, entries_of, json_of, json_text_of, lookup,
    new_object, null_value, object_get, object_insert, object_is_empty, object_value,
    lemma_upsert_first, lemma_upsert_second, parse_json_or_yaml, text_value, text_value_of,
    to_text, Entries, Json, JsonObject,
};
use crate::model::value_view;
use crate::tool_conversion::{divided, ToolConverter};
use serde_json::Value;
use vstd::prelude::*;

verus! {

/// The entries of a value that is an object with at least one entry.
pub open spec fn nonempty_entries(value: Option<Json>) -> Option<Entries> {
    match value {
        Some(Json::Object(entries)) => if entries.len() > 0 {
            Some(entries)
        } else {
            None
        },
        _ => None,
    }
}

/// The object that a candidate value unwraps to: the candidate itself where
/// it is a non-empty object, what its text holds where it is a non-empty
/// string whose content is a non-empty object, and nothing otherwise.
pub open spec fn embedded_object(candidate: Option<Json>) -> Option<Entries> {
    match candidate {
        Some(Json::Object(entries)) => nonempty_entries(candidate),
        Some(Json::Text(text)) => if text.len() > 0 {
            nonempty_entries(text_value_of(text))
        } else {
            None
        },
        _ => None,
    }
}

/// The container after unwrapping under `key`: the embedded object where
/// there is one, the container itself otherwise.
pub open spec fn unwrapped(container: Entries, key: Seq<char>) -> Entries {
    match embedded_object(lookup(container, key)) {
        Some(inner) => inner,
        None => container,
    }
}

/// Unwrapping is safe on what it cannot use: where the container has no
/// entry under the key, or the entry is an empty object, an empty string, a
/// value that is neither object nor string, or a string whose text is
/// neither JSON nor YAML or does not hold an object with entries, the
/// container comes back unchanged.
pub proof fn lemma_unwrapping_unusable_is_noop(container: Entries, key: Seq<char>)
    requires
        match lookup(container, key) {
            None => true,
            Some(Json::Object(entries)) => entries.len() == 0,
            Some(Json::Text(text)) => text.len() == 0 || nonempty_entries(text_value_of(text))
                is None,
            Some(_) => true,
        },
    ensures
        unwrapped(container, key) == container,
{
}

/// The arguments of a workflow creation after unwrapping under
/// `"arguments"`, then `"settings"`, then `"workflow_data"`.
pub open spec fn normalized_document(arguments: Entries) -> Entries {
    unwrapped(unwrapped(unwrapped(arguments, "arguments"@), "settings"@), "workflow_data"@)
}

/// A definition that wraps nothing under the three keys is taken as it is.
pub proof fn lemma_plain_definition_is_kept(arguments: Entries)
    requires
        embedded_object(lookup(arguments, "arguments"@)) is None,
        embedded_object(lookup(arguments, "settings"@)) is None,
        embedded_object(lookup(arguments, "workflow_data"@)) is None,
    ensures
        normalized_document(arguments) == arguments,
{
}

/// The object inside `value`, where `value` is an object with at least one
/// entry.
pub fn nonempty_object(value: Option<&Value>) -> (object: Option<JsonObject>)
    ensures
        match object {
            Some(o) => value matches Some(v) && nonempty_entries(Some(json_of(*v))) == Some(
                entries_of(o),
            ),
            None => value matches Some(v) ==> nonempty_entries(Some(json_of(*v))) is None,
        },
{
    match value {
        Some(v) => match as_object(v) {
            Some(entries) => if object_is_empty(entries) {
                None
            } else {
                Some(clone_object(entries))
            },
            None => None,
        },
        None => None,
    }
}

/// The object that `candidate` unwraps to, if any: see [`embedded_object`].
pub fn extract_object(candidate: &Value) -> (object: Option<JsonObject>)
    ensures
        match object {
            Some(o) => embedded_object(Some(json_of(*candidate))) == Some(entries_of(o)),
            None => embedded_object(Some(json_of(*candidate))) is None,
        },
{
    match as_object(candidate) {
        Some(_) => nonempty_object(Some(candidate)),
        None => match as_str(candidate) {
            Some(text) => if !text.is_empty() {
                let parsed = parse_json_or_yaml(text);
                nonempty_object(parsed.as_ref())
            } else {
                None
            },
            None => None,
        },
    }
}

/// The worker of a workflow before its settings are encoded, and the
/// settings to encode.
#[derive(Debug, PartialEq)]
pub struct WorkflowDraft {
    pub worker: WorkerData,
    pub settings: JsonObject,
}

/// The mathematical view of [`WorkflowDraft`].
pub struct WorkflowDraftView {
    pub worker: WorkerDataView,
    pub settings: Entries,
}

impl View for WorkflowDraft {
    type V = WorkflowDraftView;

    open spec fn view(&self) -> WorkflowDraftView {
        WorkflowDraftView { worker: self.worker@, settings: entries_of(self.settings) }
    }
}

/// Why a workflow cannot be drafted.
#[derive(Clone, Copy, Debug, PartialEq, Eq, Structural)]
pub enum ProvisionError {
    /// The call carried no arguments to take a workflow definition from.
    MissingWorkflowDefinition,
}

/// The text under `field` of the object under `"document"`, if both are
/// there and the text is a string.
pub open spec fn document_text(definition: Entries, field: Seq<char>) -> Option<Seq<char>> {
    match lookup(definition, "document"@) {
        Some(Json::Object(document)) => match lookup(document, field) {
            Some(Json::Text(text)) => Some(text),
            _ => None,
        },
        _ => None,
    }
}

/// The settings of a workflow's worker: the definition as JSON text under
/// `"json_data"`.
pub open spec fn workflow_settings(definition_text: Seq<char>) -> Entries {
    seq![("json_data"@, Json::Text(definition_text))]
}

/// The draft for a normalized workflow definition and its JSON text: the
/// worker is named after `document.name`, or after the runner where that is
/// missing, is described by `document.summary`, or by nothing, is bound to
/// the runner, listens on the channel `"workflow"`, answers directly and
/// broadcasts its results; the settings hold the text.
pub open spec fn draft_of(
    runner_id: RunnerId,
    runner: RunnerDataView,
    definition: Entries,
    definition_text: Seq<char>,
) -> WorkflowDraftView {
    WorkflowDraftView {
        worker: WorkerDataView {
            name: match document_text(definition, "name"@) {
                Some(name) => name,
                None => runner.name,
            },
            description: match document_text(definition, "summary"@) {
                Some(summary) => summary,
                None => Seq::empty(),
            },
            runner_id: Some(runner_id),
            runner_settings: Seq::empty(),
            channel: Some("workflow"@),
            response_type: ResponseType::Direct,
            broadcast_results: true,
        },
        settings: workflow_settings(definition_text),
    }
}

/// The draft for a normalized workflow definition: see [`draft_of`]; the
/// settings hold the whole definition as compact JSON text.
pub open spec fn workflow_draft(
    runner_id: RunnerId,
    runner: RunnerDataView,
    definition: Entries,
) -> WorkflowDraftView {
    draft_of(runner_id, runner, definition, json_text_of(Json::Object(definition)))
}

/// Drafts the worker of a workflow from its normalized definition and the
/// definition's JSON text: see [`draft_of`].
pub fn draft_workflow(
    runner_id: RunnerId,
    runner_data: &RunnerData,
    definition: &JsonObject,
    definition_text: String,
) -> (draft: WorkflowDraft)
    ensures
        draft@ == draft_of(runner_id, runner_data@, entries_of(*definition), definition_text@),
{
    let name = match document_field(definition, "name") {
        Some(name) => name,
        None => runner_data.name.clone(),
    };
    let description = match document_field(definition, "summary") {
        Some(summary) => summary,
        None => String::new(),
    };
    let json_data = text_value(definition_text);
    proof {
        lemma_upsert_first("json_data"@, json_of(json_data));
    }
    let mut settings = new_object();
    object_insert(&mut settings, "json_data".to_owned(), json_data);
    WorkflowDraft {
        worker: WorkerData {
            name,
            description,
            runner_id: Some(runner_id),
            runner_settings: Vec::new(),
            channel: Some("workflow".to_owned()),
            response_type: ResponseType::Direct,
            broadcast_results: true,
        },
        settings,
    }
}

/// The value under `key`, or null where the object has no such key.
pub open spec fn value_or_null(arguments: Entries, key: Seq<char>) -> Json {
    match lookup(arguments, key) {
        Some(value) => value,
        None => Json::Null,
    }
}

/// A tool name as a JSON value: the name as a string, or null without one.
pub open spec fn tool_name_value(tool_name: Option<Seq<char>>) -> Json {
    match tool_name {
        Some(name) => Json::Text(name),
        None => Json::Null,
    }
}

/// Whether the runner stands for an external tool server.
pub open spec fn is_mcp_server(runner: RunnerView) -> bool {
    runner.data matches Some(data) && data.runner_type == RunnerType::McpServer
}

/// The arguments of a job for an external tool server: the tool's name
/// under `"tool_name"`, then the call's own arguments under `"arg_json"`.
pub open spec fn federated_call(tool_name: Json, arg_json: Json) -> Json {
    Json::Object(seq![("tool_name"@, tool_name), ("arg_json"@, arg_json)])
}

/// The arguments of a job for a workflow instance: the call's arguments as
/// JSON text under `"input"`.
pub open spec fn workflow_input(input: Seq<char>) -> Json {
    Json::Object(seq![("input"@, Json::Text(input))])
}

/// The settings and the arguments of a job for a runner.
///
/// The settings are what the call carries under `"settings"`. For an
/// external tool server the arguments name the tool and carry the whole
/// object of the call as JSON text; for any other runner they are what the
/// call carries under `"arguments"`, or null.
pub open spec fn runner_call_arguments(
    request_args: Entries,
    runner: RunnerView,
    tool_name: Option<Seq<char>>,
) -> (Option<Json>, Json) {
    (
        lookup(request_args, "settings"@),
        if is_mcp_server(runner) {
            federated_call(
                tool_name_value(tool_name),
                Json::Text(json_text_of(Json::Object(request_args))),
            )
        } else {
            value_or_null(request_args, "arguments"@)
        },
    )
}

/// Whether the worker is an instance of a reusable workflow, which its
/// negative runner identifier says.
pub open spec fn is_workflow_instance(worker: WorkerDataView) -> bool {
    worker.runner_id matches Some(id) && id.value < 0
}

/// The arguments of a job for a worker.
///
/// They start from what the call carries under `"arguments"`, or null. A
/// workflow instance takes them as JSON text under `"input"`; any other
/// worker that was reached through a composite name takes the tool name
/// and, under `"arg_json"`, the arguments themselves; the rest take the
/// arguments as they are.
pub open spec fn worker_call_arguments(
    request_args: Entries,
    worker: WorkerDataView,
    tool_name: Option<Seq<char>>,
) -> Json {
    let arguments = value_or_null(request_args, "arguments"@);
    if is_workflow_instance(worker) {
        workflow_input(json_text_of(arguments))
    } else {
        match tool_name {
            Some(name) => federated_call(Json::Text(name), arguments),
            None => arguments,
        }
    }
}

/// A job for a runner, ready to be handed to the engine.
#[derive(Debug, PartialEq)]
pub struct RunnerJob {
    pub runner_name: String,
    pub settings: Option<Value>,
    pub arguments: Value,
    pub timeout_sec: u32,
}

/// The mathematical view of [`RunnerJob`].
pub struct RunnerJobView {
    pub runner_name: Seq<char>,
    pub settings: Option<Json>,
    pub arguments: Json,
    pub timeout_sec: u32,
}

impl View for RunnerJob {
    type V = RunnerJobView;

    open spec fn view(&self) -> RunnerJobView {
        RunnerJobView {
            runner_name: self.runner_name@,
            settings: value_view(self.settings),
            arguments: json_of(self.arguments),
            timeout_sec: self.timeout_sec,
        }
    }
}

/// A job for a worker, ready to be handed to the engine.
#[derive(Debug, PartialEq)]
pub struct WorkerJob {
    pub worker_name: String,
    pub arguments: Value,
    pub timeout_sec: u32,
}

/// The mathematical view of [`WorkerJob`].
pub struct WorkerJobView {
    pub worker_name: Seq<char>,
    pub arguments: Json,
    pub timeout_sec: u32,
}

impl View for WorkerJob {
    type V = WorkerJobView;

    open spec fn view(&self) -> WorkerJobView {
        WorkerJobView {
            worker_name: self.worker_name@,
            arguments: json_of(self.arguments),
            timeout_sec: self.timeout_sec,
        }
    }
}

/// The job that calls a runner for a request.
pub open spec fn runner_job(
    timeout_sec: u32,
    runner_name: Seq<char>,
    runner: RunnerView,
    request_args: Entries,
    tool_name: Option<Seq<char>>,
) -> RunnerJobView {
    RunnerJobView {
        runner_name,
        settings: runner_call_arguments(request_args, runner, tool_name).0,
        arguments: runner_call_arguments(request_args, runner, tool_name).1,
        timeout_sec,
    }
}

/// The job that calls a worker for a request.
pub open spec fn worker_job(
    timeout_sec: u32,
    worker: WorkerDataView,
    request_args: Entries,
    tool_name: Option<Seq<char>>,
) -> WorkerJobView {
    WorkerJobView {
        worker_name: worker.name,
        arguments: worker_call_arguments(request_args, worker, tool_name),
        timeout_sec,
    }
}

/// Which lookup an answer of the engine belongs to: that of the name as it
/// was asked for, or that of the server half of a composite name.
#[derive(Clone, Debug, PartialEq)]
pub enum LookupStage {
    Exact,
    Server { tool_name: String },
}

/// The mathematical view of [`LookupStage`].
pub enum LookupStageView {
    Exact,
    Server { tool_name: Seq<char> },
}

impl View for LookupStage {
    type V = LookupStageView;

    open spec fn view(&self) -> LookupStageView {
        match self {
            LookupStage::Exact => LookupStageView::Exact,
            LookupStage::Server { tool_name } => LookupStageView::Server { tool_name: tool_name@ },
        }
    }
}

/// Where a lookup by name stands after an answer of the engine.
#[derive(Clone, Debug, PartialEq)]
pub enum NameLookup<T> {
    /// The entry is found; `suffix` is the tool name where the server half
    /// of a composite name led to it.
    Found { entry: T, suffix: Option<String> },
    /// Nothing has the name, nor its server half.
    NotFound,
    /// Nothing has the name as it stands; its server half is to be looked
    /// up next.
    Retry { server_name: String, tool_name: String },
    /// The engine failed.
    Failed { error: BackendError },
}

/// The mathematical view of [`NameLookup`].
pub enum NameLookupView<V> {
    Found { entry: V, suffix: Option<Seq<char>> },
    NotFound,
    Retry { server_name: Seq<char>, tool_name: Seq<char> },
    Failed { error: BackendErrorView },
}

impl<T: View> View for NameLookup<T> {
    type V = NameLookupView<T::V>;

    open spec fn view(&self) -> NameLookupView<T::V> {
        match self {
            NameLookup::Found { entry, suffix } => NameLookupView::Found {
                entry: entry@,
                suffix: text_view(*suffix),
            },
            NameLookup::NotFound => NameLookupView::NotFound,
            NameLookup::Retry { server_name, tool_name } => NameLookupView::Retry {
                server_name: server_name@,
                tool_name: tool_name@,
            },
            NameLookup::Failed { error } => NameLookupView::Failed { error: error@ },
        }
    }
}

/// The view of an answer of the engine to a lookup.
pub open spec fn answer_view<T: View>(answer: Result<Option<T>, BackendError>) -> Result<
    Option<T::V>,
    BackendErrorView,
> {
    match answer {
        Ok(Some(entry)) => Ok(Some(entry@)),
        Ok(None) => Ok(None),
        Err(error) => Err(error@),
    }
}

/// Where a lookup of `name` stands after an answer.
///
/// A failure of the engine ends it. An entry that is found ends it too, with
/// the tool name of the stage. Where nothing is found under the name as it
/// was asked for and the name is composite, its server half is looked up
/// next; in every other case nothing is found.
pub open spec fn name_lookup<V>(
    name: Seq<char>,
    stage: LookupStageView,
    answer: Result<Option<V>, BackendErrorView>,
) -> NameLookupView<V> {
    match answer {
        Err(error) => NameLookupView::Failed { error },
        Ok(Some(entry)) => NameLookupView::Found {
            entry,
            suffix: match stage {
                LookupStageView::Exact => None,
                LookupStageView::Server { tool_name } => Some(tool_name),
            },
        },
        Ok(None) => match (stage, divided(name)) {
            (LookupStageView::Exact, Some((server_name, tool_name))) => NameLookupView::Retry {
                server_name,
                tool_name,
            },
            _ => NameLookupView::NotFound,
        },
    }
}

/// Follows a lookup by name: see [`name_lookup`].
pub fn follow_lookup<T: View>(
    name: &str,
    stage: LookupStage,
    answer: Result<Option<T>, BackendError>,
) -> (next: NameLookup<T>)
    ensures
        next@ == name_lookup(name@, stage@, answer_view(answer)),
{
    match answer {
        Err(error) => NameLookup::Failed { error },
        Ok(Some(entry)) => NameLookup::Found {
            entry,
            suffix: match stage {
                LookupStage::Exact => None,
                LookupStage::Server { tool_name } => Some(tool_name),
            },
        },
        Ok(None) => match stage {
            LookupStage::Exact => match ToolConverter::divide_names(name) {
                Some((server_name, tool_name)) => NameLookup::Retry { server_name, tool_name },
                None => NameLookup::NotFound,
            },
            LookupStage::Server { .. } => NameLookup::NotFound,
        },
    }
}

/// The arguments of a job for an external tool server: see
/// [`federated_call`].
pub fn federated_call_arguments(tool_name: Value, arg_json: Value) -> (arguments: Value)
    ensures
        json_of(arguments) == federated_call(json_of(tool_name), json_of(arg_json)),
{
    proof {
        reveal_strlit("tool_name");
        reveal_strlit("arg_json");
        assert("tool_name"@.len() == 9 && "arg_json"@.len() == 8);
        lemma_upsert_second("tool_name"@, json_of(tool_name), "arg_json"@, json_of(arg_json));
    }
    let mut shaped = new_object();
    object_insert(&mut shaped, "tool_name".to_owned(), tool_name);
    object_insert(&mut shaped, "arg_json".to_owned(), arg_json);
    object_value(shaped)
}

/// The arguments of a job for a workflow instance: see [`workflow_input`].
pub fn workflow_input_arguments(input: String) -> (arguments: Value)
    ensures
        json_of(arguments) == workflow_input(input@),
{
    let input = text_value(input);
    proof {
        lemma_upsert_first("input"@, json_of(input));
    }
    let mut shaped = new_object();
    object_insert(&mut shaped, "input".to_owned(), input);
    object_value(shaped)
}

/// A tool name as a JSON value: see [`tool_name_value`].
pub fn tool_name_argument(tool_name: Option<String>) -> (value: Value)
    ensures
        json_of(value) == tool_name_value(text_view(tool_name)),
{
    match tool_name {
        Some(name) => text_value(name),
        None => null_value(),
    }
}

/// The value under `key`, copied, or null where the object has no such key.
fn copy_or_null(arguments: &JsonObject, key: &str) -> (value: Value)
    ensures
        json_of(value) == value_or_null(entries_of(*arguments), key@),
{
    match object_get(arguments, key) {
        Some(value) => clone_value(value),
        None => null_value(),
    }
}

/// Which part of the catalog a listing asks the engine for.
#[derive(Clone, Debug, PartialEq)]
pub enum FunctionQuery {
    /// The functions of the named set.
    BySet { name: String },
    /// All functions, without those that come from runners or from workers
    /// where the flag says so.
    All { exclude_runner_as_tool: bool, exclude_worker_as_tool: bool },
}

/// The mathematical view of [`FunctionQuery`].
pub enum FunctionQueryView {
    BySet { name: Seq<char> },
    All { exclude_runner_as_tool: bool, exclude_worker_as_tool: bool },
}

impl View for FunctionQuery {
    type V = FunctionQueryView;

    open spec fn view(&self) -> FunctionQueryView {
        match self {
            FunctionQuery::BySet { name } => FunctionQueryView::BySet { name: name@ },
            FunctionQuery::All {
                exclude_runner_as_tool,
                exclude_worker_as_tool,
            } => FunctionQueryView::All {
                exclude_runner_as_tool: *exclude_runner_as_tool,
                exclude_worker_as_tool: *exclude_worker_as_tool,
            },
        }
    }
}

/// The gateway's side of the job engine: the timeout that every job gets.
#[derive(Clone, Copy, Debug, PartialEq, Eq, Structural)]
pub struct JobworkerpRepository {
    pub timeout_sec: u32,
}

impl JobworkerpRepository {
    /// The repository for an optional timeout: jobs time out after that many
    /// seconds, or after an hour where none is given.
    pub open spec fn new_spec(request_timeout_sec: Option<u32>) -> JobworkerpRepository {
        JobworkerpRepository {
            timeout_sec: match request_timeout_sec {
                Some(seconds) => seconds,
                None => 3600u32,
            },
        }
    }

    /// A repository whose jobs time out after `request_timeout_sec` seconds,
    /// or after an hour where none is given.
    pub fn new(request_timeout_sec: Option<u32>) -> (repository: Self)
        ensures
            repository == Self::new_spec(request_timeout_sec),
    {
        JobworkerpRepository {
            timeout_sec: match request_timeout_sec {
                Some(seconds) => seconds,
                None => 3600,
            },
        }
    }

    /// Unwraps the object that callers nest, or write as JSON or YAML text,
    /// under `key`: where there is one, it replaces the container; in every
    /// other case the container comes back as it was.
    pub fn parse_as_json_and_string_with_key_or_noop(
        &self,
        key: &str,
        value: JsonObject,
    ) -> (unwrapped_value: JsonObject)
        ensures
            entries_of(unwrapped_value) == unwrapped(entries_of(value), key@),
    {
        let embedded = match object_get(&value, key) {
            Some(candidate) => extract_object(candidate),
            None => None,
        };
        match embedded {
            Some(inner) => inner,
            None => value,
        }
    }

    /// Unwraps a workflow definition from the arguments of a creation call,
    /// under `"arguments"`, then `"settings"`, then `"workflow_data"`, each
    /// step working on the result of the one before.
    pub fn parse_arguments_for_reusable_workflow(&self, arguments: JsonObject) -> (document:
        JsonObject)
        ensures
            entries_of(document) == normalized_document(entries_of(arguments)),
    {
        let arguments = self.parse_as_json_and_string_with_key_or_noop("arguments", arguments);
        let arguments = self.parse_as_json_and_string_with_key_or_noop("settings", arguments);
        self.parse_as_json_and_string_with_key_or_noop("workflow_data", arguments)
    }

    /// Drafts the worker for a workflow definition that came as the
    /// arguments of a call: see [`workflow_draft`]. Without arguments there
    /// is nothing to draft from.
    pub fn create_workflow(
        &self,
        runner_id: RunnerId,
        runner_data: &RunnerData,
        definition: Option<JsonObject>,
    ) -> (draft: Result<WorkflowDraft, ProvisionError>)
        ensures
            match draft {
                Ok(d) => definition matches Some(arguments) && d@ == workflow_draft(
                    runner_id,
                    runner_data@,
                    normalized_document(entries_of(arguments)),
                ),
                Err(e) => definition is None && e == ProvisionError::MissingWorkflowDefinition,
            },
    {
        match definition {
            None => Err(ProvisionError::MissingWorkflowDefinition),
            Some(arguments) => {
                let document = self.parse_arguments_for_reusable_workflow(arguments);
                let definition_text = to_text(&object_value(clone_object(&document)));
                Ok(draft_workflow(runner_id, runner_data, &document, definition_text))
            },
        }
    }

    /// The query for the whole catalog, narrowed by the two flags.
    pub fn find_function_list(
        &self,
        exclude_runner_as_tool: bool,
        exclude_worker_as_tool: bool,
    ) -> (query: FunctionQuery)
        ensures
            query@ == (FunctionQueryView::All { exclude_runner_as_tool, exclude_worker_as_tool }),
    {
        FunctionQuery::All { exclude_runner_as_tool, exclude_worker_as_tool }
    }

    /// The query for the functions of a named set.
    pub fn find_function_list_by_set(&self, name: &str) -> (query: FunctionQuery)
        ensures
            query@ == (FunctionQueryView::BySet { name: name@ }),
    {
        FunctionQuery::BySet { name: name.to_owned() }
    }

    /// Follows the lookup of a runner by name: first the name as it stands,
    /// then, for a composite name, its server half.
    pub fn find_runner_by_name_with_mcp(
        &self,
        name: &str,
        stage: LookupStage,
        answer: Result<Option<Runner>, BackendError>,
    ) -> (next: NameLookup<Runner>)
        ensures
            next@ == name_lookup(name@, stage@, answer_view(answer)),
    {
        follow_lookup(name, stage, answer)
    }

    /// Follows the lookup of a worker by name: first the name as it stands,
    /// then, for a composite name, its server half.
    pub fn find_worker_by_name_with_mcp(
        &self,
        name: &str,
        stage: LookupStage,
        answer: Result<Option<WorkerData>, BackendError>,
    ) -> (next: NameLookup<WorkerData>)
        ensures
            next@ == name_lookup(name@, stage@, answer_view(answer)),
    {
        follow_lookup(name, stage, answer)
    }

    /// The settings and the arguments of a job for a runner: see
    /// [`runner_call_arguments`].
    pub fn prepare_runner_call_arguments(
        request_args: JsonObject,
        runner: &Runner,
        tool_name_opt: Option<String>,
    ) -> (prepared: (Option<Value>, Value))
        ensures
            (value_view(prepared.0), json_of(prepared.1)) == runner_call_arguments(
                entries_of(request_args),
                runner@,
                text_view(tool_name_opt),
            ),
    {
        let settings = match object_get(&request_args, "settings") {
            Some(value) => Some(clone_value(value)),
            None => None,
        };
        let is_mcp_server = match &runner.data {
            Some(data) => matches!(data.runner_type, RunnerType::McpServer),
            None => false,
        };
        let arguments = if is_mcp_server {
            let arg_json = text_value(to_text(&object_value(request_args)));
            federated_call_arguments(tool_name_argument(tool_name_opt), arg_json)
        } else {
            copy_or_null(&request_args, "arguments")
        };
        (settings, arguments)
    }

    /// The job that calls a runner for a request. The runner's data must be
    /// there: it names the runner.
    pub fn setup_worker_and_enqueue_with_json(
        &self,
        runner: &Runner,
        request_args: JsonObject,
        tool_name_opt: Option<String>,
    ) -> (job: RunnerJob)
        requires
            runner.data is Some,
        ensures
            job@ == runner_job(
                self.timeout_sec,
                runner@.data->0.name,
                runner@,
                entries_of(request_args),
                text_view(tool_name_opt),
            ),
    {
        let runner_name = match &runner.data {
            Some(data) => data.name.clone(),
            None => String::new(),
        };
        let (settings, arguments) = Self::prepare_runner_call_arguments(
            request_args,
            runner,
            tool_name_opt,
        );
        RunnerJob { runner_name, settings, arguments, timeout_sec: self.timeout_sec }
    }

    /// The arguments of a job for a worker: see [`worker_call_arguments`].
    pub fn prepare_worker_call_arguments(
        request_args: JsonObject,
        worker_data: &WorkerData,
        tool_name_opt: Option<String>,
    ) -> (arguments: Value)
        ensures
            json_of(arguments) == worker_call_arguments(
                entries_of(request_args),
                worker_data@,
                text_view(tool_name_opt),
            ),
    {
        let args = copy_or_null(&request_args, "arguments");
        let is_workflow_instance = match worker_data.runner_id {
            Some(id) => id.value < 0,
            None => false,
        };
        if is_workflow_instance {
            workflow_input_arguments(to_text(&args))
        } else {
            match tool_name_opt {
                Some(tool_name) => federated_call_arguments(text_value(tool_name), args),
                None => args,
            }
        }
    }

    /// The job that calls a worker for a request.
    pub fn enqueue_with_json(
        &self,
        worker_data: &WorkerData,
        request_args: JsonObject,
        tool_name_opt: Option<String>,
    ) -> (job: WorkerJob)
        ensures
            job@ == worker_job(
                self.timeout_sec,
                worker_data@,
                entries_of(request_args),
                text_view(tool_name_opt),
            ),
    {
        let arguments = Self::prepare_worker_call_arguments(
            request_args,
            worker_data,
            tool_name_opt,
        );
        WorkerJob {
            worker_name: worker_data.name.clone(),
            arguments,
            timeout_sec: self.timeout_sec,
        }
    }
}

/// Reads the text under `field` of the object under `"document"`.
fn document_field(definition: &JsonObject, field: &str) -> (text: Option<String>)
    ensures
        text_view(text) == document_text(entries_of(*definition), field@),
{
    match object_get(definition, "document") {
        Some(document) => match as_object(document) {
            Some(entries) => match object_get(entries, field) {
                Some(value) => match as_str(value) {
                    Some(text) => Some(text.to_owned()),
                    None => None,
                },
                None => None,
            },
            None => None,
        },
        None => None,
    }
}

} // verus!
