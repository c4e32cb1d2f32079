//! Names of federated tools, and the projection of the engine's catalog to
//! the protocol's tool list.

use crate::common::jsonrpc::{combined_schema, described, SchemaCombiner};
use crate::data::{
    catalog_view, FunctionSchemaView, FunctionSpecs, FunctionSpecsView, McpTool, McpToolView,
    RunnerType, Schema, SchemaView,
};
use crate::json::{
    as_object, clone_object, entries_of, json_text_value, new_object, parse_json,
    parse_json_or_yaml, text_value_of, upsert, Entries, Json, JsonObject,
};
use crate::model::{tools_view, ListToolsResult, McpError, Tool, ToolView};
use crate::text::chars_of;
use serde_json::Value;
use vstd::prelude::*;
use vstd::string::*;

verus! {

/// What the tool that creates workflows says of itself.
pub const CREATION_TOOL_DESCRIPTION: &'static str =
    "Create Tools from workflow definitions provided as JSON. The workflow definition must:

- Conform to the specified JSON schema
- Include an input schema section that defines the parameters created workflow Tool will accept
- When this workflow is executed as a Tool, it will receive parameters matching this input schema
- Specify execution steps that utilize any available runner(function) in the system (except this creation Tool)";

/// The three characters that part a server's name from a tool's name.
pub open spec fn delimiter() -> Seq<char> {
    seq!['_', '_', '_']
}

/// The name of a server's tool: the two names with the delimiter between.
pub open spec fn combined(server_name: Seq<char>, tool_name: Seq<char>) -> Seq<char> {
    server_name + delimiter() + tool_name
}

/// Whether the delimiter stands in `name` at position `i`.
pub open spec fn delimiter_at(name: Seq<char>, i: int) -> bool {
    &&& 0 <= i
    &&& i + 3 <= name.len()
    &&& name[i] == '_'
    &&& name[i + 1] == '_'
    &&& name[i + 2] == '_'
}

/// Whether the delimiter stands anywhere in `name`.
pub open spec fn has_delimiter(name: Seq<char>) -> bool {
    exists|i: int| delimiter_at(name, i)
}

/// Whether `i` is the leftmost position of the delimiter in `name`.
pub open spec fn is_first_delimiter(name: Seq<char>, i: int) -> bool {
    &&& delimiter_at(name, i)
    &&& forall|j: int| 0 <= j < i ==> !delimiter_at(name, j)
}

/// The leftmost position of the delimiter in a name that has it.
pub open spec fn first_delimiter(name: Seq<char>) -> int {
    choose|i: int| is_first_delimiter(name, i)
}

/// The two halves of a composite name: what stands before the leftmost
/// delimiter, and everything after it. A name without the delimiter has no
/// halves.
pub open spec fn divided(name: Seq<char>) -> Option<(Seq<char>, Seq<char>)> {
    if has_delimiter(name) {
        Some((name.take(first_delimiter(name)), name.skip(first_delimiter(name) + 3)))
    } else {
        None
    }
}

/// The segments that the delimiter cuts `name` into, matching from the left
/// without overlap.
pub open spec fn segments(name: Seq<char>) -> Seq<Seq<char>>
    decreases name.len(),
{
    if has_delimiter(name) {
        proof {
            lemma_first_delimiter(name);
        }
        seq![name.take(first_delimiter(name))] + segments(name.skip(first_delimiter(name) + 3))
    } else {
        seq![name]
    }
}

/// The segments put together again, with the delimiter between neighbours.
pub open spec fn joined(parts: Seq<Seq<char>>) -> Seq<char>
    decreases parts.len(),
{
    if parts.len() == 0 {
        Seq::empty()
    } else if parts.len() == 1 {
        parts[0]
    } else {
        parts[0] + delimiter() + joined(parts.skip(1))
    }
}

/// A name that has the delimiter has a leftmost one.
pub proof fn lemma_first_delimiter(name: Seq<char>)
    requires
        has_delimiter(name),
    ensures
        is_first_delimiter(name, first_delimiter(name)),
{
    let found = choose|i: int| delimiter_at(name, i);
    lemma_first_delimiter_up_to(name, found);
}

proof fn lemma_first_delimiter_up_to(name: Seq<char>, found: int)
    requires
        delimiter_at(name, found),
    ensures
        exists|i: int| is_first_delimiter(name, i),
    decreases found,
{
    if forall|j: int| 0 <= j < found ==> !delimiter_at(name, j) {
        assert(is_first_delimiter(name, found));
    } else {
        let earlier = choose|j: int| 0 <= j < found && delimiter_at(name, j);
        lemma_first_delimiter_up_to(name, earlier);
    }
}

/// The leftmost position of the delimiter is the only one that has none
/// before it.
pub proof fn lemma_first_delimiter_is(name: Seq<char>, i: int)
    requires
        is_first_delimiter(name, i),
    ensures
        has_delimiter(name),
        first_delimiter(name) == i,
{
    lemma_first_delimiter(name);
    let chosen = first_delimiter(name);
    if chosen < i {
        assert(!delimiter_at(name, chosen));
    } else if i < chosen {
        assert(!delimiter_at(name, i));
    }
}

/// Dividing a name gives nothing exactly where the name is without the
/// delimiter; in particular every name without it is no composite name.
pub proof fn lemma_divide_without_delimiter(name: Seq<char>)
    ensures
        divided(name) is None <==> !has_delimiter(name),
{
}

/// Whatever follows, a server name that neither holds the delimiter nor
/// ends in an underscore is found again in front of the first delimiter,
/// and the rest of the name, delimiters included, is the tool name.
pub proof fn lemma_divide_takes_first_segment(server_name: Seq<char>, rest: Seq<char>)
    requires
        !has_delimiter(server_name),
        server_name.len() == 0 || server_name.last() != '_',
    ensures
        divided(combined(server_name, rest)) == Some((server_name, rest)),
{
    let name = combined(server_name, rest);
    let at = server_name.len() as int;
    assert(delimiter_at(name, at));
    assert forall|j: int| 0 <= j < at implies !delimiter_at(name, j) by {
        if delimiter_at(name, j) {
            if j + 3 <= at {
                assert(delimiter_at(server_name, j));
            } else {
                assert(name[at - 1] == server_name.last());
            }
        }
    }
    lemma_first_delimiter_is(name, at);
    assert(name.take(at) =~= server_name);
    assert(name.skip(at + 3) =~= rest);
}

/// Dividing undoes combining: for a server name and a tool name that do
/// not hold the delimiter, where the server name does not end in an
/// underscore, the combined name divides into the two again.
pub proof fn lemma_divide_combined(server_name: Seq<char>, tool_name: Seq<char>)
    requires
        !has_delimiter(server_name),
        !has_delimiter(tool_name),
        server_name.len() == 0 || server_name.last() != '_',
    ensures
        divided(combined(server_name, tool_name)) == Some((server_name, tool_name)),
{
    lemma_divide_takes_first_segment(server_name, tool_name);
}

/// Joining the segments of a name gives the name back.
pub proof fn lemma_join_segments(name: Seq<char>)
    ensures
        segments(name).len() >= 1,
        joined(segments(name)) == name,
    decreases name.len(),
{
    if has_delimiter(name) {
        lemma_first_delimiter(name);
        let at = first_delimiter(name);
        let rest = name.skip(at + 3);
        lemma_join_segments(rest);
        let parts = segments(name);
        assert(parts == seq![name.take(at)] + segments(rest));
        assert(parts.skip(1) =~= segments(rest));
        assert(parts[0] == name.take(at));
        assert(name =~= name.take(at) + delimiter() + rest);
    }
}

/// A name of two or more segments divides into its first segment, as the
/// server name, and all the others joined again, as the tool name: of
/// `a___b___c` the halves are `a` and `b___c`.
pub proof fn lemma_divide_keeps_later_segments(name: Seq<char>)
    requires
        segments(name).len() >= 2,
    ensures
        divided(name) == Some((segments(name)[0], joined(segments(name).skip(1)))),
{
    if has_delimiter(name) {
        lemma_first_delimiter(name);
        let at = first_delimiter(name);
        let rest = name.skip(at + 3);
        lemma_join_segments(rest);
        assert(segments(name) == seq![name.take(at)] + segments(rest));
        assert(segments(name).skip(1) =~= segments(rest));
    }
}

/// The entries of a parsed schema: those of an object, none for any other
/// value and for a text that could not be read.
pub open spec fn schema_object(parsed: Option<Json>) -> Entries {
    match parsed {
        Some(Json::Object(entries)) => entries,
        _ => Seq::empty(),
    }
}

/// The pair of schema texts of an entry that declares one.
pub open spec fn single_schema(function: FunctionSpecsView) -> Option<FunctionSchemaView> {
    match function.schema {
        Some(SchemaView::SingleSchema(schema)) => Some(schema),
        _ => None,
    }
}

/// The tool that creates workflows for a reusable-workflow runner: it keeps
/// the runner's name, says the fixed instruction, and takes what the
/// runner's settings schema describes, read as JSON or else as YAML; where
/// there is no such schema, or it is no object, it takes an empty object.
pub open spec fn creation_tool(function: FunctionSpecsView) -> ToolView {
    ToolView {
        name: function.name,
        description: CREATION_TOOL_DESCRIPTION@,
        input_schema: schema_object(
            match single_schema(function) {
                Some(schema) => match schema.settings {
                    Some(text) => text_value_of(text),
                    None => None,
                },
                None => None,
            },
        ),
    }
}

/// The tool that stands for one tool of an external server.
pub open spec fn federated_tool(server_name: Seq<char>, tool: McpToolView) -> ToolView {
    ToolView {
        name: combined(server_name, tool.name),
        description: match tool.description {
            Some(text) => text,
            None => Seq::empty(),
        },
        input_schema: schema_object(json_text_value(tool.input_schema)),
    }
}

/// The tools of an external server: one for each tool it declares, in
/// order; none where the entry declares no list of tools.
pub open spec fn federated_tools(function: FunctionSpecsView) -> Seq<ToolView> {
    match function.schema {
        Some(SchemaView::McpTools(list)) => Seq::new(
            list.len(),
            |i: int| federated_tool(function.name, list[i]),
        ),
        _ => Seq::empty(),
    }
}

/// The properties after a schema text is added under `key`: unchanged
/// where the text is missing or empty, with the described schema where the
/// text is JSON, and nothing where it is not.
pub open spec fn with_schema(
    properties: Entries,
    key: Seq<char>,
    text: Option<Seq<char>>,
    description: Seq<char>,
) -> Option<Entries> {
    match text {
        None => Some(properties),
        Some(t) => if t.len() == 0 {
            Some(properties)
        } else {
            match json_text_value(t) {
                Some(parsed) => Some(upsert(properties, key, described(parsed, Some(description)))),
                None => None,
            }
        },
    }
}

/// The properties of a function's tool: its settings schema under
/// `"settings"`, then its arguments schema under `"arguments"`. Nothing
/// where one of the two texts is not JSON.
pub open spec fn function_properties(function: FunctionSpecsView) -> Option<Entries> {
    let schema = single_schema(function);
    let settings = match schema {
        Some(s) => s.settings,
        None => None,
    };
    let arguments = match schema {
        Some(s) => Some(s.arguments),
        None => None,
    };
    match with_schema(Seq::empty(), "settings"@, settings, "Tool init settings"@) {
        Some(properties) => with_schema(properties, "arguments"@, arguments, "Tool arguments"@),
        None => None,
    }
}

/// The tool of a standard runner or of a worker: it keeps the entry's name
/// and description and takes the combined schema of the entry's
/// properties. An entry with a schema text that is not JSON has no tool.
pub open spec fn function_tool(function: FunctionSpecsView) -> Option<ToolView> {
    match function_properties(function) {
        Some(properties) => Some(
            ToolView {
                name: function.name,
                description: function.description,
                input_schema: combined_schema(properties),
            },
        ),
        None => None,
    }
}

/// What is wrong with a catalog entry, for whoever keeps a log of the
/// listing. Only a schema text of a function that is not JSON, and a tool
/// server without its list of tools, cost the entry its tools.
#[derive(Clone, Debug, PartialEq)]
pub enum ConversionIssue {
    /// An external tool server that declares no list of tools.
    MissingToolList,
    /// A schema text under this key that cannot be read.
    MalformedSchema { key: String },
    /// A function without a schema for its arguments.
    MissingArguments,
}

/// The mathematical view of [`ConversionIssue`].
pub enum ConversionIssueView {
    MissingToolList,
    MalformedSchema { key: Seq<char> },
    MissingArguments,
}

impl View for ConversionIssue {
    type V = ConversionIssueView;

    open spec fn view(&self) -> ConversionIssueView {
        match self {
            ConversionIssue::MissingToolList => ConversionIssueView::MissingToolList,
            ConversionIssue::MalformedSchema { key } => ConversionIssueView::MalformedSchema {
                key: key@,
            },
            ConversionIssue::MissingArguments => ConversionIssueView::MissingArguments,
        }
    }
}

/// Whether the entry is listed as the tool that creates workflows.
pub open spec fn is_workflow_creator(function: FunctionSpecsView) -> bool {
    function.worker_id is None && function.runner_type == RunnerType::ReusableWorkflow
}

/// What is wrong with a catalog entry, if anything.
///
/// For the tool that creates workflows: settings that are neither JSON nor
/// YAML. For an external tool server: no list of tools. For a function:
/// settings that are not empty and not JSON; else no arguments schema, or
/// one that is not JSON.
pub open spec fn issue_of(function: FunctionSpecsView) -> Option<ConversionIssueView> {
    let schema = single_schema(function);
    let settings = match schema {
        Some(s) => s.settings,
        None => None,
    };
    if is_workflow_creator(function) {
        match settings {
            Some(text) => if text_value_of(text) is None {
                Some(ConversionIssueView::MalformedSchema { key: "settings"@ })
            } else {
                None
            },
            None => None,
        }
    } else if function.runner_type == RunnerType::McpServer {
        match function.schema {
            Some(SchemaView::McpTools(_)) => None,
            _ => Some(ConversionIssueView::MissingToolList),
        }
    } else if with_schema(Seq::empty(), "settings"@, settings, "Tool init settings"@) is None {
        Some(ConversionIssueView::MalformedSchema { key: "settings"@ })
    } else {
        match schema {
            Some(s) => if s.arguments.len() == 0 {
                Some(ConversionIssueView::MissingArguments)
            } else if json_text_value(s.arguments) is None {
                Some(ConversionIssueView::MalformedSchema { key: "arguments"@ })
            } else {
                None
            },
            None => Some(ConversionIssueView::MissingArguments),
        }
    }
}

/// No entry loses its tools without an issue to report: a function has no
/// tool exactly where one of its schema texts is malformed, and a tool
/// server without its list of tools has none.
pub proof fn lemma_dropped_entries_have_an_issue(function: FunctionSpecsView)
    ensures
        !is_workflow_creator(function) && function.runner_type != RunnerType::McpServer ==> (
        function_tool(function) is None <==> issue_of(function) is Some && issue_of(
            function,
        )->0 is MalformedSchema),
        is_workflow_creator(function) ==> tools_of(function).len() == 1,
        issue_of(function) == Some(ConversionIssueView::MissingToolList) ==> tools_of(function)
            == Seq::<ToolView>::empty(),
{
}

/// The tools that one catalog entry contributes.
pub open spec fn tools_of(function: FunctionSpecsView) -> Seq<ToolView> {
    if is_workflow_creator(function) {
        seq![creation_tool(function)]
    } else if function.runner_type == RunnerType::McpServer {
        federated_tools(function)
    } else {
        match function_tool(function) {
            Some(tool) => seq![tool],
            None => Seq::empty(),
        }
    }
}

/// The tools of a catalog: those of its entries, in the catalog's order.
pub open spec fn tools_of_catalog(functions: Seq<FunctionSpecsView>) -> Seq<ToolView>
    decreases functions.len(),
{
    if functions.len() == 0 {
        Seq::empty()
    } else {
        tools_of_catalog(functions.drop_last()) + tools_of(functions.last())
    }
}

/// The tools of two catalogs put together are the tools of the first
/// followed by the tools of the second: what one entry contributes does not
/// depend on any other entry.
pub proof fn lemma_tools_of_joined_catalogs(
    first: Seq<FunctionSpecsView>,
    second: Seq<FunctionSpecsView>,
)
    ensures
        tools_of_catalog(first + second) == tools_of_catalog(first) + tools_of_catalog(second),
    decreases second.len(),
{
    if second.len() == 0 {
        assert(first + second =~= first);
    } else {
        lemma_tools_of_joined_catalogs(first, second.drop_last());
        assert((first + second).drop_last() =~= first + second.drop_last());
        assert((first + second).last() == second.last());
    }
}

/// An entry for a standard runner or a worker whose arguments schema is
/// not empty and not JSON contributes no tool, and the tools of all other
/// entries are listed as if it were not there.
pub proof fn lemma_malformed_entry_is_dropped(
    before: Seq<FunctionSpecsView>,
    entry: FunctionSpecsView,
    after: Seq<FunctionSpecsView>,
)
    requires
        !is_workflow_creator(entry),
        entry.runner_type != RunnerType::McpServer,
        single_schema(entry) matches Some(schema) && schema.arguments.len() > 0
            && json_text_value(schema.arguments) is None,
    ensures
        tools_of(entry) == Seq::<ToolView>::empty(),
        tools_of_catalog(before + seq![entry] + after) == tools_of_catalog(before)
            + tools_of_catalog(after),
{
    lemma_tools_of_joined_catalogs(before + seq![entry], after);
    lemma_tools_of_joined_catalogs(before, seq![entry]);
    assert(seq![entry].drop_last() =~= Seq::<FunctionSpecsView>::empty());
    assert(seq![entry].last() == entry);
    assert(tools_of_catalog(seq![entry].drop_last()) =~= Seq::<ToolView>::empty());
    assert(tools_of_catalog(seq![entry]) =~= tools_of(entry));
    assert(tools_of_catalog(before) + Seq::<ToolView>::empty() =~= tools_of_catalog(before));
}

/// Converts between the engine's catalog and the protocol's tools.
pub struct ToolConverter;

impl ToolConverter {
    /// The name under which a server's tool is listed and called.
    pub fn combine_names(server_name: &str, tool_name: &str) -> (name: String)
        ensures
            name@ == combined(server_name@, tool_name@),
    {
        proof {
            reveal_strlit("___");
        }
        let mut name = server_name.to_owned();
        name.append("___");
        name.append(tool_name);
        assert("___"@ =~= delimiter());
        name
    }

    /// The server name and the tool name of a composite name, or nothing
    /// for a name without the delimiter.
    pub fn divide_names(combined: &str) -> (halves: Option<(String, String)>)
        ensures
            match halves {
                Some((server_name, tool_name)) => divided(combined@) == Some(
                    (server_name@, tool_name@),
                ),
                None => divided(combined@) is None,
            },
    {
        let chars = chars_of(combined);
        match find_delimiter(&chars) {
            Some(at) => {
                proof {
                    lemma_first_delimiter_is(combined@, at as int);
                }
                let len = chars.len();
                assert(delimiter_at(chars@, at as int));
                let server_name = combined.substring_char(0, at).to_owned();
                let tool_name = combined.substring_char(at + 3, len).to_owned();
                Some((server_name, tool_name))
            },
            None => None,
        }
    }

    /// The creation tool of a reusable-workflow runner: see
    /// [`creation_tool`].
    pub fn convert_reusable_workflow(tool: &FunctionSpecs) -> (converted: Option<Tool>)
        ensures
            converted matches Some(t) && t@ == creation_tool(tool@),
    {
        let settings = match &tool.schema {
            Some(Schema::SingleSchema(function)) => match &function.settings {
                Some(text) => parse_json_or_yaml(text.as_str()),
                None => None,
            },
            _ => None,
        };
        Some(
            Tool {
                name: tool.name.clone(),
                description: CREATION_TOOL_DESCRIPTION.to_owned(),
                input_schema: schema_entries(settings),
            },
        )
    }

    /// The tools of an external tool server: see [`federated_tools`].
    pub fn convert_mcp_server(tool: &FunctionSpecs) -> (converted: Vec<Tool>)
        ensures
            tools_view(converted@) == federated_tools(tool@),
    {
        let mut converted: Vec<Tool> = Vec::new();
        match &tool.schema {
            Some(Schema::McpTools(list)) => {
                let mut i: usize = 0;
                while i < list.len()
                    invariant
                        i <= list.len(),
                        tool.schema == Some(Schema::McpTools(*list)),
                        converted.len() == i,
                        forall|j: int|
                            0 <= j < i ==> (#[trigger] converted[j])@ == federated_tool(
                                tool.name@,
                                list[j]@,
                            ),
                    decreases list.len() - i,
                {
                    converted.push(Self::convert_mcp_tool(tool.name.as_str(), &list[i]));
                    i += 1;
                }
                assert(tools_view(converted@) =~= federated_tools(tool@));
            },
            _ => {
                assert(tools_view(converted@) =~= federated_tools(tool@));
            },
        }
        converted
    }

    /// The tool for one tool of an external server: see [`federated_tool`].
    pub fn convert_mcp_tool(server_name: &str, tool: &McpTool) -> (converted: Tool)
        ensures
            converted@ == federated_tool(server_name@, tool@),
    {
        Tool {
            name: Self::combine_names(server_name, tool.name.as_str()),
            description: match &tool.description {
                Some(text) => text.clone(),
                None => String::new(),
            },
            input_schema: schema_entries(parse_json(tool.input_schema.as_str())),
        }
    }

    /// The tool of a standard runner or of a worker, or nothing where one
    /// of its schema texts is not JSON: see [`function_tool`].
    pub fn convert_normal_function(tool: &FunctionSpecs) -> (converted: Option<Tool>)
        ensures
            match converted {
                Some(t) => function_tool(tool@) == Some(t@),
                None => function_tool(tool@) is None,
            },
    {
        let mut schema_combiner = SchemaCombiner::new();
        match &tool.schema {
            Some(Schema::SingleSchema(function)) => {
                match &function.settings {
                    Some(text) => {
                        if !add_schema_text(
                            &mut schema_combiner,
                            "settings",
                            text.as_str(),
                            "Tool init settings",
                        ) {
                            return None;
                        }
                    },
                    None => {},
                }
                if !add_schema_text(
                    &mut schema_combiner,
                    "arguments",
                    function.arguments.as_str(),
                    "Tool arguments",
                ) {
                    return None;
                }
            },
            _ => {},
        }
        Some(
            Tool {
                name: tool.name.clone(),
                description: tool.description.clone(),
                input_schema: schema_combiner.generate_combined_schema(),
            },
        )
    }

    /// What is wrong with a catalog entry, if anything: see [`issue_of`].
    pub fn conversion_issue(tool: &FunctionSpecs) -> (issue: Option<ConversionIssue>)
        ensures
            match issue {
                Some(i) => issue_of(tool@) == Some(i@),
                None => issue_of(tool@) is None,
            },
    {
        let schema = match &tool.schema {
            Some(Schema::SingleSchema(function)) => Some(function),
            _ => None,
        };
        if tool.worker_id.is_none() && matches!(tool.runner_type, RunnerType::ReusableWorkflow) {
            match schema {
                Some(function) => match &function.settings {
                    Some(text) => if parse_json_or_yaml(text.as_str()).is_none() {
                        Some(ConversionIssue::MalformedSchema { key: "settings".to_owned() })
                    } else {
                        None
                    },
                    None => None,
                },
                None => None,
            }
        } else if matches!(tool.runner_type, RunnerType::McpServer) {
            match &tool.schema {
                Some(Schema::McpTools(_)) => None,
                _ => Some(ConversionIssue::MissingToolList),
            }
        } else {
            match schema {
                Some(function) => {
                    let settings_malformed = match &function.settings {
                        Some(text) => is_malformed(text.as_str()),
                        None => false,
                    };
                    if settings_malformed {
                        Some(ConversionIssue::MalformedSchema { key: "settings".to_owned() })
                    } else if function.arguments.as_str().is_empty() {
                        Some(ConversionIssue::MissingArguments)
                    } else if is_malformed(function.arguments.as_str()) {
                        Some(ConversionIssue::MalformedSchema { key: "arguments".to_owned() })
                    } else {
                        None
                    }
                },
                None => Some(ConversionIssue::MissingArguments),
            }
        }
    }

    /// The protocol's tool list for the engine's catalog: the tools of each
    /// entry, in the catalog's order. An entry that cannot be converted
    /// contributes no tool and takes none away.
    pub fn convert_functions_to_mcp_tools(functions: Vec<FunctionSpecs>) -> (listed: Result<
        ListToolsResult,
        McpError,
    >)
        ensures
            listed matches Ok(list) && list@.tools == tools_of_catalog(catalog_view(functions@))
                && list@.next_cursor is None,
    {
        let mut tool_list: Vec<Tool> = Vec::new();
        let mut i: usize = 0;
        while i < functions.len()
            invariant
                i <= functions.len(),
                tools_view(tool_list@) == tools_of_catalog(catalog_view(functions@).take(i as int)),
            decreases functions.len() - i,
        {
            let tool = &functions[i];
            let ghost before = tools_view(tool_list@);
            let mut converted = if tool.worker_id.is_none() && matches!(
                tool.runner_type,
                RunnerType::ReusableWorkflow
            ) {
                let mut one: Vec<Tool> = Vec::new();
                match Self::convert_reusable_workflow(tool) {
                    Some(t) => one.push(t),
                    None => {},
                }
                one
            } else if matches!(tool.runner_type, RunnerType::McpServer) {
                Self::convert_mcp_server(tool)
            } else {
                let mut one: Vec<Tool> = Vec::new();
                match Self::convert_normal_function(tool) {
                    Some(t) => one.push(t),
                    None => {},
                }
                one
            };
            assert(tools_view(converted@) =~= tools_of(tool@));
            tool_list.append(&mut converted);
            i += 1;
            proof {
                let catalog = catalog_view(functions@);
                assert(catalog.take(i as int).drop_last() =~= catalog.take(i - 1));
                assert(catalog.take(i as int).last() == tool@);
                assert(tools_view(tool_list@) =~= before + tools_of(tool@));
            }
        }
        assert(catalog_view(functions@).take(i as int) =~= catalog_view(functions@));
        Ok(ListToolsResult { tools: tool_list, next_cursor: None })
    }
}

/// The object of a parsed schema, or an empty object: see [`schema_object`].
pub fn schema_entries(parsed: Option<Value>) -> (object: JsonObject)
    ensures
        entries_of(object) == schema_object(crate::model::value_view(parsed)),
{
    match parsed {
        Some(value) => match as_object(&value) {
            Some(entries) => clone_object(entries),
            None => new_object(),
        },
        None => new_object(),
    }
}

/// Whether a schema text is not empty and not JSON.
fn is_malformed(text: &str) -> (malformed: bool)
    ensures
        malformed == (text@.len() > 0 && json_text_value(text@) is None),
{
    !text.is_empty() && parse_json(text).is_none()
}

/// Adds a schema text to the combiner unless the text is empty; says
/// whether the combiner could read it: see [`with_schema`].
fn add_schema_text(combiner: &mut SchemaCombiner, key: &str, text: &str, description: &str) -> (ok:
    bool)
    ensures
        match with_schema(old(combiner)@, key@, Some(text@), description@) {
            Some(properties) => ok && final(combiner)@ == properties,
            None => !ok,
        },
{
    if text.is_empty() {
        true
    } else {
        combiner.add_schema_from_string(key, text, Some(description.to_owned())).is_ok()
    }
}

/// The leftmost position of the delimiter among the characters.
fn find_delimiter(chars: &Vec<char>) -> (found: Option<usize>)
    ensures
        match found {
            Some(at) => is_first_delimiter(chars@, at as int),
            None => !has_delimiter(chars@),
        },
{
    let len = chars.len();
    if len < 3 {
        return None;
    }
    let mut at: usize = 0;
    while at <= len - 3
        invariant
            len == chars.len(),
            len >= 3,
            forall|j: int| 0 <= j < at ==> !delimiter_at(chars@, j),
        decreases len - at,
    {
        if chars[at] == '_' && chars[at + 1] == '_' && chars[at + 2] == '_' {
            return Some(at);
        }
        at += 1;
    }
    None
}

} // verus!
