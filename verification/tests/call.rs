use proxy_server::data::{
    BackendError, FunctionSchema, FunctionSpecs, McpTool, ResponseType, Runner, RunnerData,
    RunnerId, RunnerType, Schema, WorkerData,
};
use proxy_server::jobworkerp::repository::{FunctionQuery, LookupStage};
use proxy_server::jobworkerp::{
    CallState, CallStep, Command, Event, JobworkerpRouter, JobworkerpRouterConfig,
    ResolvedTarget, SERVER_INSTRUCTIONS,
};
use proxy_server::json::JsonObject;
use proxy_server::model::{CallToolRequestParam, CallToolResult, McpError};
use serde_json::Value;

fn value(text: &str) -> Value {
    serde_json::from_str::<Value>(text).unwrap()
}

fn object(text: &str) -> JsonObject {
    match value(text) {
        Value::Object(map) => map,
        other => panic!("not an object: {}", other),
    }
}

fn router(timeout: Option<u32>) -> JobworkerpRouter {
    JobworkerpRouter::new(JobworkerpRouterConfig {
        jobworkerp_address: "http://localhost:9000".to_string(),
        request_timeout_sec: timeout,
        exclude_runner_as_tool: false,
        exclude_worker_as_tool: false,
        set_name: None,
    })
}

fn request(name: &str, arguments: Option<&str>) -> CallToolRequestParam {
    CallToolRequestParam { name: name.to_string(), arguments: arguments.map(object) }
}

fn runner(id: i64, name: &str, runner_type: RunnerType) -> Runner {
    Runner {
        id: Some(RunnerId { value: id }),
        data: Some(RunnerData {
            name: name.to_string(),
            description: String::new(),
            runner_type,
        }),
    }
}

fn worker(name: &str, runner_id: i64) -> WorkerData {
    WorkerData {
        name: name.to_string(),
        description: String::new(),
        runner_id: Some(RunnerId { value: runner_id }),
        runner_settings: vec![],
        channel: None,
        response_type: ResponseType::Direct,
        broadcast_results: false,
    }
}

/// A job engine that lives in memory and records what it was asked.
struct Engine {
    runners: Vec<Runner>,
    workers: Vec<WorkerData>,
    has_settings_schema: bool,
    job_result: Result<Value, BackendError>,
    log: Vec<String>,
}

impl Engine {
    fn new(runners: Vec<Runner>, workers: Vec<WorkerData>) -> Engine {
        Engine {
            runners,
            workers,
            has_settings_schema: true,
            job_result: Ok(value(r#"{"done":true}"#)),
            log: vec![],
        }
    }

    fn perform(&mut self, command: Command) -> Event {
        match command {
            Command::FindRunner { name } => {
                self.log.push(format!("find runner {}", name));
                let found = self
                    .runners
                    .iter()
                    .find(|r| r.data.as_ref().map(|d| d.name == name).unwrap_or(false));
                Event::Runner(Ok(found.cloned()))
            }
            Command::FindWorker { name } => {
                self.log.push(format!("find worker {}", name));
                Event::Worker(Ok(self.workers.iter().find(|w| w.name == name).cloned()))
            }
            Command::FindSettingsDescriptor { runner_name } => {
                self.log.push(format!("descriptor of {}", runner_name));
                Event::SettingsDescriptor(Ok(self.has_settings_schema))
            }
            Command::EncodeSettings { runner_name, settings } => {
                self.log.push(format!("encode for {}: {}", runner_name, Value::Object(settings)));
                Event::EncodedSettings(Ok(vec![1, 2, 3]))
            }
            Command::FindOrCreateWorker { data } => {
                self.log.push(format!("find or create {}", data.name));
                if !self.workers.iter().any(|w| w.name == data.name) {
                    self.workers.push(data);
                }
                Event::WorkerProvisioned(Ok(()))
            }
            Command::EnqueueWithRunner { runner_job } => {
                self.log.push(format!(
                    "enqueue runner {} settings {} arguments {} timeout {}",
                    runner_job.runner_name,
                    runner_job.settings.map(|s| s.to_string()).unwrap_or("none".to_string()),
                    runner_job.arguments,
                    runner_job.timeout_sec
                ));
                Event::JobResult(self.job_result.clone())
            }
            Command::EnqueueWithWorker { worker_job } => {
                self.log.push(format!(
                    "enqueue worker {} arguments {} timeout {}",
                    worker_job.worker_name, worker_job.arguments, worker_job.timeout_sec
                ));
                Event::JobResult(self.job_result.clone())
            }
        }
    }
}

fn run(
    router: &JobworkerpRouter,
    engine: &mut Engine,
    request: CallToolRequestParam,
) -> Result<CallToolResult, McpError> {
    let mut step = router.call_tool(request);
    let mut answers = 0;
    loop {
        match step {
            CallStep::Reply(outcome) => return outcome,
            CallStep::Perform { command, state } => {
                answers += 1;
                assert!(answers <= 6);
                let event = engine.perform(command);
                step = router.resume(state, event);
            }
        }
    }
}

#[test]
fn call_of_standard_runner_enqueues_its_arguments() {
    let router = router(None);
    let mut engine = Engine::new(vec![runner(1, "echo", RunnerType::Standard)], vec![]);
    let outcome = run(&router, &mut engine, request("echo", Some(r#"{"arguments":{"text":"hi"}}"#)));
    assert_eq!(
        outcome,
        Ok(CallToolResult { content: vec![value(r#"{"done":true}"#)], is_error: None })
    );
    assert_eq!(
        engine.log,
        vec![
            "find runner echo",
            r#"enqueue runner echo settings none arguments {"text":"hi"} timeout 3600"#,
        ]
    );
}

#[test]
fn call_of_federated_tool_resolves_server_and_passes_tool_name() {
    let router = router(Some(60));
    let mut engine = Engine::new(vec![runner(2, "weather", RunnerType::McpServer)], vec![]);
    let outcome =
        run(&router, &mut engine, request("weather___forecast", Some(r#"{"city":"Tokyo"}"#)));
    assert!(outcome.is_ok());
    assert_eq!(
        engine.log,
        vec![
            "find runner weather___forecast",
            "find runner weather",
            r#"enqueue runner weather settings none arguments {"tool_name":"forecast","arg_json":"{\"city\":\"Tokyo\"}"} timeout 60"#,
        ]
    );
}

#[test]
fn federated_tool_is_listed_under_its_composite_name() {
    let router = router(None);
    let catalog = vec![FunctionSpecs {
        runner_type: RunnerType::McpServer,
        runner_id: Some(RunnerId { value: 2 }),
        worker_id: None,
        name: "weather".to_string(),
        description: String::new(),
        schema: Some(Schema::McpTools(vec![McpTool {
            name: "forecast".to_string(),
            description: None,
            input_schema: "{}".to_string(),
        }])),
    }];
    let listed = router.listed_tools(Ok(catalog)).unwrap();
    let names: Vec<&str> = listed.tools.iter().map(|t| t.name.as_str()).collect();
    assert_eq!(names, vec!["weather___forecast"]);
}

#[test]
fn literal_name_wins_over_composite_reading() {
    let router = router(None);
    let mut engine = Engine::new(
        vec![
            runner(2, "weather", RunnerType::McpServer),
            runner(3, "weather___forecast", RunnerType::Standard),
        ],
        vec![worker("weather___forecast", 3)],
    );
    let outcome = run(
        &router,
        &mut engine,
        request("weather___forecast", Some(r#"{"arguments":{"city":"Tokyo"}}"#)),
    );
    assert!(outcome.is_ok());
    assert_eq!(
        engine.log,
        vec![
            "find runner weather___forecast",
            r#"enqueue runner weather___forecast settings none arguments {"city":"Tokyo"} timeout 3600"#,
        ]
    );
}

#[test]
fn workflow_creation_provisions_worker_once() {
    let router = router(None);
    let mut engine =
        Engine::new(vec![runner(65532, "make_workflow", RunnerType::ReusableWorkflow)], vec![]);
    let arguments = r#"{"document":{"name":"wf1"},"steps":[{"run":"echo"}]}"#;
    let first = run(&router, &mut engine, request("make_workflow", Some(arguments)));
    assert_eq!(
        first,
        Ok(CallToolResult { content: vec![value(r#"{"status":"ok"}"#)], is_error: None })
    );
    assert_eq!(
        engine.log,
        vec![
            "find runner make_workflow".to_string(),
            "descriptor of make_workflow".to_string(),
            format!(
                "encode for make_workflow: {}",
                value(r#"{"json_data":"{\"document\":{\"name\":\"wf1\"},\"steps\":[{\"run\":\"echo\"}]}"}"#)
            ),
            "find or create wf1".to_string(),
        ]
    );
    assert_eq!(
        engine.workers,
        vec![WorkerData {
            name: "wf1".to_string(),
            description: String::new(),
            runner_id: Some(RunnerId { value: 65532 }),
            runner_settings: vec![1, 2, 3],
            channel: Some("workflow".to_string()),
            response_type: ResponseType::Direct,
            broadcast_results: true,
        }]
    );
    let second = run(&router, &mut engine, request("make_workflow", Some(arguments)));
    assert_eq!(second, first);
    assert_eq!(engine.workers.len(), 1);
    assert_eq!(engine.log.iter().filter(|l| l.as_str() == "find or create wf1").count(), 2);
}

#[test]
fn workflow_creation_without_settings_schema_leaves_settings_empty() {
    let router = router(None);
    let mut engine =
        Engine::new(vec![runner(65532, "make_workflow", RunnerType::ReusableWorkflow)], vec![]);
    engine.has_settings_schema = false;
    let outcome = run(&router, &mut engine, request("make_workflow", Some(r#"{"steps":[]}"#)));
    assert!(outcome.is_ok());
    assert_eq!(
        engine.log,
        vec![
            "find runner make_workflow",
            "descriptor of make_workflow",
            "find or create make_workflow",
        ]
    );
    assert_eq!(engine.workers[0].runner_settings, Vec::<u8>::new());
}

#[test]
fn workflow_creation_without_arguments_is_invalid() {
    let router = router(None);
    let mut engine =
        Engine::new(vec![runner(65532, "make_workflow", RunnerType::ReusableWorkflow)], vec![]);
    let outcome = run(&router, &mut engine, request("make_workflow", None));
    assert_eq!(
        outcome,
        Err(McpError::InvalidParams(
            "Workflow creation requires a workflow json arguments.".to_string()
        ))
    );
    assert_eq!(engine.log, vec!["find runner make_workflow"]);
    assert!(engine.workers.is_empty());
}

#[test]
fn workflow_creation_reports_engine_failures() {
    let router = router(None);
    let draft_state = |router: &JobworkerpRouter| {
        let step = router.call_tool(request("make_workflow", Some(r#"{"steps":[]}"#)));
        let state = match step {
            CallStep::Perform { state, .. } => state,
            other => panic!("unexpected step {:?}", other),
        };
        let found = runner(65532, "make_workflow", RunnerType::ReusableWorkflow);
        match router.resume(state, Event::Runner(Ok(Some(found)))) {
            CallStep::Perform { state, .. } => state,
            other => panic!("unexpected step {:?}", other),
        }
    };
    let failure = |message: &str| {
        CallStep::Reply(Err(McpError::InternalError(format!(
            "Failed to create workflow: {}",
            message
        ))))
    };
    let error = |message: &str| BackendError::Other(message.to_string());

    let state = draft_state(&router);
    assert_eq!(
        router.resume(state, Event::SettingsDescriptor(Err(error("bad descriptor")))),
        failure("bad descriptor")
    );

    let state = draft_state(&router);
    let state = match router.resume(state, Event::SettingsDescriptor(Ok(true))) {
        CallStep::Perform { state, .. } => state,
        other => panic!("unexpected step {:?}", other),
    };
    assert_eq!(
        router.resume(state, Event::EncodedSettings(Err(error("cannot encode")))),
        failure("cannot encode")
    );

    assert_eq!(
        router.resume(
            CallState::WorkerProvision,
            Event::WorkerProvisioned(Err(BackendError::NotFound("no such runner".to_string())))
        ),
        failure("no such runner")
    );
}

#[test]
fn unknown_tool_is_not_found_and_nothing_is_enqueued() {
    let router = router(None);
    let mut engine = Engine::new(
        vec![runner(1, "echo", RunnerType::Standard)],
        vec![worker("other", 1)],
    );
    let outcome = run(&router, &mut engine, request("unknown_tool", Some("{}")));
    assert_eq!(outcome, Err(McpError::MethodNotFound));
    assert_eq!(engine.log, vec!["find runner unknown_tool", "find worker unknown_tool"]);
}

#[test]
fn unknown_composite_name_is_searched_in_order() {
    let router = router(None);
    let mut engine = Engine::new(vec![], vec![]);
    let outcome = run(&router, &mut engine, request("srv___tool___x", None));
    assert_eq!(outcome, Err(McpError::MethodNotFound));
    assert_eq!(
        engine.log,
        vec![
            "find runner srv___tool___x",
            "find runner srv",
            "find worker srv___tool___x",
            "find worker srv",
        ]
    );
}

#[test]
fn worker_is_called_where_no_runner_matches() {
    let router = router(Some(5));
    let mut engine = Engine::new(vec![], vec![worker("nightly", 4)]);
    let outcome = run(&router, &mut engine, request("nightly", Some(r#"{"arguments":{"n":1}}"#)));
    assert!(outcome.is_ok());
    assert_eq!(
        engine.log,
        vec![
            "find runner nightly",
            "find worker nightly",
            r#"enqueue worker nightly arguments {"n":1} timeout 5"#,
        ]
    );
}

#[test]
fn workflow_instance_worker_takes_input_text() {
    let router = router(None);
    let mut engine = Engine::new(vec![], vec![worker("wf1", -1)]);
    let outcome = run(&router, &mut engine, request("wf1", Some(r#"{"arguments":{"n":1}}"#)));
    assert!(outcome.is_ok());
    assert_eq!(
        engine.log[2],
        r#"enqueue worker wf1 arguments {"input":"{\"n\":1}"} timeout 3600"#
    );
}

#[test]
fn worker_behind_composite_name_gets_tool_name() {
    let router = router(None);
    let mut engine = Engine::new(vec![], vec![worker("weather", 4)]);
    let outcome =
        run(&router, &mut engine, request("weather___forecast", Some(r#"{"arguments":{"c":1}}"#)));
    assert!(outcome.is_ok());
    assert_eq!(
        engine.log,
        vec![
            "find runner weather___forecast",
            "find runner weather",
            "find worker weather___forecast",
            "find worker weather",
            r#"enqueue worker weather arguments {"tool_name":"forecast","arg_json":{"c":1}} timeout 3600"#,
        ]
    );
}

#[test]
fn lookup_failure_is_reported_as_not_found() {
    let router = router(None);
    let error = || BackendError::Other("connection refused".to_string());
    let step = router.call_tool(request("echo", None));
    let state = match step {
        CallStep::Perform { state, .. } => state,
        other => panic!("unexpected step {:?}", other),
    };
    assert_eq!(
        router.resume(state, Event::Runner(Err(error()))),
        CallStep::Reply(Err(McpError::MethodNotFound))
    );
    let state = CallState::WorkerLookup { request: request("echo", None), stage: LookupStage::Exact };
    assert_eq!(
        router.resume(state, Event::Worker(Err(error()))),
        CallStep::Reply(Err(McpError::MethodNotFound))
    );
}

#[test]
fn job_failures_are_mapped_to_protocol_errors() {
    let router = router(None);
    assert_eq!(
        router.resume(
            CallState::JobResult,
            Event::JobResult(Err(BackendError::NotFound("worker gone".to_string())))
        ),
        CallStep::Reply(Err(McpError::MethodNotFound))
    );
    assert_eq!(
        router.resume(
            CallState::JobResult,
            Event::JobResult(Err(BackendError::Other("timed out".to_string())))
        ),
        CallStep::Reply(Err(McpError::InternalError("Failed to enqueue job: timed out".to_string())))
    );
    assert_eq!(
        router.resume(CallState::JobResult, Event::JobResult(Ok(Value::Null))),
        CallStep::Reply(Ok(CallToolResult { content: vec![Value::Null], is_error: None }))
    );
}

#[test]
fn runner_without_data_cannot_be_called() {
    let router = router(None);
    let state =
        CallState::RunnerLookup { request: request("ghost", None), stage: LookupStage::Exact };
    let found = Runner { id: Some(RunnerId { value: 9 }), data: None };
    assert_eq!(
        router.resume(state, Event::Runner(Ok(Some(found)))),
        CallStep::Reply(Err(McpError::InternalError(
            "Failed to enqueue job: runner data is missing".to_string()
        )))
    );
}

#[test]
fn reusable_workflow_runner_without_id_is_called_as_runner() {
    let router = router(None);
    let state = CallState::RunnerLookup {
        request: request("make_workflow", Some(r#"{"arguments":{"a":1}}"#)),
        stage: LookupStage::Exact,
    };
    let mut found = runner(1, "make_workflow", RunnerType::ReusableWorkflow);
    found.id = None;
    match router.resume(state, Event::Runner(Ok(Some(found)))) {
        CallStep::Perform { command: Command::EnqueueWithRunner { runner_job }, state } => {
            assert_eq!(state, CallState::JobResult);
            assert_eq!(runner_job.runner_name, "make_workflow");
            assert_eq!(runner_job.arguments, value(r#"{"a":1}"#));
        }
        other => panic!("unexpected step {:?}", other),
    }
}

#[test]
fn answer_that_does_not_fit_the_state_ends_the_call() {
    let router = router(None);
    let unexpected = CallStep::Reply(Err(McpError::InternalError(
        "Unexpected answer from the job engine".to_string(),
    )));
    assert_eq!(
        router.resume(CallState::JobResult, Event::WorkerProvisioned(Ok(()))),
        unexpected
    );
    assert_eq!(
        router.resume(
            CallState::RunnerLookup { request: request("x", None), stage: LookupStage::Exact },
            Event::Worker(Ok(None))
        ),
        unexpected
    );
    assert_eq!(
        router.resume(CallState::WorkerProvision, Event::JobResult(Ok(Value::Null))),
        unexpected
    );
}

#[test]
fn listing_asks_for_the_set_or_the_narrowed_catalog() {
    let all = JobworkerpRouter::new(JobworkerpRouterConfig {
        jobworkerp_address: String::new(),
        request_timeout_sec: None,
        exclude_runner_as_tool: true,
        exclude_worker_as_tool: false,
        set_name: None,
    });
    assert_eq!(
        all.list_tools(),
        FunctionQuery::All { exclude_runner_as_tool: true, exclude_worker_as_tool: false }
    );
    let set = JobworkerpRouter::new(JobworkerpRouterConfig {
        jobworkerp_address: String::new(),
        request_timeout_sec: None,
        exclude_runner_as_tool: true,
        exclude_worker_as_tool: true,
        set_name: Some("nightly".to_string()),
    });
    assert_eq!(set.list_tools(), FunctionQuery::BySet { name: "nightly".to_string() });
}

#[test]
fn listing_failure_is_an_internal_error() {
    let router = router(None);
    assert_eq!(
        router.listed_tools(Err(BackendError::Other("unavailable".to_string()))),
        Err(McpError::InternalError("Failed to find tools: unavailable".to_string()))
    );
    assert_eq!(
        router.listed_tools(Err(BackendError::NotFound("no set".to_string()))),
        Err(McpError::InternalError("Failed to find tools: no set".to_string()))
    );
}

#[test]
fn listing_drops_entry_with_malformed_arguments_schema() {
    let router = router(None);
    let entry = |name: &str, arguments: &str| FunctionSpecs {
        runner_type: RunnerType::Standard,
        runner_id: Some(RunnerId { value: 1 }),
        worker_id: None,
        name: name.to_string(),
        description: String::new(),
        schema: Some(Schema::SingleSchema(FunctionSchema {
            settings: None,
            arguments: arguments.to_string(),
        })),
    };
    let listed = router
        .listed_tools(Ok(vec![entry("a", "{}"), entry("broken", "{\"a\":"), entry("b", "{}")]))
        .unwrap();
    let names: Vec<&str> = listed.tools.iter().map(|t| t.name.as_str()).collect();
    assert_eq!(names, vec!["a", "b"]);
}

#[test]
fn server_info_offers_tools() {
    let info = router(None).get_info();
    assert_eq!(info.protocol_version, "2024-11-05");
    assert!(info.enable_tools);
    assert_eq!(info.instructions, Some(SERVER_INSTRUCTIONS.to_string()));
    assert!(SERVER_INSTRUCTIONS.starts_with("The system runs as an asynchronous job"));
}

#[test]
fn router_takes_over_the_configuration() {
    let router = JobworkerpRouter::new(JobworkerpRouterConfig {
        jobworkerp_address: "http://engine:9000".to_string(),
        request_timeout_sec: Some(30),
        exclude_runner_as_tool: false,
        exclude_worker_as_tool: true,
        set_name: Some("set".to_string()),
    });
    assert_eq!(router.repository.timeout_sec, 30);
    assert!(!router.exclude_runner_as_tool);
    assert!(router.exclude_worker_as_tool);
    assert_eq!(router.set_name, Some("set".to_string()));
}

#[test]
fn runner_resolves_to_creator_only_with_id_and_data() {
    let creator = runner(65532, "make_workflow", RunnerType::ReusableWorkflow);
    assert_eq!(
        ResolvedTarget::of_runner(creator.clone()),
        ResolvedTarget::ReusableWorkflowRunner {
            runner_id: RunnerId { value: 65532 },
            runner_data: creator.data.clone().unwrap(),
        }
    );
    let mut without_id = creator.clone();
    without_id.id = None;
    assert_eq!(
        ResolvedTarget::of_runner(without_id.clone()),
        ResolvedTarget::StandardRunner { runner: without_id }
    );
    for other in [
        runner(1, "echo", RunnerType::Standard),
        runner(2, "weather", RunnerType::McpServer),
        Runner { id: Some(RunnerId { value: 3 }), data: None },
        Runner { id: None, data: None },
    ] {
        assert_eq!(
            ResolvedTarget::of_runner(other.clone()),
            ResolvedTarget::StandardRunner { runner: other }
        );
    }
}

#[test]
fn dispatch_handles_each_target() {
    let router = router(Some(7));
    let creator = runner(65532, "make_workflow", RunnerType::ReusableWorkflow);
    match router.dispatch(
        request("make_workflow", Some(r#"{"document":{"name":"wf9"}}"#)),
        ResolvedTarget::of_runner(creator),
        None,
    ) {
        CallStep::Perform {
            command: Command::FindSettingsDescriptor { runner_name },
            state: CallState::SettingsDescriptor { draft, .. },
        } => {
            assert_eq!(runner_name, "make_workflow");
            assert_eq!(draft.worker.name, "wf9");
        }
        other => panic!("unexpected step {:?}", other),
    }
    match router.dispatch(
        request("w___t", Some(r#"{"arguments":1}"#)),
        ResolvedTarget::Worker { worker_data: worker("w", 4) },
        Some("t".to_string()),
    ) {
        CallStep::Perform { command: Command::EnqueueWithWorker { worker_job }, state } => {
            assert_eq!(state, CallState::JobResult);
            assert_eq!(worker_job.worker_name, "w");
            assert_eq!(worker_job.arguments.to_string(), r#"{"tool_name":"t","arg_json":1}"#);
            assert_eq!(worker_job.timeout_sec, 7);
        }
        other => panic!("unexpected step {:?}", other),
    }
    match router.dispatch(
        request("echo", None),
        ResolvedTarget::StandardRunner { runner: runner(1, "echo", RunnerType::Standard) },
        None,
    ) {
        CallStep::Perform { command: Command::EnqueueWithRunner { runner_job }, .. } => {
            assert_eq!(runner_job.runner_name, "echo");
            assert_eq!(runner_job.arguments, Value::Null);
            assert_eq!(runner_job.settings, None);
        }
        other => panic!("unexpected step {:?}", other),
    }
}
