use fire_marshal::bridge::{BridgeError, MqttBridge, NodeRedMessage};
use fire_marshal::cdif::{convert_to_fire_marshal, validate_terminology, CdifCompliance};
use fire_marshal::config::{bloodsniffer_default_config_path, Config};
use fire_marshal::extractor::BloodHoundExtractor;
use fire_marshal::health::{HealthChecker, HealthStatus};
use fire_marshal::json::{Json, JsonNumber};
use fire_marshal::logging::{LogLevel, Logger};
use fire_marshal::monitoring::Monitor;
use fire_marshal::orchestrator::{Orchestrator, PipelineStatus};
use fire_marshal::parser::{CodeParser, Language};
use fire_marshal::queue::{
    prepare_submission, queued_notice, CreatePipelineResponse, PipelineRecord, PipelineRegistry,
    SubmissionError,
};
use fire_marshal::utils::{
    extract_id, extract_method, extract_params, format_error, format_success, is_notification,
    sanitize_error_message, validate_jsonrpc_request, RpcError,
};
use fire_marshal::worker::{
    monitoring_report, orchestrate_response, orchestrated_notice, pipeline_notice, record_run,
    run_record, Folder, QueueWorker, WorkerAction, WorkerEvent,
};

fn object(members: Vec<(&str, Json)>) -> Json {
    let mut j = Json::empty_object();
    for (k, v) in members {
        j = j.with_member(k, v);
    }
    j
}

fn text_of<'a>(j: &'a Json, key: &str) -> Option<&'a str> {
    j.get(key).and_then(|v| v.as_str())
}

fn sample_payload() -> Json {
    object(vec![(
        "data",
        Json::Array(vec![object(vec![
            ("ObjectIdentifier", Json::string("user1")),
            ("Properties", object(vec![("name", Json::string("testuser"))])),
            ("Rels", Json::Array(vec![object(vec![("RelType", Json::string("MemberOf"))])])),
        ])]),
    )])
}

fn sample_record(id: &str) -> PipelineRecord {
    PipelineRecord::new(id, "source", vec!["transform".to_string()], "dest", sample_payload())
}

#[test]
fn extract_without_data_array_is_empty() {
    let payloads = vec![
        Json::Null,
        Json::string("data"),
        Json::empty_object(),
        object(vec![("other", Json::Array(vec![sample_payload()]))]),
        object(vec![("data", Json::string("not an array"))]),
        object(vec![("data", object(vec![("Properties", Json::empty_object())]))]),
    ];
    for p in payloads.iter() {
        let g = BloodHoundExtractor::extract_from_json(p).unwrap();
        assert_eq!(g.nodes.len(), 0);
        assert_eq!(g.edges.len(), 0);
        assert_eq!(g.metadata.total_nodes, 0);
        assert_eq!(g.metadata.total_edges, 0);
    }
}

#[test]
fn extract_one_user_one_membership() {
    let g = BloodHoundExtractor::extract_from_json(&sample_payload()).unwrap();
    assert_eq!(g.nodes.len(), 1);
    assert_eq!(g.edges.len(), 1);
    assert_eq!(g.nodes[0].node_type, "user1");
    assert_eq!(g.nodes[0].label, "user1");
    assert_eq!(text_of(&g.nodes[0].properties, "name"), Some("testuser"));
    assert_eq!(g.edges[0].edge_type, "MemberOf");
    assert_eq!(text_of(&g.edges[0].properties, "RelType"), Some("MemberOf"));
    assert_eq!(g.metadata.total_nodes, 1);
    assert_eq!(g.metadata.total_edges, 1);
    assert_eq!(g.nodes[0].id.len(), 36);
    assert_eq!(g.edges[0].source.len(), 36);
    // Edge endpoints are fresh ids, not the node's id.
    assert_ne!(g.edges[0].source, g.nodes[0].id);
    assert_ne!(g.edges[0].target, g.nodes[0].id);
    assert_ne!(g.edges[0].source, g.edges[0].target);
}

#[test]
fn extract_defaults_and_skips() {
    let payload = object(vec![(
        "data",
        Json::Array(vec![
            object(vec![
                ("ObjectIdentifier", Json::unsigned(7)),
                ("Properties", Json::Null),
            ]),
            object(vec![("Name", Json::string("nothing to extract"))]),
            object(vec![("Rels", Json::Array(vec![Json::empty_object(), Json::Null]))]),
            object(vec![("Rels", Json::string("not an array"))]),
        ]),
    )]);
    let g = BloodHoundExtractor::extract_from_json(&payload).unwrap();
    assert_eq!(g.nodes.len(), 1);
    assert_eq!(g.nodes[0].node_type, "unknown");
    assert!(matches!(g.nodes[0].properties, Json::Null));
    assert_eq!(g.edges.len(), 2);
    assert_eq!(g.edges[0].edge_type, "unknown");
    assert_eq!(g.edges[1].edge_type, "unknown");
}

#[test]
fn create_then_get_reports_counts_and_active() {
    let mut orch = Orchestrator::new();
    let stats = orch.create_pipeline("p1", "src", "dst", &sample_payload()).unwrap();
    assert_eq!(stats.nodes_count, 1);
    assert_eq!(stats.edges_count, 1);
    let p = orch.get_pipeline("p1").unwrap();
    assert!(matches!(p.status, PipelineStatus::Active));
    let run = p.last_run.unwrap();
    assert_eq!(run.nodes_count, 1);
    assert_eq!(run.edges_count, 1);
    assert_eq!(p.created_at, run.processed_at);
    assert!(orch.get_pipeline("p2").is_none());
}

#[test]
fn create_twice_overwrites() {
    let mut orch = Orchestrator::new();
    orch.create_pipeline("p1", "src", "dst", &sample_payload()).unwrap();
    orch.create_pipeline("other", "src", "dst", &Json::Null).unwrap();
    assert_eq!(orch.list_pipelines().len(), 2);
    orch.create_pipeline("p1", "src2", "dst2", &Json::Null).unwrap();
    assert_eq!(orch.list_pipelines().len(), 2);
    let p = orch.get_pipeline("p1").unwrap();
    assert_eq!(p.source, "src2");
    assert_eq!(p.last_run.unwrap().nodes_count, 0);
    assert_eq!(p.last_run.unwrap().edges_count, 0);
}

#[test]
fn stop_unknown_is_not_found_and_changes_nothing() {
    let mut orch = Orchestrator::new();
    orch.create_pipeline("p1", "src", "dst", &Json::Null).unwrap();
    assert_eq!(orch.active_pipeline_count(), 1);
    let err = orch.stop_pipeline("missing").unwrap_err();
    assert_eq!(err.id, "missing");
    assert_eq!(orch.active_pipeline_count(), 1);
    assert!(matches!(orch.get_pipeline("p1").unwrap().status, PipelineStatus::Active));
}

#[test]
fn active_count_follows_creates_and_stops() {
    let mut orch = Orchestrator::new();
    assert_eq!(orch.active_pipeline_count(), 0);
    orch.create_pipeline("a", "s", "d", &Json::Null).unwrap();
    orch.create_pipeline("b", "s", "d", &Json::Null).unwrap();
    orch.create_pipeline("c", "s", "d", &Json::Null).unwrap();
    assert_eq!(orch.active_pipeline_count(), 3);
    orch.stop_pipeline("b").unwrap();
    assert_eq!(orch.active_pipeline_count(), 2);
    assert!(matches!(orch.get_pipeline("b").unwrap().status, PipelineStatus::Stopped));
    orch.stop_pipeline("b").unwrap();
    assert_eq!(orch.active_pipeline_count(), 2);
    orch.create_pipeline("b", "s", "d", &Json::Null).unwrap();
    assert_eq!(orch.active_pipeline_count(), 3);
    assert_eq!(orch.list_pipelines().len(), 3);
}

#[test]
fn increment_data_is_additive() {
    let mut monitor = Monitor::new();
    let s0 = monitor.get_stats();
    monitor.increment_data(40);
    let s1 = monitor.get_stats();
    monitor.increment_data(2);
    let s2 = monitor.get_stats();
    assert_eq!(s1.data_processed, 40);
    assert_eq!(s2.data_processed, 42);
    assert!(s1.last_update >= s0.last_update);
    assert!(s2.last_update >= s1.last_update);
    monitor.set_active_pipelines(3);
    assert_eq!(monitor.get_stats().active_pipelines, 3);
    assert_eq!(monitor.get_stats().data_processed, 42);
}

#[test]
fn queue_file_name_replaces_colons() {
    let record = sample_record("urn:pipe:7");
    assert_eq!(PipelineRegistry::file_name(&record), "urn_pipe_7.json");
    let plain = sample_record("test");
    assert_eq!(PipelineRegistry::file_name(&plain), "test.json");
    let registry = PipelineRegistry::new("work/pipelines");
    assert_eq!(registry.work_dir(), "work/pipelines");
    assert_eq!(record.transformers, vec!["transform".to_string()]);
}

#[test]
fn generated_ids_are_distinct() {
    let a = PipelineRegistry::generate_id();
    let b = PipelineRegistry::generate_id();
    assert_eq!(a.len(), 36);
    assert_ne!(a, b);
}

#[test]
fn worker_handles_good_and_malformed_files() {
    let mut orch = Orchestrator::new();
    let mut monitor = Monitor::new();
    let mut worker = QueueWorker::new(60);
    let mut moved: Vec<(String, Folder)> = Vec::new();
    let mut notices = 0;

    assert!(matches!(worker.step(WorkerEvent::Tick)[..], [WorkerAction::ListWorkDir]));
    let entries = vec![("processed", true), ("good.json", false), ("bad.json", false)];
    for (name, is_dir) in entries {
        let actions = worker.step(WorkerEvent::Entry { name: name.to_string(), is_dir });
        let mut pending = actions;
        while let Some(action) = pending.pop() {
            let next = match action {
                WorkerAction::ReadFile { file } => {
                    let record = if file == "good.json" { Some(sample_record("good")) } else { None };
                    worker.step(WorkerEvent::Loaded { record })
                }
                WorkerAction::Orchestrate { record } => {
                    let outcome = run_record(&mut orch, &record);
                    worker.step(WorkerEvent::Orchestrated { outcome })
                }
                WorkerAction::RecordRun { outcome } => {
                    record_run(&mut monitor, &outcome);
                    Vec::new()
                }
                WorkerAction::Notify { message } => {
                    assert_eq!(message.topic, "fire-marshal/pipelines");
                    assert_eq!(text_of(&message.payload, "pipeline_id"), Some("good"));
                    notices += 1;
                    Vec::new()
                }
                WorkerAction::MoveFile { file, folder } => {
                    moved.push((file, folder));
                    Vec::new()
                }
                other => panic!("unexpected action {:?}", other),
            };
            let mut next = next;
            next.reverse();
            pending.extend(next);
        }
    }
    let done = worker.step(WorkerEvent::ListDone);
    assert!(matches!(done[..], [WorkerAction::Sleep { secs: 60 }]));

    assert_eq!(moved.len(), 2);
    assert!(moved.contains(&("good.json".to_string(), Folder::Processed)));
    assert!(moved.contains(&("bad.json".to_string(), Folder::Failed)));
    assert_eq!(notices, 1);
    assert!(orch.get_pipeline("good").is_some());
    assert_eq!(orch.list_pipelines().len(), 1);
    assert_eq!(monitor.get_stats().data_processed, 2);
    assert_eq!(monitor.get_stats().active_pipelines, 1);
    assert!(worker.is_idle());
}

#[test]
fn empty_scan_requests_no_changes() {
    let mut worker = QueueWorker::new(1);
    assert_eq!(worker.interval_secs(), 5);
    assert!(matches!(worker.step(WorkerEvent::Tick)[..], [WorkerAction::ListWorkDir]));
    assert!(worker
        .step(WorkerEvent::Entry { name: "processed".to_string(), is_dir: true })
        .is_empty());
    assert!(worker
        .step(WorkerEvent::Entry { name: "failed".to_string(), is_dir: true })
        .is_empty());
    assert!(matches!(
        worker.step(WorkerEvent::ListDone)[..],
        [WorkerAction::Sleep { secs: 5 }]
    ));
    assert!(worker.is_idle());
}

#[test]
fn missing_work_dir_is_created() {
    let mut worker = QueueWorker::new(30);
    worker.step(WorkerEvent::Tick);
    let actions = worker.step(WorkerEvent::WorkDirMissing);
    assert!(matches!(
        actions[..],
        [WorkerAction::CreateWorkDir, WorkerAction::Sleep { secs: 30 }]
    ));
    assert!(worker.is_idle());
    assert!(worker.step(WorkerEvent::ListDone).is_empty());
    assert_eq!(Folder::Processed.dir_name(), "processed");
    assert_eq!(Folder::Failed.dir_name(), "failed");
}

#[test]
fn notice_payload_fields() {
    let mut orch = Orchestrator::new();
    let stats = orch.create_pipeline("p", "s", "d", &sample_payload()).unwrap();
    let m = pipeline_notice("p", "s", "d", &stats);
    assert_eq!(text_of(&m.payload, "event"), Some("pipeline_processed"));
    assert_eq!(text_of(&m.payload, "destination"), Some("d"));
    assert!(matches!(m.payload.get("nodes"), Some(Json::Number(JsonNumber::Unsigned(1)))));
    assert!(matches!(m.payload.get("edges"), Some(Json::Number(JsonNumber::Unsigned(1)))));
    assert_eq!(m.msg_id.len(), 36);
}

#[test]
fn metadata_replaces_earlier_value() {
    let m = NodeRedMessage::new("t".to_string(), Json::Null)
        .with_metadata("a".to_string(), Json::string("1"))
        .with_metadata("b".to_string(), Json::string("2"))
        .with_metadata("a".to_string(), Json::string("3"));
    assert_eq!(m.metadata.len(), 2);
    assert_eq!(m.metadata[0].0, "b");
    assert_eq!(m.metadata[1].0, "a");
    assert_eq!(m.metadata[1].1.as_str(), Some("3"));
}

#[test]
fn mqtt_operations_are_unsupported() {
    let mut bridge = MqttBridge::new("tcp://localhost:1883".to_string());
    assert!(matches!(bridge.connect(), Err(BridgeError::Unsupported(_))));
    let m = NodeRedMessage::new("t".to_string(), Json::Null);
    assert!(bridge.publish(&m).is_err());
    assert!(bridge.subscribe("t").is_err());
}

#[test]
fn jsonrpc_error_variants() {
    let no_version = object(vec![("method", Json::string("m"))]);
    assert_eq!(validate_jsonrpc_request(&no_version), Err(RpcError::MissingVersion));
    let wrong = object(vec![("jsonrpc", Json::string("1.0")), ("method", Json::string("m"))]);
    assert_eq!(validate_jsonrpc_request(&wrong), Err(RpcError::WrongVersion("1.0".to_string())));
    let no_method = object(vec![("jsonrpc", Json::string("2.0"))]);
    assert_eq!(validate_jsonrpc_request(&no_method), Err(RpcError::MissingMethod));
}

#[test]
fn jsonrpc_accessors_and_responses() {
    let req = object(vec![
        ("jsonrpc", Json::string("2.0")),
        ("method", Json::string("list")),
        ("id", Json::unsigned(9)),
    ]);
    assert_eq!(extract_method(&req), Some("list"));
    assert!(matches!(extract_id(&req), Some(Json::Number(JsonNumber::Unsigned(9)))));
    assert!(!is_notification(&req));
    assert!(matches!(extract_params(&req), Json::Object(ref ms) if ms.is_empty()));
    let note = object(vec![("method", Json::string("ping"))]);
    assert!(is_notification(&note));

    let err = format_error("E1", "broken", Some(Json::Bool(true)));
    assert_eq!(text_of(&err, "jsonrpc"), Some("2.0"));
    let body = err.get("error").unwrap();
    assert_eq!(text_of(body, "code"), Some("E1"));
    assert_eq!(text_of(body, "message"), Some("broken"));
    assert!(matches!(body.get("data"), Some(Json::Bool(true))));
    assert!(format_error("E1", "broken", None).get("error").unwrap().get("data").is_none());

    let ok = format_success(extract_id(&req), Json::string("done"));
    assert_eq!(text_of(&ok, "result"), Some("done"));
    assert!(matches!(ok.get("id"), Some(Json::Number(JsonNumber::Unsigned(9)))));
    assert!(format_success(None, Json::Null).get("id").is_none());
}

#[test]
fn sanitize_masks_every_word() {
    assert_eq!(
        sanitize_error_message("password token secret api_key ok"),
        "*** *** *** *** ok"
    );
}

#[test]
fn terminology_rules() {
    assert!(validate_terminology("investigation").is_ok());
    assert_eq!(
        validate_terminology("Threat HUNTING session").unwrap_err(),
        "Invalid terminology: 'hunt'. Use 'investigation' instead (CDIF compliance)"
    );
    assert_eq!(
        convert_to_fire_marshal("hunt the client; CLIENT SESSION"),
        "investigation the agent; AGENT CASE"
    );
    let c = CdifCompliance::new();
    let problems = c.validate(&Json::string("artifact")).unwrap_err();
    assert_eq!(problems.len(), 2);
    assert!(c.validate(&object(vec![("evidence_chain", Json::Null)])).is_ok());
}

#[test]
fn language_names() {
    assert_eq!(Language::from_str("GO").unwrap(), Language::Go);
    assert_eq!(Language::from_str("Js").unwrap(), Language::JavaScript);
    assert_eq!(Language::from_str("py").unwrap(), Language::Python);
    assert_eq!(Language::from_str("cobol").unwrap_err(), "Unsupported language: cobol");
    assert_eq!(Language::JavaScript.file_extensions(), vec!["js", "jsx", "ts", "tsx"]);
    assert_eq!(CodeParser::new().get_files_processed(), 0);
}

#[test]
fn logger_lines() {
    let logger = Logger::new(LogLevel::Warn);
    assert!(logger.info("quiet").is_none());
    assert!(logger.debug("quiet").is_none());
    assert_eq!(
        logger.format_line(LogLevel::Error, "boom", "T"),
        Some("[T] [ERROR] boom".to_string())
    );
    let line = logger.warn("careful").unwrap();
    assert!(line.starts_with('['));
    assert!(line.contains(" UTC] [WARN] "));
    assert!(line.ends_with("careful"));
    assert!(logger.error("x").is_some());
    assert!(Logger::default().info("y").is_some());
    assert!(Logger::default().trace("z").is_none());
}

#[test]
fn health_reports() {
    let mut status = HealthStatus::new();
    assert!(!status.is_healthy());
    status.update_api_health(true);
    assert!(status.is_healthy());
    assert!(status.last_api_check_timestamp.unwrap() > 0);
    status.update_api_health(false);
    assert_eq!(status.status, "degraded");
    assert!(!status.is_healthy());
    status.update_uptime(12);
    assert_eq!(status.uptime_seconds, 12);

    let mut checker = HealthChecker::new();
    checker.update_api_health(true);
    assert!(checker.is_healthy());
    let report = checker.get_health();
    assert!(report.uptime_seconds < 60);
    assert_eq!(report.status, "healthy");
}

#[test]
fn config_secret_and_path() {
    let c = Config::defaults_with_secret(Some("s3".to_string()));
    assert_eq!(c.auth.jwt_secret, "s3");
    assert_eq!(Config::default().auth.jwt_secret, "change-me-in-prod");
    assert_eq!(bloodsniffer_default_config_path(), "bloodsniffer.toml");
}

#[test]
fn submission_needs_transformers() {
    let refused = prepare_submission(Some("x".to_string()), "s", Vec::new(), "d", Json::Null);
    assert!(matches!(refused, Err(SubmissionError::NoTransformers)));
    let named = prepare_submission(Some("x".to_string()), "s", vec!["t".to_string()], "d", Json::Null)
        .unwrap();
    assert_eq!(named.id, "x");
    let fresh = prepare_submission(None, "s", vec!["t1".to_string(), "t2".to_string()], "d", Json::Null)
        .unwrap();
    assert_eq!(fresh.id.len(), 36);
    let notice = queued_notice(&fresh, "work/x.json");
    assert_eq!(notice.topic, "bloodsniffer/pipelines");
    assert_eq!(text_of(&notice.payload, "event"), Some("pipeline_queued"));
    assert_eq!(text_of(&notice.payload, "file"), Some("work/x.json"));
    match notice.payload.get("transformers") {
        Some(Json::Array(items)) => {
            assert_eq!(items.len(), 2);
            assert_eq!(items[1].as_str(), Some("t2"));
        }
        _ => panic!("transformers missing"),
    }
    let response = CreatePipelineResponse::queued("x", "work/x.json");
    assert_eq!(response.message, "Pipeline queued successfully");
}

#[test]
fn synchronous_path_messages() {
    let mut orch = Orchestrator::new();
    let mut monitor = Monitor::new();
    let record = sample_record("sync");
    let outcome = run_record(&mut orch, &record).unwrap();
    assert_eq!(outcome.active_count, 1);
    record_run(&mut monitor, &outcome);

    let notice = orchestrated_notice("sync", "source", "dest", &outcome.stats);
    assert!(notice.payload.get("event").is_none());
    assert_eq!(text_of(&notice.payload, "pipeline_id"), Some("sync"));

    let reply = orchestrate_response("sync", &outcome.stats);
    assert_eq!(text_of(&reply, "message"), Some("Pipeline orchestrated successfully"));
    assert!(matches!(reply.get("edges"), Some(Json::Number(JsonNumber::Unsigned(1)))));

    let report = monitoring_report(&monitor.get_stats());
    assert!(matches!(report.get("pipelines_active"), Some(Json::Number(JsonNumber::Unsigned(1)))));
    assert!(matches!(report.get("data_processed"), Some(Json::Number(JsonNumber::Unsigned(2)))));
    assert!(matches!(report.get("errors"), Some(Json::Number(JsonNumber::Unsigned(0)))));
}
