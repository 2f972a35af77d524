use fire_marshal::branding::{Manifesto, PyroTheme};
use fire_marshal::bridge::{MqttBridge, NodeRedMessage, PipelineBuilder};
use fire_marshal::config::Config;
use fire_marshal::extractor::BloodHoundExtractor;
use fire_marshal::gap_analysis::GapAnalyzer;
use fire_marshal::json::Json;
use fire_marshal::monitoring::Monitor;
use fire_marshal::orchestrator::Orchestrator;
use fire_marshal::utils::{sanitize_error_message, validate_jsonrpc_request, validate_url};

fn object(members: Vec<(&str, Json)>) -> Json {
    let mut j = Json::empty_object();
    for (k, v) in members {
        j = j.with_member(k, v);
    }
    j
}

#[test]
fn test_monitor() {
    let mut monitor = Monitor::new();
    monitor.increment_data(100);
    monitor.increment_errors();

    let stats = monitor.get_stats();
    assert_eq!(stats.data_processed, 100);
    assert_eq!(stats.errors, 1);
}

#[test]
fn test_orchestrator() {
    let mut orch = Orchestrator::new();
    let payload = object(vec![(
        "data",
        Json::Array(vec![object(vec![
            ("ObjectIdentifier", Json::string("user1")),
            ("Properties", object(vec![("name", Json::string("testuser"))])),
            ("Rels", Json::Array(vec![])),
        ])]),
    )]);
    orch.create_pipeline("test1", "source1", "dest1", &payload).unwrap();

    let pipeline = orch.get_pipeline("test1").unwrap();
    assert_eq!(pipeline.source, "source1");
    assert!(pipeline.last_run.is_some());
}

#[test]
fn test_gap_analyzer() {
    let analyzer = GapAnalyzer::new();
    assert!(analyzer.parser().get_files_processed() == 0);
}

#[test]
fn test_message_creation() {
    let msg = NodeRedMessage::new(
        "pyro/data".to_string(),
        object(vec![("fire", Json::string("burns"))]),
    );

    assert_eq!(msg.topic, "pyro/data");
    assert!(!msg.msg_id.is_empty());
}

#[test]
fn test_pipeline_builder() {
    let pipeline = PipelineBuilder::new("cryptex".to_string())
        .transform("decrypt".to_string())
        .transform("parse".to_string())
        .to("node-red".to_string())
        .build();

    assert_eq!(pipeline.source, "cryptex");
    assert_eq!(pipeline.transformers.len(), 2);
    assert_eq!(pipeline.destination, "node-red");
}

#[test]
fn test_mqtt_bridge_creation() {
    let bridge = MqttBridge::new("tcp://localhost:1883".to_string());
    assert_eq!(bridge.broker_url(), "tcp://localhost:1883");
}

#[test]
fn test_themes() {
    let anarchist = PyroTheme::anarchist();
    assert_eq!(anarchist.name, "Anarchist Flame");

    let fire_marshal = PyroTheme::fire_marshal();
    assert_eq!(fire_marshal.name, "Fire Marshal");
}

#[test]
fn test_principles() {
    let principles = Manifesto::principles();
    assert!(!principles.is_empty());
    assert!(principles[0].contains("Autonomous"));
}

#[test]
fn test_default_config() {
    let config = Config::default();
    assert_eq!(config.server.port, 3000);
    assert_eq!(config.cryptex.default_theme, "anarchist");
    assert_eq!(config.auth.session_duration_hours, 24);
    assert!(!config.auth.jwt_secret.is_empty());
    assert_eq!(config.graph.driver, "neo4j");
    assert_eq!(config.pipeline.datapipe_interval_secs, 60);
    assert!(config.pipeline.work_dir.ends_with("work/pipelines"));
}

#[test]
fn test_extract_from_json() {
    let json = object(vec![(
        "data",
        Json::Array(vec![object(vec![
            ("ObjectIdentifier", Json::string("user1")),
            ("Properties", object(vec![("name", Json::string("testuser"))])),
            (
                "Rels",
                Json::Array(vec![object(vec![
                    ("RelType", Json::string("MemberOf")),
                    ("TargetObjectIdentifier", Json::string("group1")),
                ])]),
            ),
        ])]),
    )]);

    let result = BloodHoundExtractor::extract_from_json(&json).unwrap();
    assert!(result.nodes.len() > 0);
    assert_eq!(result.metadata.source, "bloodhound");
}

#[test]
fn test_validate_jsonrpc_request() {
    let valid = object(vec![
        ("jsonrpc", Json::string("2.0")),
        ("id", Json::unsigned(1)),
        ("method", Json::string("test_method")),
        ("params", Json::empty_object()),
    ]);
    assert!(validate_jsonrpc_request(&valid).is_ok());

    let invalid = object(vec![
        ("jsonrpc", Json::string("1.0")),
        ("method", Json::string("test_method")),
    ]);
    assert!(validate_jsonrpc_request(&invalid).is_err());
}

#[test]
fn test_sanitize_error_message() {
    let msg = "Authentication failed: password is incorrect";
    let sanitized = sanitize_error_message(msg);
    assert!(!sanitized.contains("password"));
    assert!(sanitized.contains("***"));
}

#[test]
fn test_validate_url() {
    assert!(validate_url("http://localhost:3001").is_ok());
    assert!(validate_url("https://api.example.com").is_ok());
    assert!(validate_url("not-a-url").is_err());
}
