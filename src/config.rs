//! Service configuration and its defaults. Reading and writing the
//! configuration file, and the environment lookup of the signing secret, are
//! the caller's part.
use vstd::prelude::*;

use crate::json::owned;

verus! {

/// The name of the configuration file.
pub fn bloodsniffer_default_config_path() -> (r: String)
    ensures
        r@ == "bloodsniffer.toml"@,
{
    owned("bloodsniffer.toml")
}

/// The signing secret used when none is configured.
pub const FALLBACK_JWT_SECRET: &'static str = "change-me-in-prod";

#[derive(Debug, Clone)]
pub struct ServerConfig {
    pub host: String,
    pub port: u16,
}

#[derive(Debug, Clone)]
pub struct DatabaseConfig {
    pub path: String,
}

#[derive(Debug, Clone)]
pub struct NodeRedConfig {
    pub mqtt_broker: Option<String>,
    pub http_endpoint: Option<String>,
}

#[derive(Debug, Clone)]
pub struct CryptexConfig {
    pub default_theme: String,
}

#[derive(Debug, Clone)]
pub struct GraphConfig {
    pub uri: String,
    pub username: String,
    pub password: String,
    pub driver: String,
}

/// Where the work queue lives and how often the worker scans it.
#[derive(Debug, Clone)]
pub struct PipelineConfig {
    pub work_dir: String,
    pub datapipe_interval_secs: u64,
}

#[derive(Debug, Clone)]
pub struct AuthConfig {
    pub jwt_secret: String,
    pub session_duration_hours: i64,
}

#[derive(Debug, Clone)]
pub struct DefaultAdminConfig {
    pub principal_name: String,
    pub password: String,
    pub email_address: String,
    pub first_name: String,
    pub last_name: String,
    pub expire_now: bool,
}

/// The whole service configuration.
#[derive(Debug, Clone)]
pub struct Config {
    pub server: ServerConfig,
    pub database: DatabaseConfig,
    pub node_red: NodeRedConfig,
    pub cryptex: CryptexConfig,
    pub graph: GraphConfig,
    pub pipeline: PipelineConfig,
    pub auth: AuthConfig,
    pub default_admin: DefaultAdminConfig,
}

impl Config {
    /// The defaults, signing with `jwt_secret` when one is configured and
    /// with `FALLBACK_JWT_SECRET` otherwise.
    pub fn defaults_with_secret(jwt_secret: Option<String>) -> (r: Config)
        ensures
            r.server.host@ == "127.0.0.1"@,
            r.server.port == 3000,
            r.database.path@ == "./data/bloodsniffer.redb"@,
            r.node_red.mqtt_broker matches Some(m) && m@ == "tcp://localhost:1883"@,
            r.node_red.http_endpoint matches Some(h) && h@ == "http://localhost:1880/bloodsniffer"@,
            r.cryptex.default_theme@ == "anarchist"@,
            r.graph.uri@ == "neo4j://localhost:7687"@,
            r.graph.username@ == "neo4j"@,
            r.graph.password@ == "ChangeMe123!"@,
            r.graph.driver@ == "neo4j"@,
            r.pipeline.work_dir@ == "./work/pipelines"@,
            r.pipeline.datapipe_interval_secs == 60,
            r.auth.jwt_secret@ == match jwt_secret {
                Some(s) => s@,
                None => FALLBACK_JWT_SECRET@,
            },
            r.auth.session_duration_hours == 24,
            r.default_admin.principal_name@ == "admin"@,
            r.default_admin.password@ == "ChangeMe123!"@,
            r.default_admin.email_address@ == "admin@bloodsniffer.local"@,
            r.default_admin.first_name@ == "Admin"@,
            r.default_admin.last_name@ == "User"@,
            !r.default_admin.expire_now,
    {
        let secret = match jwt_secret {
            Some(s) => s,
            None => owned(FALLBACK_JWT_SECRET),
        };
        Config {
            server: ServerConfig { host: owned("127.0.0.1"), port: 3000 },
            database: DatabaseConfig { path: owned("./data/bloodsniffer.redb") },
            node_red: NodeRedConfig {
                mqtt_broker: Some(owned("tcp://localhost:1883")),
                http_endpoint: Some(owned("http://localhost:1880/bloodsniffer")),
            },
            cryptex: CryptexConfig { default_theme: owned("anarchist") },
            graph: GraphConfig {
                uri: owned("neo4j://localhost:7687"),
                username: owned("neo4j"),
                password: owned("ChangeMe123!"),
                driver: owned("neo4j"),
            },
            pipeline: PipelineConfig {
                work_dir: owned("./work/pipelines"),
                datapipe_interval_secs: 60,
            },
            auth: AuthConfig { jwt_secret: secret, session_duration_hours: 24 },
            default_admin: DefaultAdminConfig {
                principal_name: owned("admin"),
                password: owned("ChangeMe123!"),
                email_address: owned("admin@bloodsniffer.local"),
                first_name: owned("Admin"),
                last_name: owned("User"),
                expire_now: false,
            },
        }
    }
}

impl Default for Config {
    /// The defaults with the fallback signing secret.
    fn default() -> (r: Config)
        ensures
            r.server.port == 3000,
            r.cryptex.default_theme@ == "anarchist"@,
            r.auth.jwt_secret@ == FALLBACK_JWT_SECRET@,
            r.auth.session_duration_hours == 24,
            r.graph.driver@ == "neo4j"@,
            r.pipeline.work_dir@ == "./work/pipelines"@,
            r.pipeline.datapipe_interval_secs == 60,
    {
        Config::defaults_with_secret(None)
    }
}

} // verus!
