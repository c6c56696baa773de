//! Server settings: each one taken from its override when given, else from
//! its default.
use vstd::prelude::*;

verus! {

pub struct AppConfig {
    pub bind_host: [u8; 4],
    pub port: u16,
    pub neo4j_uri: String,
    pub neo4j_user: String,
    pub neo4j_password: String,
    pub neo4j_database: String,
    pub request_timeout_secs: u64,
    pub max_concurrency: usize,
    pub max_body_bytes: usize,
}

/// Overrides for the settings; `None` keeps the default.
pub struct ConfigOverrides {
    pub neo4j_uri: Option<String>,
    pub neo4j_user: Option<String>,
    pub neo4j_password: Option<String>,
    pub neo4j_database: Option<String>,
    pub port: Option<u16>,
    pub request_timeout_secs: Option<u64>,
    pub max_concurrency: Option<usize>,
    pub max_body_bytes: Option<usize>,
}

pub const DEFAULT_URI: &'static str = "neo4j+s://demo.neo4jlabs.com";

pub const DEFAULT_CREDENTIAL: &'static str = "movies";

pub const DEFAULT_PORT: u16 = 8080;

pub const DEFAULT_TIMEOUT_SECS: u64 = 20;

pub const DEFAULT_MAX_CONCURRENCY: usize = 512;

pub const DEFAULT_MAX_BODY_BYTES: usize = 1_048_576;

pub open spec fn or_default(o: Option<String>, d: Seq<char>) -> Seq<char> {
    match o {
        Some(s) => s@,
        None => d,
    }
}

fn string_or(o: Option<String>, d: &str) -> (r: String)
    ensures
        r@ == or_default(o, d@),
{
    match o {
        Some(s) => s,
        None => d.to_owned(),
    }
}

impl AppConfig {
    /// The settings, listening on every interface.
    pub fn from_overrides(o: ConfigOverrides) -> (r: AppConfig)
        ensures
            r.bind_host@ == seq![0u8, 0u8, 0u8, 0u8],
            r.neo4j_uri@ == or_default(o.neo4j_uri, DEFAULT_URI@),
            r.neo4j_user@ == or_default(o.neo4j_user, DEFAULT_CREDENTIAL@),
            r.neo4j_password@ == or_default(o.neo4j_password, DEFAULT_CREDENTIAL@),
            r.neo4j_database@ == or_default(o.neo4j_database, DEFAULT_CREDENTIAL@),
            r.port == o.port.unwrap_or(DEFAULT_PORT),
            r.request_timeout_secs == o.request_timeout_secs.unwrap_or(DEFAULT_TIMEOUT_SECS),
            r.max_concurrency == o.max_concurrency.unwrap_or(DEFAULT_MAX_CONCURRENCY),
            r.max_body_bytes == o.max_body_bytes.unwrap_or(DEFAULT_MAX_BODY_BYTES),
    {
        let r = AppConfig {
            bind_host: [0, 0, 0, 0],
            port: o.port.unwrap_or(DEFAULT_PORT),
            neo4j_uri: string_or(o.neo4j_uri, DEFAULT_URI),
            neo4j_user: string_or(o.neo4j_user, DEFAULT_CREDENTIAL),
            neo4j_password: string_or(o.neo4j_password, DEFAULT_CREDENTIAL),
            neo4j_database: string_or(o.neo4j_database, DEFAULT_CREDENTIAL),
            request_timeout_secs: o.request_timeout_secs.unwrap_or(DEFAULT_TIMEOUT_SECS),
            max_concurrency: o.max_concurrency.unwrap_or(DEFAULT_MAX_CONCURRENCY),
            max_body_bytes: o.max_body_bytes.unwrap_or(DEFAULT_MAX_BODY_BYTES),
        };
        assert(r.bind_host@ =~= seq![0u8, 0u8, 0u8, 0u8]);
        r
    }
}

} // verus!
