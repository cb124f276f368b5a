//! Settings of the authentication service.

use vstd::prelude::*;
use crate::text::{ascii_lowercase, owned, str_eq, to_ascii_lowercase, trim, trim_white_space};

verus! {

/// The text a setting takes: what its variable holds, or the default.
pub open spec fn setting(value: Option<String>, default: Seq<char>) -> Seq<char> {
    match value {
        Some(v) => v@,
        None => default,
    }
}

/// Reads a setting, falling back to `default`.
pub fn setting_or(value: Option<String>, default: &str) -> (res: String)
    ensures
        res@ == setting(value, default@),
{
    match value {
        Some(v) => v,
        None => owned(default),
    }
}

/// Whether the demo users are seeded: yes when the variable is unset, and
/// otherwise when its text, trimmed and lower-cased (ASCII), is "1",
/// "true", "yes" or "on".
pub open spec fn spec_seed_flag(value: Option<Seq<char>>) -> bool {
    match value {
        None => true,
        Some(v) => {
            let t = ascii_lowercase(trim_white_space(v));
            t == "1"@ || t == "true"@ || t == "yes"@ || t == "on"@
        },
    }
}

pub fn parse_seed_flag(value: Option<&str>) -> (res: bool)
    ensures
        res == spec_seed_flag(
            match value {
                Some(v) => Some(v@),
                None => None,
            },
        ),
{
    match value {
        None => true,
        Some(v) => {
            let trimmed = trim(v);
            let lower = to_ascii_lowercase(trimmed.as_str());
            let t = lower.as_str();
            str_eq(t, "1") || str_eq(t, "true") || str_eq(t, "yes") || str_eq(t, "on")
        },
    }
}

/// Settings of the authentication service.
#[derive(Clone, Debug)]
pub struct Config {
    pub grpc_addr: String,
    pub db_path: String,
    pub surreal_namespace: String,
    pub surreal_database: String,
    pub jwt_secret: String,
    pub seed_demo_users: bool,
    pub otel_endpoint: String,
    pub otel_service_name: String,
}

impl Config {
    /// Builds the settings from what the environment variables
    /// `AUTH_SERVICE_ADDR`, `DB_PATH`, `SURREAL_NAMESPACE`,
    /// `SURREAL_DATABASE`, `JWT_SECRET`, `SEED_DEMO_USERS`,
    /// `OTEL_EXPORTER_OTLP_ENDPOINT` and `OTEL_SERVICE_NAME` hold (`None`
    /// where a variable is unset or not unicode).
    pub fn from_vars(
        grpc_addr: Option<String>,
        db_path: Option<String>,
        surreal_namespace: Option<String>,
        surreal_database: Option<String>,
        jwt_secret: Option<String>,
        seed_demo_users: Option<String>,
        otel_endpoint: Option<String>,
        otel_service_name: Option<String>,
    ) -> (c: Config)
        ensures
            c.grpc_addr@ == setting(grpc_addr, "0.0.0.0:50051"@),
            c.db_path@ == setting(db_path, "/data/auth-db"@),
            c.surreal_namespace@ == setting(surreal_namespace, "university_auth"@),
            c.surreal_database@ == setting(surreal_database, "auth"@),
            c.jwt_secret@ == setting(jwt_secret, "change-me-in-production"@),
            c.seed_demo_users == spec_seed_flag(
                match seed_demo_users {
                    Some(v) => Some(v@),
                    None => None,
                },
            ),
            c.otel_endpoint@ == setting(otel_endpoint, "http://127.0.0.1:4317"@),
            c.otel_service_name@ == setting(otel_service_name, "auth-service"@),
    {
        let seed = match &seed_demo_users {
            Some(v) => parse_seed_flag(Some(v.as_str())),
            None => parse_seed_flag(None),
        };
        Config {
            grpc_addr: setting_or(grpc_addr, "0.0.0.0:50051"),
            db_path: setting_or(db_path, "/data/auth-db"),
            surreal_namespace: setting_or(surreal_namespace, "university_auth"),
            surreal_database: setting_or(surreal_database, "auth"),
            jwt_secret: setting_or(jwt_secret, "change-me-in-production"),
            seed_demo_users: seed,
            otel_endpoint: setting_or(otel_endpoint, "http://127.0.0.1:4317"),
            otel_service_name: setting_or(otel_service_name, "auth-service"),
        }
    }
}

} // verus!
