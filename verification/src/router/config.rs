//! Settings of the router.

use vstd::prelude::*;
use crate::auth::config::{setting, setting_or};

verus! {

/// Settings of the router.
#[derive(Clone, Debug)]
pub struct Config {
    pub http_addr: String,
    pub auth_grpc_endpoint: String,
    pub notification_grpc_endpoint: String,
    pub subject_grpc_endpoint: String,
    pub project_grpc_endpoint: String,
    pub otel_endpoint: String,
    pub otel_service_name: String,
}

impl Config {
    /// Builds the settings from what the environment variables
    /// `ROUTER_ADDR`, `AUTH_GRPC_ENDPOINT`, `NOTIFICATION_GRPC_ENDPOINT`,
    /// `SUBJECT_GRPC_ENDPOINT`, `PROJECT_GRPC_ENDPOINT`,
    /// `OTEL_EXPORTER_OTLP_ENDPOINT` and `OTEL_SERVICE_NAME` hold (`None`
    /// where a variable is unset or not unicode).
    pub fn from_vars(
        http_addr: Option<String>,
        auth_grpc_endpoint: Option<String>,
        notification_grpc_endpoint: Option<String>,
        subject_grpc_endpoint: Option<String>,
        project_grpc_endpoint: Option<String>,
        otel_endpoint: Option<String>,
        otel_service_name: Option<String>,
    ) -> (c: Config)
        ensures
            c.http_addr@ == setting(http_addr, "0.0.0.0:8080"@),
            c.auth_grpc_endpoint@ == setting(auth_grpc_endpoint, "http://127.0.0.1:50051"@),
            c.notification_grpc_endpoint@ == setting(
                notification_grpc_endpoint,
                "http://127.0.0.1:50052"@,
            ),
            c.subject_grpc_endpoint@ == setting(subject_grpc_endpoint, "http://127.0.0.1:50053"@),
            c.project_grpc_endpoint@ == setting(project_grpc_endpoint, "http://127.0.0.1:50054"@),
            c.otel_endpoint@ == setting(otel_endpoint, "http://127.0.0.1:4317"@),
            c.otel_service_name@ == setting(otel_service_name, "router"@),
    {
        Config {
            http_addr: setting_or(http_addr, "0.0.0.0:8080"),
            auth_grpc_endpoint: setting_or(auth_grpc_endpoint, "http://127.0.0.1:50051"),
            notification_grpc_endpoint: setting_or(
                notification_grpc_endpoint,
                "http://127.0.0.1:50052",
            ),
            subject_grpc_endpoint: setting_or(subject_grpc_endpoint, "http://127.0.0.1:50053"),
            project_grpc_endpoint: setting_or(project_grpc_endpoint, "http://127.0.0.1:50054"),
            otel_endpoint: setting_or(otel_endpoint, "http://127.0.0.1:4317"),
            otel_service_name: setting_or(otel_service_name, "router"),
        }
    }
}

} // verus!
