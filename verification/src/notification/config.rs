//! Settings of the notification service.

use vstd::prelude::*;
use crate::auth::config::{setting, setting_or};

verus! {

/// Settings of the notification service.
#[derive(Clone, Debug)]
pub struct Config {
    pub grpc_addr: String,
    pub db_path: String,
    pub otel_endpoint: String,
    pub otel_service_name: String,
}

impl Config {
    /// Builds the settings from what the environment variables
    /// `NOTIFICATION_SERVICE_ADDR`, `DB_PATH`, `OTEL_EXPORTER_OTLP_ENDPOINT`
    /// and `OTEL_SERVICE_NAME` hold (`None` where a variable is unset or not
    /// unicode).
    pub fn from_vars(
        grpc_addr: Option<String>,
        db_path: Option<String>,
        otel_endpoint: Option<String>,
        otel_service_name: Option<String>,
    ) -> (c: Config)
        ensures
            c.grpc_addr@ == setting(grpc_addr, "0.0.0.0:50052"@),
            c.db_path@ == setting(db_path, "/data/notification-db"@),
            c.otel_endpoint@ == setting(otel_endpoint, "http://127.0.0.1:4317"@),
            c.otel_service_name@ == setting(otel_service_name, "notification-service"@),
    {
        Config {
            grpc_addr: setting_or(grpc_addr, "0.0.0.0:50052"),
            db_path: setting_or(db_path, "/data/notification-db"),
            otel_endpoint: setting_or(otel_endpoint, "http://127.0.0.1:4317"),
            otel_service_name: setting_or(otel_service_name, "notification-service"),
        }
    }
}

} // verus!
