use vstd::prelude::*;

verus! {

/// Process-wide settings, read once at startup and then only passed by reference.
pub struct Config {
    pub jwt_secret: String,
    pub grpc_server_port: String,
    pub metrics_server_port: String,
    pub jaeger_collector_url: String,
    pub surrealdb_url: String,
    pub surrealdb_password: String,
}

} // verus!
