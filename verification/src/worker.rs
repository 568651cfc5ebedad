use vstd::prelude::*;

verus! {

/// Settings of the background worker that polls the contracts.
#[derive(Debug, Clone)]
pub struct WorkerConfig {
    pub rpc_url: String,
    /// Seconds allowed for one polling round.
    pub poll_interval: u64,
    pub network: String,
}

impl Default for WorkerConfig {
    /// The testnet defaults: the public Soroban testnet RPC, 30-second rounds.
    fn default() -> (c: Self)
        ensures
            c.rpc_url@ == "https://soroban-testnet.stellar.org/"@,
            c.poll_interval == 30,
            c.network@ == "testnet"@,
    {
        WorkerConfig {
            rpc_url: "https://soroban-testnet.stellar.org/".to_string(),
            poll_interval: 30,
            network: "testnet".to_string(),
        }
    }
}

/// How the worker logs: the level asked for, the filter built from it, and
/// whether output is the production (JSON) form.
#[derive(Debug, Clone)]
pub struct LoggingSettings {
    pub log_level: String,
    pub filter: String,
    pub production: bool,
}

/// The logging settings from the values of `LOG_LEVEL` and `RUST_ENV`: the
/// level defaults to `info`, the filter is `worker=<level>`, and output is in
/// production form exactly when `RUST_ENV` is `production`.
pub fn logging_settings(log_level: Option<String>, rust_env: Option<String>) -> (r: LoggingSettings)
    ensures
        r.log_level@ == (match log_level {
            Some(l) => l@,
            None => "info"@,
        }),
        r.filter@ == "worker="@ + r.log_level@,
        r.production == (rust_env matches Some(e) && e@ == "production"@),
{
    let level = match log_level {
        Some(l) => l,
        None => "info".to_string(),
    };
    let mut filter = "worker=".to_string();
    filter.append(level.as_str());
    let production = match rust_env {
        Some(e) => e == "production".to_string(),
        None => false,
    };
    LoggingSettings { log_level: level, filter, production }
}

} // verus!
