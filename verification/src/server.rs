//! Sizing of the upload server.
//!
//! A server couples the resolved runtime configuration with a worker
//! count equal to the core count of the host.  Binding the socket,
//! accepting connections and driving the handlers is asynchronous work
//! that the surrounding process performs; it reads both fields from
//! here and hands every request to the verified decision in
//! [`crate::handle::upload_service`].

use vstd::prelude::*;
use crate::config::RuntimeConfig;

verus! {

/// Relies on num_cpus::get: the number of logical cores available to
/// the process, which its documentation promises is always at least 1.
#[verifier::external_body]
fn cpu_count() -> (r: usize)
    ensures
        r >= 1,
{
    num_cpus::get()
}

/// The upload server: its configuration and its worker count.
pub struct Server {
    pub conf: RuntimeConfig,
    pub threads: usize,
}

impl Server {
    /// Couples the configuration with a worker count equal to the
    /// number of available cores.
    pub fn new(config: RuntimeConfig) -> (r: Server)
        ensures
            r.conf == config,
            r.threads >= 1,
    {
        let cpus = cpu_count();
        Server { conf: config, threads: cpus }
    }
}

} // verus!
