use crate::error::MonitorError;
use crate::urls::{build_health_url, build_metrics_url, build_push_url, resolution, PUSH_PATH};
use vstd::prelude::*;

verus! {

/// The settings the monitor runs with, fixed at startup.
#[derive(Debug, Clone)]
pub struct MonitorConfig {
    pub backend: String,
    pub health: String,
    pub metrics: String,
    pub metrics_api_key: Option<String>,
    pub interval: u64,
    pub timeout: u64,
    pub push_mode: bool,
    pub push_api_key: Option<String>,
}

/// The absolute URLs that one run of the monitor talks to.
#[derive(Debug, Clone, PartialEq, Eq)]
pub struct Targets {
    pub health_url: String,
    pub metrics_url: String,
    /// Present exactly when push mode is on.
    pub push_url: Option<String>,
}

/// Whether every URL the configuration asks for can be built.
pub open spec fn targets_resolve(c: MonitorConfig) -> bool {
    &&& resolution(c.backend@, c.health@) is Ok
    &&& resolution(c.backend@, c.metrics@) is Ok
    &&& c.push_mode ==> resolution(c.backend@, PUSH_PATH@) is Ok
}

/// The error text of the first target that cannot be built, taken in the
/// order health, metrics, push.
pub open spec fn first_failure(c: MonitorConfig) -> Seq<char> {
    match resolution(c.backend@, c.health@) {
        Err(t) => t,
        Ok(_) => match resolution(c.backend@, c.metrics@) {
            Err(t) => t,
            Ok(_) => match resolution(c.backend@, PUSH_PATH@) {
                Err(t) => t,
                Ok(_) => Seq::empty(),
            },
        },
    }
}

impl Targets {
    /// Builds every target URL before the loop starts; the first one that
    /// cannot be built is the error, and the monitor does not start.
    pub fn build(config: &MonitorConfig) -> (r: Result<Targets, MonitorError>)
        ensures
            r is Ok <==> targets_resolve(*config),
            r is Err ==> r->Err_0 is InvalidUrl,
            r matches Err(MonitorError::InvalidUrl(t)) ==> t@ == first_failure(*config),
            r matches Ok(t) ==> {
                &&& resolution(config.backend@, config.health@) == Ok::<Seq<char>, Seq<char>>(
                    t.health_url@,
                )
                &&& resolution(config.backend@, config.metrics@) == Ok::<Seq<char>, Seq<char>>(
                    t.metrics_url@,
                )
                &&& (t.push_url is Some <==> config.push_mode)
                &&& t.push_url matches Some(p) ==> resolution(config.backend@, PUSH_PATH@) == Ok::<
                    Seq<char>,
                    Seq<char>,
                >(p@)
            },
    {
        let health_url = match build_health_url(config.backend.as_str(), config.health.as_str()) {
            Ok(u) => u,
            Err(e) => { return Err(e); },
        };
        let metrics_url = match build_metrics_url(config.backend.as_str(), config.metrics.as_str()) {
            Ok(u) => u,
            Err(e) => { return Err(e); },
        };
        let push_url = if config.push_mode {
            match build_push_url(config.backend.as_str()) {
                Ok(u) => Some(u),
                Err(e) => { return Err(e); },
            }
        } else {
            None
        };
        Ok(Targets { health_url, metrics_url, push_url })
    }
}

} // verus!

verus! {

/// A base URL that does not parse fails every URL built from it, with the
/// base text as the error, so the targets cannot be built and the loop
/// never starts.
pub proof fn invalid_base_prevents_start(config: MonitorConfig, path: Seq<char>)
    requires
        crate::urls::parsed_url(config.backend@) is None,
    ensures
        resolution(config.backend@, path) == Err::<Seq<char>, Seq<char>>(config.backend@),
        !targets_resolve(config),
{
}

} // verus!
