//! A periodic health and metrics poller: the verified decisions behind it.

pub mod error;
pub mod urls;
pub mod config;
pub mod headers;
pub mod report;
pub mod snapshot;
pub mod monitor;

pub use config::{MonitorConfig, Targets};
pub use error::MonitorError;
pub use headers::{metrics_key_header, push_key_header, KeyHeader, METRICS_KEY_HEADER, PUSH_KEY_HEADER};
pub use monitor::{Action, Event, Monitor, Phase, Signal};
pub use report::{health_report, health_response, is_success, poll_response, HealthReport, PollResult,
    STATUS_MEMBER};
pub use snapshot::{Percent, SystemSnapshot};
pub use urls::{build_health_url, build_metrics_url, build_push_url, resolve_url, PUSH_PATH};
