//! Local probe relay: configuration model, check verdicts, adaptive poll
//! scheduling and report delivery decisions.

pub mod dispatch;
pub mod reader;
pub mod report;
pub mod scheduler;
pub mod schema;
pub mod status;
pub mod text;
pub mod verdict;

pub use dispatch::{status, DispatchStep, ReportDispatch};
pub use reader::validate;
pub use report::{generate_url, ReportReplica, ReportRequest};
pub use scheduler::{after_attempt, next_delay, CycleStep};
pub use schema::{
    Config, ConfigMetrics, ConfigProbe, ConfigProbeService, ConfigProbeServiceNode,
    ConfigProbeServiceReplicaNode, ConfigProbeServiceScriptNode, ConfigReport, ConfigServer,
    HttpMethod, Mode, ReplicaURL,
};
pub use status::Status;
pub use verdict::{aggregate, CheckResult};
