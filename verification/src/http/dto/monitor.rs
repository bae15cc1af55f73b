use vstd::prelude::*;
use vstd::std_specs::convert::FromSpecImpl;
use crate::entity::monitor;

verus! {

/// A monitor. `monitor_module_path` names the monitor's Python module.
pub struct MonitorResponse {
    pub id: i32,
    pub name: String,
    pub monitor_module_path: String,
    pub config_sha256: Option<String>,
}

impl From<monitor::Model> for MonitorResponse {
    fn from(m: monitor::Model) -> (res: Self) {
        MonitorResponse {
            id: m.id,
            name: m.name,
            monitor_module_path: m.monitor_module_path,
            config_sha256: m.config_sha256,
        }
    }
}

impl FromSpecImpl<monitor::Model> for MonitorResponse {
    open spec fn obeys_from_spec() -> bool {
        true
    }

    open spec fn from_spec(m: monitor::Model) -> MonitorResponse {
        MonitorResponse {
            id: m.id,
            name: m.name,
            monitor_module_path: m.monitor_module_path,
            config_sha256: m.config_sha256,
        }
    }
}

pub struct CreateMonitorRequest {
    pub name: String,
    pub monitor_module_path: String,
}

/// The monitor as an executor sees it in a claimed task.
pub struct MonitorExecutionDto {
    pub id: i32,
    pub name: String,
    pub monitor_module_path: String,
    pub config_sha256: Option<String>,
}

impl From<monitor::Model> for MonitorExecutionDto {
    fn from(m: monitor::Model) -> (res: Self) {
        MonitorExecutionDto {
            id: m.id,
            name: m.name,
            monitor_module_path: m.monitor_module_path,
            config_sha256: m.config_sha256,
        }
    }
}

impl FromSpecImpl<monitor::Model> for MonitorExecutionDto {
    open spec fn obeys_from_spec() -> bool {
        true
    }

    open spec fn from_spec(m: monitor::Model) -> MonitorExecutionDto {
        MonitorExecutionDto {
            id: m.id,
            name: m.name,
            monitor_module_path: m.monitor_module_path,
            config_sha256: m.config_sha256,
        }
    }
}

} // verus!
