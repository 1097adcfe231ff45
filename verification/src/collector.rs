//! Collectors of host metrics. Everything that touches a device or the
//! operating system is performed by the caller; the functions here decide
//! what to ask for and what the answers mean.

pub mod bytes;
pub mod command;
pub mod discovery;
pub mod disk;
pub mod fetch;
pub mod json;
pub mod net;
pub mod nvme;
pub mod nvme_json;
pub mod pass;
pub mod payload;
pub mod services;
pub mod sys;
pub mod text;
pub mod tool;

pub use command::{identify_command, smart_log_command, AdminCommand};
pub use discovery::list_nvme_controllers;
pub use fetch::{collect_smart_log, get_nvme_id_ctrl_raw, get_nvme_smart_log_raw};
pub use net::get_if_data;
pub use nvme::{smart_log_from_kernel, NvmesSmartLog};
pub use payload::{combine_metrics, get_sysinfo, HostReadings};
pub use services::get_service_status;
pub use sys::{cpu_freq_json, get_hostname, get_timestamp, uptime_json};
pub use tool::manual_collect_smart_log;
