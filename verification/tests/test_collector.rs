use serde_json::Value;
use sysinfo::{Disks, Networks, System};
use tinyd::collector::disk::disk_space;
use tinyd::collector::net::{get_if_data, InterfaceCounters};
use tinyd::collector::payload::{get_sysinfo, smart_log_json, HostReadings};
use tinyd::collector::sys::{cpu_freq_json, get_timestamp, uptime_json};
use tinyd::collector::text::escape_quotes;

/// A system instance with its readings taken.
fn create_test_system() -> System {
    let mut sys = System::new();
    sys.refresh_all();
    sys
}

/// The counters of the interfaces of this host.
fn read_interfaces() -> Vec<InterfaceCounters> {
    let networks = Networks::new_with_refreshed_list();
    networks
        .iter()
        .map(|(name, data)| InterfaceCounters {
            name: name.clone(),
            rx_bytes: data.total_received(),
            tx_bytes: data.total_transmitted(),
        })
        .collect()
}

/// The usage of the disks of this host, one object each.
fn read_disks() -> Vec<Value> {
    let disks = Disks::new_with_refreshed_list();
    disks
        .iter()
        .map(|disk| {
            let total = disk.total_space();
            let space = disk_space(total, disk.available_space().min(total));
            let used_percent =
                if total > 0 { (space.used as f64 / total as f64) * 100.0 } else { 0.0 };
            let mut object = serde_json::Map::new();
            object.insert(
                "mount".to_string(),
                Value::from(escape_quotes(&disk.mount_point().to_string_lossy())),
            );
            object.insert("total_gb".to_string(), Value::from(space.total_gb));
            object.insert("used_gb".to_string(), Value::from(space.used_gb));
            object.insert("used_percent".to_string(), Value::from(used_percent));
            Value::Object(object)
        })
        .collect()
}

/// All the metrics of this host, but for the health logs, which need a device.
fn host_sysinfo(sys: &System) -> Value {
    get_sysinfo(HostReadings {
        timestamp: get_timestamp(),
        hostname: System::host_name(),
        uptime: System::uptime(),
        first_cpu_mhz: sys.cpus().first().map(|cpu| cpu.frequency()),
        disk_usage: read_disks(),
        network: get_if_data(read_interfaces()),
        smart_log: smart_log_json(&Vec::new()),
    })
}

#[test]
fn test_uptime_json() {
    let _sys = create_test_system();
    let uptime_json = uptime_json(System::uptime());
    assert!(uptime_json.is_object());
    assert!(uptime_json["uptime"].is_string());
    let uptime_str = uptime_json["uptime"].as_str().unwrap();
    assert!(uptime_str.parse::<u64>().is_ok());
}

#[test]
fn test_cpu_freq_json() {
    let sys = create_test_system();
    let freq_json = cpu_freq_json(sys.cpus().first().map(|cpu| cpu.frequency()));
    assert!(freq_json.is_object());
    assert!(freq_json["cpu_freq_mhz"].is_string());
    let freq_str = freq_json["cpu_freq_mhz"].as_str().unwrap();
    assert!(freq_str.parse::<u64>().is_ok());
}

#[test]
fn test_get_if_data() {
    let interfaces = get_if_data(read_interfaces());
    assert!(interfaces.is_empty() || interfaces.len() > 0);
    for interface in &interfaces {
        assert!(interface.is_object());
        assert!(interface["interface"].is_string());
        assert!(interface["rx_bytes"].is_u64());
        assert!(interface["tx_bytes"].is_u64());
        let name = interface["interface"].as_str().unwrap();
        assert!(!name.is_empty());
    }
}

#[test]
fn test_get_sysinfo() {
    let sys = create_test_system();
    let sysinfo = host_sysinfo(&sys);
    assert!(sysinfo.is_object());
    assert!(sysinfo["timestamp"].is_u64());
    assert!(sysinfo["hostname"].is_string());
    assert!(sysinfo["uptime"].is_string());
    assert!(sysinfo["cpu_freq_mhz"].is_string());
    assert!(sysinfo["disk_usage"].is_array());
    assert!(sysinfo["network"].is_array());
    let timestamp = sysinfo["timestamp"].as_u64().unwrap();
    assert!(timestamp > 1_577_836_800, "Timestamp should be after 2020");
    let hostname = sysinfo["hostname"].as_str().unwrap();
    assert!(!hostname.is_empty());
    let uptime = sysinfo["uptime"].as_str().unwrap();
    assert!(uptime.parse::<u64>().is_ok());
    let cpu_freq = sysinfo["cpu_freq_mhz"].as_str().unwrap();
    assert!(cpu_freq.parse::<u64>().is_ok());
}

#[test]
fn test_json_escaping() {
    let sys = create_test_system();
    let sysinfo = host_sysinfo(&sys);
    let hostname = sysinfo["hostname"].as_str().unwrap();
    assert!(!hostname.contains("\"") || hostname.contains("\\\""));
}

#[test]
fn test_network_data_types() {
    let interfaces = get_if_data(read_interfaces());
    for interface in &interfaces {
        let rx_bytes = interface["rx_bytes"].as_u64().unwrap();
        let tx_bytes = interface["tx_bytes"].as_u64().unwrap();
        assert!(rx_bytes >= 0);
        assert!(tx_bytes >= 0);
    }
}

#[test]
fn test_performance() {
    let start = std::time::Instant::now();
    let sys = create_test_system();
    let _sysinfo = host_sysinfo(&sys);
    let duration = start.elapsed();
    assert!(duration.as_secs() < 1, "System info collection should be fast");
}
