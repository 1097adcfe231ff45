use serde_json::Value;
use tinyd::collector::net::{get_if_data, interface_json, InterfaceCounters};
use tinyd::collector::nvme::NvmesSmartLog;
use tinyd::collector::nvme_json::smart_log_from_json;
use tinyd::collector::payload::{
    combine_metrics, envelope, get_sysinfo, single_metrics, smart_log_json, HostReadings,
};
use tinyd::collector::services::{
    get_service_active_status, get_service_status, service_manager_arguments,
    service_manager_program, trim, white_space, ServiceReading,
};
use tinyd::collector::sys::{cpu_freq_json, uptime_json};
use tinyd::collector::tool::{
    manual_collect_smart_log, manual_smart_log, tool_arguments, tool_program, ToolError,
    ToolFailure, ToolReply, ToolRun,
};

fn absent(name: &str) -> NvmesSmartLog {
    NvmesSmartLog {
        nvme_name: name.to_string(),
        critical_warning: None,
        temperature: None,
        avail_spare: None,
        spare_thresh: None,
        percent_used: None,
        endurance_grp_critical_warning_summary: None,
        data_units_read: None,
        data_units_written: None,
        host_read_commands: None,
        host_write_commands: None,
        controller_busy_time: None,
        power_cycles: None,
        power_on_hours: None,
        unsafe_shutdowns: None,
        media_errors: None,
        num_err_log_entries: None,
        warning_temp_time: None,
        critical_comp_time: None,
        temperature_sensor_1: None,
        temperature_sensor_2: None,
        temperature_sensor_3: None,
        temperature_sensor_4: None,
        temperature_sensor_5: None,
        temperature_sensor_6: None,
        temperature_sensor_7: None,
        temperature_sensor_8: None,
        thm_temp1_trans_count: None,
        thm_temp2_trans_count: None,
        thm_temp1_total_time: None,
        thm_temp2_total_time: None,
    }
}

/// A record in which every present reading has a value of its own.
fn mixed() -> NvmesSmartLog {
    NvmesSmartLog {
        nvme_name: "nvme0".to_string(),
        critical_warning: Some(0),
        temperature: Some(310),
        avail_spare: Some(100),
        spare_thresh: Some(10),
        percent_used: Some(101),
        endurance_grp_critical_warning_summary: None,
        data_units_read: Some(12345),
        data_units_written: Some(u64::MAX),
        host_read_commands: Some(3),
        host_write_commands: Some(4),
        controller_busy_time: Some(5),
        power_cycles: Some(6),
        power_on_hours: Some(7),
        unsafe_shutdowns: Some(8),
        media_errors: Some(9),
        num_err_log_entries: Some(10),
        warning_temp_time: Some(11),
        critical_comp_time: Some(12),
        temperature_sensor_1: Some(311),
        temperature_sensor_2: None,
        temperature_sensor_3: Some(313),
        temperature_sensor_4: None,
        temperature_sensor_5: Some(315),
        temperature_sensor_6: None,
        temperature_sensor_7: Some(317),
        temperature_sensor_8: None,
        thm_temp1_trans_count: Some(21),
        thm_temp2_trans_count: Some(22),
        thm_temp1_total_time: Some(23),
        thm_temp2_total_time: Some(24),
    }
}

fn printed(text: &str) -> ToolReply {
    ToolReply::Exited { success: true, stdout: text.as_bytes().to_vec(), stderr: Vec::new() }
}

#[test]
fn record_as_json_object() {
    let doc = mixed().to_json();
    let members = doc.as_object().unwrap();
    assert_eq!(members.len(), 31);
    assert_eq!(doc["nvme_name"], Value::from("nvme0"));
    assert_eq!(doc["critical_warning"], Value::from(0u64));
    assert_eq!(doc["temperature"], Value::from(310u64));
    assert_eq!(doc["percent_used"], Value::from(101u64));
    assert_eq!(doc["endurance_grp_critical_warning_summary"], Value::Null);
    assert!(members.contains_key("endurance_grp_critical_warning_summary"));
    assert_eq!(doc["data_units_written"].as_u64(), Some(u64::MAX));
    assert_eq!(doc["temperature_sensor_2"], Value::Null);
    assert_eq!(doc["temperature_sensor_7"], Value::from(317u64));
    assert_eq!(doc["thm_temp2_total_time"], Value::from(24u64));
}

#[test]
fn written_record_reads_back() {
    let record = mixed();
    assert_eq!(smart_log_from_json("nvme0".to_string(), &record.to_json()), record);
    let nothing = absent("nvme9");
    assert_eq!(smart_log_from_json("nvme9".to_string(), &nothing.to_json()), nothing);
}

#[test]
fn zero_and_absent_stay_apart() {
    let mut record = absent("nvme0");
    record.critical_warning = Some(0);
    let back = smart_log_from_json("nvme0".to_string(), &record.to_json());
    assert_eq!(back.critical_warning, Some(0));
    assert_eq!(back.temperature, None);
    assert_eq!(back, record);
}

#[test]
fn record_survives_the_text() {
    let record = mixed();
    let text = serde_json::to_vec(&record.to_json()).unwrap();
    let back = manual_smart_log(
        "nvme0".to_string(),
        ToolReply::Exited { success: true, stdout: text, stderr: Vec::new() },
    );
    assert_eq!(back, Ok(record));
}

#[test]
fn members_that_are_no_unsigned_integer_are_absent() {
    let text = "{\"critical_warning\": -1, \"temperature\": 310.5, \"avail_spare\": \"100\", \
                \"spare_thresh\": null, \"percent_used\": 18446744073709551616, \
                \"power_cycles\": 18446744073709551615, \"media_errors\": [1], \
                \"unsafe_shutdowns\": true, \"power_on_hours\": 7}";
    let doc: Value = serde_json::from_str(text).unwrap();
    let mut expected = absent("nvme0");
    expected.power_cycles = Some(u64::MAX);
    expected.power_on_hours = Some(7);
    assert_eq!(smart_log_from_json("nvme0".to_string(), &doc), expected);
}

#[test]
fn document_that_is_no_object_gives_an_empty_record() {
    let doc: Value = serde_json::from_str("[1, 2, 3]").unwrap();
    assert_eq!(smart_log_from_json("nvme0".to_string(), &doc), absent("nvme0"));
    assert_eq!(manual_smart_log("nvme1".to_string(), printed("17")), Ok(absent("nvme1")));
}

#[test]
fn tool_output_is_read() {
    let text = "{\n  \"critical_warning\" : 0,\n  \"temperature\" : 310,\n  \"avail_spare\" : 100,\n  \
                \"spare_thresh\" : 10,\n  \"percent_used\" : 2,\n  \
                \"endurance_grp_critical_warning_summary\" : 0,\n  \"data_units_read\" : 12345,\n  \
                \"data_units_written\" : 67890,\n  \"host_read_commands\" : 1000001,\n  \
                \"host_write_commands\" : 2000002,\n  \"controller_busy_time\" : 333,\n  \
                \"power_cycles\" : 44,\n  \"power_on_hours\" : 5555,\n  \"unsafe_shutdowns\" : 6,\n  \
                \"media_errors\" : 0,\n  \"num_err_log_entries\" : 888,\n  \"warning_temp_time\" : 0,\n  \
                \"critical_comp_time\" : 0,\n  \"temperature_sensor_1\" : 311,\n  \
                \"temperature_sensor_2\" : 312,\n  \"thm_temp1_trans_count\" : 0,\n  \
                \"thm_temp2_trans_count\" : 0,\n  \"thm_temp1_total_time\" : 0,\n  \
                \"thm_temp2_total_time\" : 0\n}\n";
    let record = manual_smart_log("nvme0".to_string(), printed(text)).unwrap();
    let mut expected = absent("nvme0");
    expected.critical_warning = Some(0);
    expected.temperature = Some(310);
    expected.avail_spare = Some(100);
    expected.spare_thresh = Some(10);
    expected.percent_used = Some(2);
    expected.endurance_grp_critical_warning_summary = Some(0);
    expected.data_units_read = Some(12345);
    expected.data_units_written = Some(67890);
    expected.host_read_commands = Some(1_000_001);
    expected.host_write_commands = Some(2_000_002);
    expected.controller_busy_time = Some(333);
    expected.power_cycles = Some(44);
    expected.power_on_hours = Some(5555);
    expected.unsafe_shutdowns = Some(6);
    expected.media_errors = Some(0);
    expected.num_err_log_entries = Some(888);
    expected.warning_temp_time = Some(0);
    expected.critical_comp_time = Some(0);
    expected.temperature_sensor_1 = Some(311);
    expected.temperature_sensor_2 = Some(312);
    expected.thm_temp1_trans_count = Some(0);
    expected.thm_temp2_trans_count = Some(0);
    expected.thm_temp1_total_time = Some(0);
    expected.thm_temp2_total_time = Some(0);
    assert_eq!(record, expected);
}

#[test]
fn each_way_a_run_fails() {
    assert_eq!(
        manual_smart_log(
            "nvme0".to_string(),
            ToolReply::SpawnFailed { reason: "No such file or directory".to_string() }
        ),
        Err(ToolError::Spawn { reason: "No such file or directory".to_string() })
    );
    assert_eq!(
        manual_smart_log(
            "nvme0".to_string(),
            ToolReply::Exited {
                success: false,
                stdout: b"{\"temperature\": 1}".to_vec(),
                stderr: b"permission denied".to_vec()
            }
        ),
        Err(ToolError::Exit { stderr: b"permission denied".to_vec() })
    );
    let parsed = manual_smart_log("nvme0".to_string(), printed("{\"temperature\": "));
    assert!(matches!(parsed, Err(ToolError::Parse { .. })));
    let parsed = manual_smart_log("nvme0".to_string(), printed(""));
    assert!(matches!(parsed, Err(ToolError::Parse { .. })));
    if let Err(ToolError::Parse { reason }) = parsed {
        assert!(!reason.is_empty());
    }
}

#[test]
fn tool_pass_keeps_order_and_isolates_failures() {
    let runs = vec![
        ToolRun { nvme_name: "nvme0".to_string(), reply: printed("{\"temperature\": 300}") },
        ToolRun {
            nvme_name: "nvme1".to_string(),
            reply: ToolReply::SpawnFailed { reason: "gone".to_string() },
        },
        ToolRun { nvme_name: "nvme2".to_string(), reply: printed("not json") },
        ToolRun { nvme_name: "nvme3".to_string(), reply: printed("{\"temperature\": 303}") },
        ToolRun {
            nvme_name: "nvme4".to_string(),
            reply: ToolReply::Exited { success: false, stdout: Vec::new(), stderr: b"no".to_vec() },
        },
    ];
    let collection = manual_collect_smart_log(runs);
    let mut first = absent("nvme0");
    first.temperature = Some(300);
    let mut second = absent("nvme3");
    second.temperature = Some(303);
    assert_eq!(collection.records, vec![first, second]);
    assert_eq!(collection.failures.len(), 3);
    assert_eq!(
        collection.failures[0],
        ToolFailure {
            nvme_name: "nvme1".to_string(),
            cause: ToolError::Spawn { reason: "gone".to_string() }
        }
    );
    assert_eq!(collection.failures[1].nvme_name, "nvme2");
    assert!(matches!(collection.failures[1].cause, ToolError::Parse { .. }));
    assert_eq!(
        collection.failures[2],
        ToolFailure { nvme_name: "nvme4".to_string(), cause: ToolError::Exit { stderr: b"no".to_vec() } }
    );
    let nothing = manual_collect_smart_log(Vec::new());
    assert!(nothing.records.is_empty() && nothing.failures.is_empty());
}

#[test]
fn tool_command_line() {
    assert_eq!(tool_program(), "nvme");
    assert_eq!(tool_arguments("/dev/nvme0"), vec!["smart-log", "/dev/nvme0", "-o", "json"]);
}

#[test]
fn uptime_and_frequency_objects() {
    let doc = uptime_json(86_400);
    assert_eq!(doc.as_object().unwrap().len(), 1);
    assert_eq!(doc["uptime"], Value::from("86400"));
    let doc = cpu_freq_json(Some(3200));
    assert_eq!(doc.as_object().unwrap().len(), 1);
    assert_eq!(doc["cpu_freq_mhz"], Value::from("3200"));
    assert_eq!(cpu_freq_json(None)["cpu_freq_mhz"], Value::from("0"));
}

#[test]
fn interface_objects() {
    let lo = InterfaceCounters { name: "lo".to_string(), rx_bytes: 10, tx_bytes: 20 };
    let odd = InterfaceCounters { name: "e\"0".to_string(), rx_bytes: u64::MAX, tx_bytes: 0 };
    let doc = interface_json(&lo);
    assert_eq!(doc.as_object().unwrap().len(), 3);
    assert_eq!(doc["interface"], Value::from("lo"));
    assert_eq!(doc["rx_bytes"], Value::from(10u64));
    assert_eq!(doc["tx_bytes"], Value::from(20u64));
    let docs = get_if_data(vec![lo, odd]);
    assert_eq!(docs.len(), 2);
    assert_eq!(docs[0]["interface"], Value::from("lo"));
    assert_eq!(docs[1]["interface"], Value::from("e\\\"0"));
    assert_eq!(docs[1]["rx_bytes"].as_u64(), Some(u64::MAX));
    assert_eq!(docs[1]["tx_bytes"].as_u64(), Some(0));
    assert!(get_if_data(Vec::new()).is_empty());
}

#[test]
fn service_status_text() {
    assert_eq!(get_service_active_status(&None), "error");
    assert_eq!(get_service_active_status(&Some(b"active\n".to_vec())), "active");
    assert_eq!(get_service_active_status(&Some(b"  in active \t\r\n".to_vec())), "in active");
    assert_eq!(get_service_active_status(&Some(b"".to_vec())), "");
    assert_eq!(get_service_active_status(&Some(b" \n ".to_vec())), "");
    assert_eq!(get_service_active_status(&Some(vec![0xFF, 0xFE])), "unknown");
    assert_eq!(get_service_active_status(&Some(vec![b'o', b'k', 0xC3])), "unknown");
    assert_eq!(
        get_service_active_status(&Some("\u{3000}\u{e9}t\u{e9}\u{a0}\u{2028}".as_bytes().to_vec())),
        "\u{e9}t\u{e9}"
    );
}

#[test]
fn trim_is_the_trim_of_the_standard_library() {
    let samples = [
        "",
        " ",
        "a",
        " a",
        "a ",
        "  a b  ",
        "\t\n\u{b}\u{c}\r x \u{85}\u{a0}\u{1680}",
        "\u{2000}\u{2001}\u{2002}\u{2003}\u{2004}\u{2005}x\u{2006}\u{2007}\u{2008}\u{2009}\u{200a}",
        "\u{2028}\u{2029}\u{202f}\u{205f}\u{3000}y\u{3000}",
        "\u{200b}z\u{200b}",
        "\u{feff}w",
        "\u{1c}v\u{1f}",
    ];
    for sample in samples {
        assert_eq!(trim(sample), sample.trim(), "{:?}", sample);
    }
}

#[test]
fn white_space_is_the_unicode_property() {
    for code in 0..=0x10FFFFu32 {
        if let Some(ch) = char::from_u32(code) {
            assert_eq!(white_space(ch), ch.is_whitespace(), "U+{:04X}", code);
        }
    }
}

#[test]
fn service_manager_command_line() {
    assert_eq!(service_manager_program(), "systemctl");
    assert_eq!(service_manager_arguments("sshd"), vec!["is-active", "sshd"]);
}

#[test]
fn service_status_objects() {
    let readings = vec![
        ServiceReading { service_name: "sshd".to_string(), output: Some(b"active\n".to_vec()) },
        ServiceReading { service_name: "cron".to_string(), output: None },
        ServiceReading { service_name: "x\"y".to_string(), output: Some(vec![0x80]) },
    ];
    let docs = get_service_status(&readings);
    assert_eq!(docs.len(), 3);
    assert_eq!(docs[0].as_object().unwrap().len(), 2);
    assert_eq!(docs[0]["service_name"], Value::from("sshd"));
    assert_eq!(docs[0]["status"], Value::from("active"));
    assert_eq!(docs[1]["service_name"], Value::from("cron"));
    assert_eq!(docs[1]["status"], Value::from("error"));
    assert_eq!(docs[2]["service_name"], Value::from("x\"y"));
    assert_eq!(docs[2]["status"], Value::from("unknown"));
    assert!(get_service_status(&Vec::new()).is_empty());
}

fn object(members: Vec<(&str, Value)>) -> Value {
    let mut map = serde_json::Map::new();
    for (key, value) in members {
        map.insert(key.to_string(), value);
    }
    Value::Object(map)
}

#[test]
fn single_values_and_lists_together() {
    let single = object(vec![("uptime", Value::from("5"))]);
    let lists = vec![object(vec![("interface", Value::from("lo"))]), Value::from(7u64)];
    let payload = combine_metrics(single.clone(), lists.clone());
    assert_eq!(
        payload,
        object(vec![("uptime", Value::from("5")), ("array_data", Value::Array(lists.clone()))])
    );
    assert_eq!(payload.as_object().unwrap().len(), 2);
}

#[test]
fn single_values_alone() {
    let single = object(vec![("uptime", Value::from("5")), ("cpu_freq_mhz", Value::from("9"))]);
    assert_eq!(combine_metrics(single.clone(), Vec::new()), single);
}

#[test]
fn lists_alone() {
    let lists = vec![object(vec![("interface", Value::from("lo"))]), Value::Null];
    assert_eq!(combine_metrics(object(vec![]), lists.clone()), Value::Array(lists));
}

#[test]
fn nothing_chosen_is_the_empty_object() {
    assert_eq!(combine_metrics(object(vec![]), Vec::new()), object(vec![]));
}

#[test]
fn single_metrics_object() {
    assert_eq!(single_metrics(None, None), object(vec![]));
    assert_eq!(
        single_metrics(Some(Some(3200)), None),
        object(vec![("cpu_freq_mhz", Value::from("3200"))])
    );
    assert_eq!(single_metrics(Some(None), None), object(vec![("cpu_freq_mhz", Value::from("0"))]));
    assert_eq!(single_metrics(None, Some(77)), object(vec![("uptime", Value::from("77"))]));
    assert_eq!(
        single_metrics(Some(Some(1)), Some(2)),
        object(vec![("cpu_freq_mhz", Value::from("1")), ("uptime", Value::from("2"))])
    );
}

#[test]
fn envelope_object() {
    let metrics = Value::Array(vec![Value::from(1u64)]);
    assert_eq!(
        envelope(1_700_000_000, "box", metrics.clone()),
        object(vec![
            ("timestamp", Value::from(1_700_000_000u64)),
            ("hostname", Value::from("box")),
            ("metrics", metrics),
        ])
    );
}

#[test]
fn records_as_a_list_of_objects() {
    let records = vec![mixed(), absent("nvme1")];
    let docs = smart_log_json(&records);
    assert_eq!(docs.len(), 2);
    assert_eq!(docs[0], mixed().to_json());
    assert_eq!(docs[1], absent("nvme1").to_json());
    assert_eq!(docs[1]["nvme_name"], Value::from("nvme1"));
    assert!(smart_log_json(&Vec::new()).is_empty());
}

#[test]
fn whole_host_object() {
    let disk = object(vec![("mount", Value::from("/")), ("used_percent", Value::from(12.5))]);
    let interface = object(vec![("interface", Value::from("lo"))]);
    let record = mixed().to_json();
    let doc = get_sysinfo(HostReadings {
        timestamp: 1_700_000_000,
        hostname: Some("bo\"x".to_string()),
        uptime: 86_400,
        first_cpu_mhz: None,
        disk_usage: vec![disk.clone()],
        network: vec![interface.clone()],
        smart_log: vec![record.clone()],
    });
    assert_eq!(
        doc,
        object(vec![
            ("timestamp", Value::from(1_700_000_000u64)),
            ("hostname", Value::from("bo\\\"x")),
            ("uptime", Value::from("86400")),
            ("cpu_freq_mhz", Value::from("0")),
            ("disk_usage", Value::Array(vec![disk])),
            ("network", Value::Array(vec![interface])),
            ("smart_log", Value::Array(vec![record])),
        ])
    );
    let bare = get_sysinfo(HostReadings {
        timestamp: 0,
        hostname: None,
        uptime: 0,
        first_cpu_mhz: Some(2400),
        disk_usage: Vec::new(),
        network: Vec::new(),
        smart_log: Vec::new(),
    });
    assert_eq!(bare["hostname"], Value::from("unknown"));
    assert_eq!(bare["cpu_freq_mhz"], Value::from("2400"));
    assert_eq!(bare["smart_log"], Value::Array(Vec::new()));
    assert_eq!(bare.as_object().unwrap().len(), 7);
}
