//! What is sent: the metrics of the host put together as one JSON value.
//!
//! The caller takes the readings and sends the bytes; the shape of what is
//! sent is decided here.

use crate::collector::json::{
    array_of, empty_object, has_no_member, json_is_object, json_kind, json_members, no_members,
    set_number, set_string, set_value, JsonMember,
};
use crate::collector::nvme::NvmesSmartLog;
use crate::collector::nvme_json::members_of;
use crate::collector::sys::{cpu_freq_raw, cpu_freq_text, get_hostname, hostname_spec, uptime_raw};
use crate::collector::text::digits;
use vstd::prelude::*;

verus! {

/// The readings of one pass over the whole host.
#[derive(Debug, Clone, PartialEq)]
pub struct HostReadings {
    /// Whole seconds since the Unix epoch.
    pub timestamp: u64,
    /// The name that the system gave for the host, if it gave one.
    pub hostname: Option<String>,
    /// Seconds since the host came up.
    pub uptime: u64,
    /// Frequency of the first CPU in MHz, if the host reports a CPU.
    pub first_cpu_mhz: Option<u64>,
    /// The usage of every disk, one object each.
    pub disk_usage: Vec<serde_json::Value>,
    /// The counters of every network interface, one object each.
    pub network: Vec<serde_json::Value>,
    /// The health log of every controller that answered, one object each.
    pub smart_log: Vec<serde_json::Value>,
}

/// The members of the object that reports a whole host.
pub open spec fn sysinfo_members(readings: HostReadings) -> Map<Seq<char>, JsonMember> {
    let m = no_members();
    let m = m.insert("timestamp"@, JsonMember::Unsigned(readings.timestamp));
    let m = m.insert("hostname"@, JsonMember::Text(hostname_spec(readings.hostname)));
    let m = m.insert("uptime"@, JsonMember::Text(digits(readings.uptime as nat, 10)));
    let m = m.insert("cpu_freq_mhz"@, JsonMember::Text(cpu_freq_text(readings.first_cpu_mhz)));
    let m = m.insert("disk_usage"@, JsonMember::List(readings.disk_usage@));
    let m = m.insert("network"@, JsonMember::List(readings.network@));
    let m = m.insert("smart_log"@, JsonMember::List(readings.smart_log@));
    m
}

/// The members of the envelope in which metrics are sent.
pub open spec fn envelope_members(
    timestamp: u64,
    hostname: Seq<char>,
    metrics: serde_json::Value,
) -> Map<Seq<char>, JsonMember> {
    no_members().insert("timestamp"@, JsonMember::Unsigned(timestamp)).insert(
        "hostname"@,
        JsonMember::Text(hostname),
    ).insert("metrics"@, json_kind(metrics))
}

/// The members of the object of the single values that were chosen: the
/// frequency of the first CPU and the uptime, each only where it was chosen.
pub open spec fn single_members(cpu_freq_mhz: Option<Option<u64>>, uptime: Option<u64>) -> Map<
    Seq<char>,
    JsonMember,
> {
    let m = no_members();
    let m = match cpu_freq_mhz {
        Some(first_cpu_mhz) => m.insert(
            "cpu_freq_mhz"@,
            JsonMember::Text(cpu_freq_text(first_cpu_mhz)),
        ),
        None => m,
    };
    match uptime {
        Some(seconds) => m.insert("uptime"@, JsonMember::Text(digits(seconds as nat, 10))),
        None => m,
    }
}

/// Whether `payload` puts single values and lists together as it should:
/// with both at hand, the object of the single values with the lists as an
/// array under `array_data`; with single values alone, their object; with
/// lists alone, the array of them; and with neither, the empty object.
pub open spec fn combines(
    payload: serde_json::Value,
    single: serde_json::Value,
    lists: Seq<serde_json::Value>,
) -> bool {
    if json_members(single) != no_members() && lists.len() > 0 {
        &&& json_is_object(payload)
        &&& json_members(payload) == json_members(single).insert(
            "array_data"@,
            JsonMember::List(lists),
        )
    } else if json_members(single) != no_members() {
        payload == single
    } else if lists.len() > 0 {
        &&& !json_is_object(payload)
        &&& json_kind(payload) == JsonMember::List(lists)
    } else {
        &&& json_is_object(payload)
        &&& json_members(payload) == no_members()
    }
}

/// Writes every record as a JSON object, in the order given.
pub fn smart_log_json(records: &Vec<NvmesSmartLog>) -> (docs: Vec<serde_json::Value>)
    ensures
        docs@.len() == records@.len(),
        forall|i: int|
            0 <= i < records@.len() ==> json_is_object(#[trigger] docs@[i]) && json_members(
                docs@[i],
            ) == members_of(records@[i]@),
{
    let mut docs: Vec<serde_json::Value> = Vec::new();
    let mut i: usize = 0;
    while i < records.len()
        invariant
            i <= records@.len(),
            docs@.len() == i,
            forall|j: int|
                0 <= j < i ==> json_is_object(#[trigger] docs@[j]) && json_members(docs@[j])
                    == members_of(records@[j]@),
        decreases records@.len() - i,
    {
        let doc = records[i].to_json();
        docs.push(doc);
        i = i + 1;
    }
    docs
}

/// Reports the whole host as one JSON object.
pub fn get_sysinfo(readings: HostReadings) -> (doc: serde_json::Value)
    ensures
        json_is_object(doc),
        json_members(doc) == sysinfo_members(readings),
{
    let HostReadings { timestamp, hostname, uptime, first_cpu_mhz, disk_usage, network, smart_log } =
        readings;
    let mut doc = empty_object();
    set_number(&mut doc, "timestamp", timestamp);
    let name = get_hostname(hostname);
    set_string(&mut doc, "hostname", name.as_str());
    let up = uptime_raw(uptime);
    set_string(&mut doc, "uptime", up.as_str());
    let mhz = cpu_freq_raw(first_cpu_mhz);
    set_string(&mut doc, "cpu_freq_mhz", mhz.as_str());
    set_value(&mut doc, "disk_usage", array_of(disk_usage));
    set_value(&mut doc, "network", array_of(network));
    set_value(&mut doc, "smart_log", array_of(smart_log));
    doc
}

/// Gives the object of the single values that were chosen: the frequency of
/// the first CPU (itself absent on a host that reports no CPU) and the
/// uptime. A value that was not chosen is `None` and gets no member.
pub fn single_metrics(cpu_freq_mhz: Option<Option<u64>>, uptime: Option<u64>) -> (doc:
    serde_json::Value)
    ensures
        json_is_object(doc),
        json_members(doc) == single_members(cpu_freq_mhz, uptime),
{
    let mut doc = empty_object();
    if let Some(first_cpu_mhz) = cpu_freq_mhz {
        let mhz = cpu_freq_raw(first_cpu_mhz);
        set_string(&mut doc, "cpu_freq_mhz", mhz.as_str());
    }
    if let Some(seconds) = uptime {
        let up = uptime_raw(seconds);
        set_string(&mut doc, "uptime", up.as_str());
    }
    doc
}

/// Puts the single values and the lists that were chosen together as one value.
pub fn combine_metrics(single: serde_json::Value, lists: Vec<serde_json::Value>) -> (payload:
    serde_json::Value)
    requires
        json_is_object(single),
    ensures
        combines(payload, single, lists@),
{
    let no_single = has_no_member(&single);
    if !no_single && lists.len() > 0 {
        let mut payload = single;
        set_value(&mut payload, "array_data", array_of(lists));
        payload
    } else if !no_single {
        single
    } else if lists.len() > 0 {
        array_of(lists)
    } else {
        empty_object()
    }
}

/// Puts metrics into the envelope in which they are sent: an object with the
/// time, the name of the host and the metrics.
pub fn envelope(timestamp: u64, hostname: &str, metrics: serde_json::Value) -> (doc:
    serde_json::Value)
    ensures
        json_is_object(doc),
        json_members(doc) == envelope_members(timestamp, hostname@, metrics),
{
    let mut doc = empty_object();
    set_number(&mut doc, "timestamp", timestamp);
    set_string(&mut doc, "hostname", hostname);
    set_value(&mut doc, "metrics", metrics);
    doc
}

} // verus!
