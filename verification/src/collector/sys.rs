//! System-level readings: the time, the host's name, uptime and CPU frequency.
//!
//! The caller reads the host; what is reported of a reading is decided here.

use crate::collector::json::{
    empty_object, json_is_object, json_members, no_members, set_string, JsonMember,
};
use crate::collector::text::{digits, escape_quotes, escaped, push_digits};
use vstd::prelude::*;

verus! {

/// A reading of the system clock, carried through without a look inside.
#[verifier::external_type_specification]
#[verifier::external_body]
pub struct ExSystemTime(std::time::SystemTime);

/// The error of a clock that stands before the time it is measured from.
#[verifier::external_type_specification]
#[verifier::external_body]
pub struct ExSystemTimeError(std::time::SystemTimeError);

/// Reads the system clock with `SystemTime::now`. Nothing is known of the
/// reading: the clock may stand anywhere and need not advance.
#[verifier::external_body]
fn clock_now() -> std::time::SystemTime {
    std::time::SystemTime::now()
}

/// The time from the Unix epoch to `at`, by `SystemTime::duration_since`;
/// an error where `at` lies before the epoch.
#[verifier::external_body]
fn since_epoch(at: &std::time::SystemTime) -> Result<
    std::time::Duration,
    std::time::SystemTimeError,
> {
    at.duration_since(std::time::UNIX_EPOCH)
}

/// The whole seconds of a duration, by `Duration::as_secs`.
#[verifier::external_body]
fn whole_seconds(elapsed: &std::time::Duration) -> u64 {
    elapsed.as_secs()
}

/// The timestamp that a reading of the clock gives: the whole seconds since
/// the Unix epoch, and zero for a clock that stands before the epoch.
pub open spec fn timestamp_of_spec(since_epoch: Option<u64>) -> u64 {
    match since_epoch {
        Some(seconds) => seconds,
        None => 0,
    }
}

/// The name under which the host is reported: its own name, escaped, and
/// `unknown` where it has none.
pub open spec fn hostname_spec(reported: Option<String>) -> Seq<char> {
    match reported {
        Some(name) => escaped(name@),
        None => "unknown"@,
    }
}

/// The text of the frequency of the first CPU, zero where there is none.
pub open spec fn cpu_freq_text(first_cpu_mhz: Option<u64>) -> Seq<char> {
    digits(
        match first_cpu_mhz {
            Some(mhz) => mhz as nat,
            None => 0,
        },
        10,
    )
}

/// Gives the timestamp for a reading of the clock, which is the whole
/// seconds since the Unix epoch, or `None` where the clock stands before it.
pub fn timestamp_of(since_epoch: Option<u64>) -> (timestamp: u64)
    ensures
        timestamp == timestamp_of_spec(since_epoch),
{
    match since_epoch {
        Some(seconds) => seconds,
        None => 0,
    }
}

/// Gives the current time in whole seconds since the Unix epoch, as the
/// system clock has it; a clock that stands before the epoch reads as zero.
pub fn get_timestamp() -> u64 {
    let now = clock_now();
    let elapsed = match since_epoch(&now) {
        Ok(elapsed) => Some(whole_seconds(&elapsed)),
        Err(_) => None,
    };
    timestamp_of(elapsed)
}

/// Gives the name under which the host is reported, from the name that the
/// system gave, if it gave one.
pub fn get_hostname(reported: Option<String>) -> (name: String)
    ensures
        name@ == hostname_spec(reported),
{
    match reported {
        Some(name) => escape_quotes(name.as_str()),
        None => "unknown".to_owned(),
    }
}

/// Gives the uptime in seconds as decimal text.
pub fn uptime_raw(uptime: u64) -> (text: String)
    ensures
        text@ == digits(uptime as nat, 10),
{
    let mut text = String::new();
    push_digits(&mut text, uptime, 10);
    text
}

/// Gives the frequency of the first CPU in MHz as decimal text, and `0` for
/// a host that reports no CPU.
pub fn cpu_freq_raw(first_cpu_mhz: Option<u64>) -> (text: String)
    ensures
        text@ == cpu_freq_text(first_cpu_mhz),
{
    let mhz = match first_cpu_mhz {
        Some(mhz) => mhz,
        None => 0,
    };
    let mut text = String::new();
    push_digits(&mut text, mhz, 10);
    text
}

/// Gives the uptime as a JSON object with the one member `uptime`, a string.
pub fn uptime_json(uptime: u64) -> (doc: serde_json::Value)
    ensures
        json_is_object(doc),
        json_members(doc) == no_members().insert(
            "uptime"@,
            JsonMember::Text(digits(uptime as nat, 10)),
        ),
{
    let mut doc = empty_object();
    let text = uptime_raw(uptime);
    set_string(&mut doc, "uptime", text.as_str());
    doc
}

/// Gives the frequency of the first CPU as a JSON object with the one member
/// `cpu_freq_mhz`, a string.
pub fn cpu_freq_json(first_cpu_mhz: Option<u64>) -> (doc: serde_json::Value)
    ensures
        json_is_object(doc),
        json_members(doc) == no_members().insert(
            "cpu_freq_mhz"@,
            JsonMember::Text(cpu_freq_text(first_cpu_mhz)),
        ),
{
    let mut doc = empty_object();
    let text = cpu_freq_raw(first_cpu_mhz);
    set_string(&mut doc, "cpu_freq_mhz", text.as_str());
    doc
}

} // verus!
