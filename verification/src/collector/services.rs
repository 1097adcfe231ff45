//! Status of system services.
//!
//! The caller asks the service manager whether each service is active and
//! hands over what it printed; what that says is decided here.

use crate::collector::json::{
    empty_object, json_is_object, json_members, no_members, set_string, JsonMember,
};
use vstd::prelude::*;
use vstd::string::StrSliceExecFns;
use vstd::utf8::{decode_utf8, valid_utf8};

verus! {

/// The error of bytes that are no UTF-8 text, carried through without a look inside.
#[verifier::external_type_specification]
#[verifier::external_body]
pub struct ExUtf8Error(core::str::Utf8Error);

/// A service's name with what the service manager printed about it, or
/// `None` where the service manager could not be run.
#[derive(Debug, Clone, PartialEq, Eq)]
pub struct ServiceReading {
    pub service_name: String,
    pub output: Option<Vec<u8>>,
}

/// Whether a character is white space, by the Unicode property of that name.
pub open spec fn is_white_space(ch: char) -> bool {
    let code = ch as u32;
    ||| 0x09 <= code <= 0x0D
    ||| code == 0x20
    ||| code == 0x85
    ||| code == 0xA0
    ||| code == 0x1680
    ||| 0x2000 <= code <= 0x200A
    ||| code == 0x2028
    ||| code == 0x2029
    ||| code == 0x202F
    ||| code == 0x205F
    ||| code == 0x3000
}

/// The text without the white space at its start.
pub open spec fn trimmed_start(text: Seq<char>) -> Seq<char>
    decreases text.len(),
{
    if text.len() > 0 && is_white_space(text.first()) {
        trimmed_start(text.drop_first())
    } else {
        text
    }
}

/// The text without the white space at its end.
pub open spec fn trimmed_end(text: Seq<char>) -> Seq<char>
    decreases text.len(),
{
    if text.len() > 0 && is_white_space(text.last()) {
        trimmed_end(text.drop_last())
    } else {
        text
    }
}

/// The text without the white space around it.
pub open spec fn trimmed(text: Seq<char>) -> Seq<char> {
    trimmed_end(trimmed_start(text))
}

/// The status that an output stands for: what the service manager printed,
/// without the white space around it; `unknown` where that is no text; and
/// `error` where the service manager could not be run.
pub open spec fn status_of(output: Option<Vec<u8>>) -> Seq<char> {
    match output {
        None => "error"@,
        Some(bytes) => if valid_utf8(bytes@) {
            trimmed(decode_utf8(bytes@))
        } else {
            "unknown"@
        },
    }
}

/// Whether `doc` reports `reading`: an object with the name of the service
/// under `service_name`, its status under `status`, and nothing else.
pub open spec fn reports_service(doc: serde_json::Value, reading: ServiceReading) -> bool {
    &&& json_is_object(doc)
    &&& json_members(doc) == no_members().insert(
        "service_name"@,
        JsonMember::Text(reading.service_name@),
    ).insert("status"@, JsonMember::Text(status_of(reading.output)))
}

/// Reads bytes as text with `core::str::from_utf8`: the text that the bytes
/// encode where they are valid UTF-8, and an error where they are not.
#[verifier::external_body]
fn utf8_text(bytes: &[u8]) -> (text: Result<&str, core::str::Utf8Error>)
    ensures
        match text {
            Ok(decoded) => valid_utf8(bytes@) && decoded@ == decode_utf8(bytes@),
            Err(_) => !valid_utf8(bytes@),
        },
{
    core::str::from_utf8(bytes)
}

/// Tells whether a character is white space.
pub fn white_space(ch: char) -> (yes: bool)
    ensures
        yes == is_white_space(ch),
{
    let code = ch as u32;
    (0x09 <= code && code <= 0x0D) || code == 0x20 || code == 0x85 || code == 0xA0 || code
        == 0x1680 || (0x2000 <= code && code <= 0x200A) || code == 0x2028 || code == 0x2029
        || code == 0x202F || code == 0x205F || code == 0x3000
}

/// Gives the text without the white space around it.
pub fn trim(text: &str) -> (inner: &str)
    ensures
        inner@ == trimmed(text@),
{
    let len = text.unicode_len();
    let mut start: usize = 0;
    assert(text@.subrange(0, len as int) =~= text@);
    while start < len && white_space(text.get_char(start))
        invariant
            start <= len == text@.len(),
            trimmed_start(text@) == trimmed_start(text@.subrange(start as int, len as int)),
        decreases len - start,
    {
        proof {
            let rest = text@.subrange(start as int, len as int);
            assert(rest.first() == text@[start as int]);
            assert(rest.drop_first() =~= text@.subrange(start + 1, len as int));
        }
        start = start + 1;
    }
    let ghost middle = text@.subrange(start as int, len as int);
    assert(trimmed_start(text@) == middle) by {
        if start < len {
            assert(middle.first() == text@[start as int]);
        }
    }
    let mut end: usize = len;
    while end > start && white_space(text.get_char(end - 1))
        invariant
            start <= end <= len == text@.len(),
            trimmed_end(middle) == trimmed_end(text@.subrange(start as int, end as int)),
            middle == text@.subrange(start as int, len as int),
        decreases end,
    {
        proof {
            let rest = text@.subrange(start as int, end as int);
            assert(rest.last() == text@[end - 1]);
            assert(rest.drop_last() =~= text@.subrange(start as int, end - 1));
        }
        end = end - 1;
    }
    assert(trimmed_end(middle) == text@.subrange(start as int, end as int)) by {
        if end > start {
            assert(text@.subrange(start as int, end as int).last() == text@[end - 1]);
        }
    }
    text.substring_char(start, end)
}

/// Gives the status that an output of the service manager stands for.
pub fn get_service_active_status(output: &Option<Vec<u8>>) -> (status: String)
    ensures
        status@ == status_of(*output),
{
    match output {
        None => "error".to_owned(),
        Some(bytes) => match utf8_text(bytes.as_slice()) {
            Ok(text) => trim(text).to_owned(),
            Err(_) => "unknown".to_owned(),
        },
    }
}

/// Gives the arguments with which the service manager says whether
/// `service` is active.
pub fn service_manager_arguments(service: &str) -> (arguments: Vec<String>)
    ensures
        arguments@.len() == 2,
        arguments@[0]@ == "is-active"@,
        arguments@[1]@ == service@,
{
    let mut arguments: Vec<String> = Vec::new();
    arguments.push("is-active".to_owned());
    arguments.push(service.to_owned());
    arguments
}

/// Gives the name of the service manager's program.
pub fn service_manager_program() -> (program: &'static str)
    ensures
        program@ == "systemctl"@,
{
    "systemctl"
}

/// Reports the status of every service, one JSON object each, in the order given.
pub fn get_service_status(readings: &Vec<ServiceReading>) -> (docs: Vec<serde_json::Value>)
    ensures
        docs@.len() == readings@.len(),
        forall|i: int|
            0 <= i < readings@.len() ==> reports_service(#[trigger] docs@[i], readings@[i]),
{
    let mut docs: Vec<serde_json::Value> = Vec::new();
    let mut i: usize = 0;
    while i < readings.len()
        invariant
            i <= readings@.len(),
            docs@.len() == i,
            forall|j: int| 0 <= j < i ==> reports_service(#[trigger] docs@[j], readings@[j]),
        decreases readings@.len() - i,
    {
        let reading = &readings[i];
        let status = get_service_active_status(&reading.output);
        let mut doc = empty_object();
        set_string(&mut doc, "service_name", reading.service_name.as_str());
        set_string(&mut doc, "status", status.as_str());
        docs.push(doc);
        i = i + 1;
    }
    docs
}

} // verus!
