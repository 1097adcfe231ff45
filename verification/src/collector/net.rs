//! Traffic counters of the network interfaces.
//!
//! The caller reads the counters; how they are reported is decided here.

use crate::collector::json::{
    empty_object, json_is_object, json_members, no_members, set_number, set_string, JsonMember,
};
use crate::collector::text::{escape_quotes, escaped};
use vstd::prelude::*;

verus! {

/// The totals of one network interface.
#[derive(Debug, Clone, PartialEq, Eq)]
pub struct InterfaceCounters {
    /// Name of the interface.
    pub name: String,
    /// Bytes received since the interface came up.
    pub rx_bytes: u64,
    /// Bytes sent since the interface came up.
    pub tx_bytes: u64,
}

/// Whether `doc` reports `counters`: an object with the escaped name under
/// `interface`, the two totals under `rx_bytes` and `tx_bytes`, and nothing
/// else.
pub open spec fn reports(doc: serde_json::Value, counters: InterfaceCounters) -> bool {
    &&& json_is_object(doc)
    &&& json_members(doc) == no_members().insert(
        "interface"@,
        JsonMember::Text(escaped(counters.name@)),
    ).insert("rx_bytes"@, JsonMember::Unsigned(counters.rx_bytes)).insert(
        "tx_bytes"@,
        JsonMember::Unsigned(counters.tx_bytes),
    )
}

/// Reports the totals of one interface as a JSON object.
pub fn interface_json(counters: &InterfaceCounters) -> (doc: serde_json::Value)
    ensures
        reports(doc, *counters),
{
    let mut doc = empty_object();
    let name = escape_quotes(counters.name.as_str());
    set_string(&mut doc, "interface", name.as_str());
    set_number(&mut doc, "rx_bytes", counters.rx_bytes);
    set_number(&mut doc, "tx_bytes", counters.tx_bytes);
    doc
}

/// Reports the totals of every interface, one JSON object each, in the order given.
pub fn get_if_data(interfaces: Vec<InterfaceCounters>) -> (docs: Vec<serde_json::Value>)
    ensures
        docs@.len() == interfaces@.len(),
        forall|i: int| 0 <= i < interfaces@.len() ==> reports(#[trigger] docs@[i], interfaces@[i]),
{
    let mut docs: Vec<serde_json::Value> = Vec::new();
    let mut i: usize = 0;
    while i < interfaces.len()
        invariant
            i <= interfaces@.len(),
            docs@.len() == i,
            forall|j: int| 0 <= j < i ==> reports(#[trigger] docs@[j], interfaces@[j]),
        decreases interfaces@.len() - i,
    {
        let doc = interface_json(&interfaces[i]);
        docs.push(doc);
        i = i + 1;
    }
    docs
}

} // verus!
