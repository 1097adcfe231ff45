//! One pass over the controllers, step by step.
//!
//! A pass asks for one query at a time and is told what came of it. The
//! caller performs each query: it opens the device node once, in the mode
//! given, submits the one command that
//! [`smart_log_command`](crate::collector::command::smart_log_command)
//! builds for the buffer given, closes the node, and reports the reply. A
//! pass never asks twice for the same controller: what fails is reported and
//! left behind.

use crate::collector::fetch::{
    collect_smart_log, device_open_mode, device_path, device_path_spec,
    every_controller_is_accounted_for, failures_of, fetch_result, get_nvme_smart_log_raw,
    new_log_buffer, records_of, FetchedLog, KernelReply, OpenMode, SmartLogCollection,
};
use crate::collector::nvme::{record_models, SMART_LOG_LEN};
use vstd::prelude::*;

verus! {

/// One query for the caller to perform.
#[derive(Debug, Clone, PartialEq, Eq)]
pub struct Query {
    /// Name of the controller to query.
    pub nvme_name: String,
    /// Path of its device node.
    pub path: String,
    /// Mode in which to open the node.
    pub mode: OpenMode,
    /// The zeroed buffer for the kernel to fill.
    pub buffer: Vec<u8>,
}

/// A pass over the controllers that were discovered: those answered so far,
/// with what each gave, and those still to be queried.
pub struct Pass {
    names: Vec<String>,
    fetched: Vec<FetchedLog>,
}

impl Pass {
    /// The controllers of the pass, in the order of discovery.
    pub closed spec fn names(&self) -> Seq<String> {
        self.names@
    }

    /// What the controllers queried so far gave, in the order of the queries.
    pub closed spec fn fetched(&self) -> Seq<FetchedLog> {
        self.fetched@
    }

    /// A pass has queried the controllers in the order of discovery, each
    /// once: the n-th answer belongs to the n-th controller.
    pub open spec fn wf(&self) -> bool {
        &&& self.fetched().len() <= self.names().len()
        &&& forall|i: int|
            0 <= i < self.fetched().len() ==> (#[trigger] self.fetched()[i]).nvme_name
                == self.names()[i]
    }

    /// Whether every controller has been queried.
    pub open spec fn done(&self) -> bool {
        self.fetched().len() == self.names().len()
    }

    /// Begins a pass over the controllers `names`.
    pub fn start(names: Vec<String>) -> (pass: Pass)
        ensures
            pass.wf(),
            pass.names() == names@,
            pass.fetched() == Seq::<FetchedLog>::empty(),
    {
        Pass { names, fetched: Vec::new() }
    }

    /// Tells whether every controller has been queried.
    pub fn is_done(&self) -> (done: bool)
        requires
            self.wf(),
        ensures
            done == self.done(),
    {
        self.fetched.len() == self.names.len()
    }

    /// Gives the next query: for the first controller that has not been
    /// queried, and `None` when there is none left.
    pub fn next_query(&self) -> (query: Option<Query>)
        requires
            self.wf(),
        ensures
            query is None <==> self.done(),
            query matches Some(q) ==> {
                &&& q.nvme_name == self.names()[self.fetched().len() as int]
                &&& q.path@ == device_path_spec(q.nvme_name@)
                &&& q.mode == (OpenMode { read: true, write: true })
                &&& q.buffer@.len() == SMART_LOG_LEN
                &&& forall|i: int| 0 <= i < SMART_LOG_LEN ==> q.buffer@[i] == 0
            },
    {
        let next = self.fetched.len();
        if next < self.names.len() {
            let nvme_name = self.names[next].clone();
            let path = device_path(nvme_name.as_str());
            Some(Query { nvme_name, path, mode: device_open_mode(), buffer: new_log_buffer() })
        } else {
            None
        }
    }

    /// Takes the reply to the query that was given last, with the buffer
    /// that was handed to the kernel, and moves on to the next controller,
    /// whatever the reply was.
    pub fn record_reply(&mut self, reply: KernelReply, buffer: Vec<u8>)
        requires
            old(self).wf(),
            !old(self).done(),
        ensures
            final(self).wf(),
            final(self).names() == old(self).names(),
            final(self).fetched() == old(self).fetched().push(
                FetchedLog {
                    nvme_name: old(self).names()[old(self).fetched().len() as int],
                    outcome: fetch_result(reply, buffer),
                },
            ),
    {
        let next = self.fetched.len();
        let nvme_name = self.names[next].clone();
        let outcome = get_nvme_smart_log_raw(reply, buffer);
        self.fetched.push(FetchedLog { nvme_name, outcome });
    }

    /// Ends the pass: the records of the controllers that answered and the
    /// failures of the others, each in the order of discovery.
    pub fn finish(self) -> (collection: SmartLogCollection)
        requires
            self.wf(),
            self.done(),
        ensures
            record_models(collection.records@) == records_of(self.fetched()),
            collection.records@.len() == records_of(self.fetched()).len(),
            collection.failures@ == failures_of(self.fetched()),
    {
        collect_smart_log(self.fetched)
    }
}

/// A pass that is done has asked once for every controller, in the order of
/// discovery, and every controller has ended as a record or as a failure.
pub proof fn done_pass_has_queried_every_controller_once(pass: Pass)
    requires
        pass.wf(),
        pass.done(),
    ensures
        pass.fetched().len() == pass.names().len(),
        forall|i: int|
            0 <= i < pass.names().len() ==> (#[trigger] pass.fetched()[i]).nvme_name
                == pass.names()[i],
        records_of(pass.fetched()).len() + failures_of(pass.fetched()).len()
            == pass.names().len(),
{
    every_controller_is_accounted_for(pass.fetched());
}

} // verus!
