//! The health log as the `nvme` command line tool reports it.
//!
//! The caller runs the tool once for each controller and hands over what it
//! printed. Whether that gives a record is decided here.

use crate::collector::json::{json_parse, parse_json};
use crate::collector::nvme::{record_models, NvmesSmartLog, SmartLogModel};
use crate::collector::nvme_json::{record_from_members, smart_log_from_json};
use vstd::prelude::*;

verus! {

/// What became of one run of the tool.
#[derive(Debug, Clone, PartialEq, Eq)]
pub enum ToolReply {
    /// The tool could not be started.
    SpawnFailed { reason: String },
    /// The tool ran to its end.
    Exited { success: bool, stdout: Vec<u8>, stderr: Vec<u8> },
}

/// Why a run of the tool gave no record.
#[derive(Debug, Clone, PartialEq, Eq)]
pub enum ToolError {
    /// The tool could not be started.
    Spawn { reason: String },
    /// The tool reported a failure; `stderr` is what it printed about it.
    Exit { stderr: Vec<u8> },
    /// What the tool printed is no JSON document.
    Parse { reason: String },
}

/// A controller's name with what the tool's run for it gave.
#[derive(Debug, Clone, PartialEq, Eq)]
pub struct ToolRun {
    pub nvme_name: String,
    pub reply: ToolReply,
}

/// A controller that was left out of a collection, and why.
#[derive(Debug, Clone, PartialEq, Eq)]
pub struct ToolFailure {
    pub nvme_name: String,
    pub cause: ToolError,
}

/// What one pass of the tool over the controllers gave: the records of the
/// controllers for which it printed a document, and the failures of the
/// others, each in the order of discovery.
#[derive(Debug, Clone, PartialEq, Eq)]
pub struct ToolCollection {
    pub records: Vec<NvmesSmartLog>,
    pub failures: Vec<ToolFailure>,
}

/// What a failure is, without the words in which the parser describes a
/// text that it rejects: those are the parser's own.
pub enum FailureKind {
    /// The tool could not be started.
    Spawn { reason: String },
    /// The tool reported a failure.
    Exit { stderr: Vec<u8> },
    /// What the tool printed is no JSON document.
    Parse,
}

/// The kind of a failure.
pub open spec fn kind_of(cause: ToolError) -> FailureKind {
    match cause {
        ToolError::Spawn { reason } => FailureKind::Spawn { reason },
        ToolError::Exit { stderr } => FailureKind::Exit { stderr },
        ToolError::Parse { reason } => FailureKind::Parse,
    }
}

/// What a run gives for the controller `name`: the record that the printed
/// document spells, or the kind of failure.
pub open spec fn run_outcome(name: Seq<char>, reply: ToolReply) -> Result<SmartLogModel, FailureKind> {
    match reply {
        ToolReply::SpawnFailed { reason } => Err(FailureKind::Spawn { reason }),
        ToolReply::Exited { success, stdout, stderr } => if !success {
            Err(FailureKind::Exit { stderr })
        } else {
            match json_parse(stdout@) {
                Some(members) => Ok(record_from_members(name, members)),
                None => Err(FailureKind::Parse),
            }
        },
    }
}

/// What a decision says: what the record says, or the kind of the failure.
pub open spec fn outcome_of(result: Result<NvmesSmartLog, ToolError>) -> Result<
    SmartLogModel,
    FailureKind,
> {
    match result {
        Ok(record) => Ok(record@),
        Err(cause) => Err(kind_of(cause)),
    }
}

/// The record of a run, if it gave one.
pub open spec fn run_record(run: ToolRun) -> Option<SmartLogModel> {
    match run_outcome(run.nvme_name@, run.reply) {
        Ok(record) => Some(record),
        Err(_) => None,
    }
}

/// The controller and the kind of failure of a run, if it gave no record.
pub open spec fn run_failure(run: ToolRun) -> Option<(String, FailureKind)> {
    match run_outcome(run.nvme_name@, run.reply) {
        Ok(_) => None,
        Err(kind) => Some((run.nvme_name, kind)),
    }
}

/// The records of a pass, in the order in which the tool was run.
pub open spec fn run_records(runs: Seq<ToolRun>) -> Seq<SmartLogModel> {
    runs.filter_map(|run: ToolRun| run_record(run))
}

/// The controllers and kinds of the failures of a pass, in the order in
/// which the tool was run.
pub open spec fn run_failures(runs: Seq<ToolRun>) -> Seq<(String, FailureKind)> {
    runs.filter_map(|run: ToolRun| run_failure(run))
}

/// The controllers and kinds of a list of failures.
pub open spec fn failure_kinds(failures: Seq<ToolFailure>) -> Seq<(String, FailureKind)> {
    failures.map_values(|f: ToolFailure| (f.nvme_name, kind_of(f.cause)))
}

/// Gives the name of the tool.
pub fn tool_program() -> (program: &'static str)
    ensures
        program@ == "nvme"@,
{
    "nvme"
}

/// Gives the arguments with which the tool prints the health log of the
/// device at `path` as JSON.
pub fn tool_arguments(path: &str) -> (arguments: Vec<String>)
    ensures
        arguments@.len() == 4,
        arguments@[0]@ == "smart-log"@,
        arguments@[1]@ == path@,
        arguments@[2]@ == "-o"@,
        arguments@[3]@ == "json"@,
{
    let mut arguments: Vec<String> = Vec::new();
    arguments.push("smart-log".to_owned());
    arguments.push(path.to_owned());
    arguments.push("-o".to_owned());
    arguments.push("json".to_owned());
    arguments
}

/// Describes an error of the parser in words, by its `Display`.
#[verifier::external_body]
fn parse_error_text(error: &serde_json::Error) -> String {
    error.to_string()
}

/// Decides what one run of the tool gives for the controller `nvme_name`.
pub fn manual_smart_log(nvme_name: String, reply: ToolReply) -> (result: Result<
    NvmesSmartLog,
    ToolError,
>)
    ensures
        outcome_of(result) == run_outcome(nvme_name@, reply),
{
    match reply {
        ToolReply::SpawnFailed { reason } => Err(ToolError::Spawn { reason }),
        ToolReply::Exited { success, stdout, stderr } => {
            if !success {
                Err(ToolError::Exit { stderr })
            } else {
                match parse_json(stdout.as_slice()) {
                    Ok(doc) => Ok(smart_log_from_json(nvme_name, &doc)),
                    Err(error) => Err(ToolError::Parse { reason: parse_error_text(&error) }),
                }
            }
        },
    }
}

/// Gathers the records of one pass of the tool over the controllers. A
/// controller whose run gave no document is reported among the failures and
/// leaves the others untouched.
pub fn manual_collect_smart_log(runs: Vec<ToolRun>) -> (collection: ToolCollection)
    ensures
        record_models(collection.records@) == run_records(runs@),
        collection.records@.len() == run_records(runs@).len(),
        failure_kinds(collection.failures@) == run_failures(runs@),
        collection.failures@.len() == run_failures(runs@).len(),
{
    let mut records: Vec<NvmesSmartLog> = Vec::new();
    let mut failures: Vec<ToolFailure> = Vec::new();
    let ghost all = runs@;
    for run in it: runs
        invariant
            record_models(records@) == run_records(all.take(it.index() as int)),
            failure_kinds(failures@) == run_failures(all.take(it.index() as int)),
            it.seq() == all,
    {
        proof {
            all.lemma_filter_map_take_succ(|run: ToolRun| run_record(run), it.index() as int);
            all.lemma_filter_map_take_succ(|run: ToolRun| run_failure(run), it.index() as int);
        }
        let ghost records_before = records@;
        let ghost failures_before = failures@;
        let ToolRun { nvme_name, reply } = run;
        let name = nvme_name.clone();
        match manual_smart_log(nvme_name, reply) {
            Ok(record) => {
                records.push(record);
                assert(record_models(records@) =~= record_models(records_before).push(record@));
            },
            Err(cause) => {
                let failure = ToolFailure { nvme_name: name, cause };
                failures.push(failure);
                assert(failure_kinds(failures@) =~= failure_kinds(failures_before).push(
                    (failure.nvme_name, kind_of(failure.cause)),
                ));
            },
        }
    }
    proof {
        assert(all.take(all.len() as int) =~= all);
    }
    ToolCollection { records, failures }
}

/// Every run of a pass ends in exactly one of the two lists.
pub proof fn every_run_is_accounted_for(runs: Seq<ToolRun>)
    ensures
        run_records(runs).len() + run_failures(runs).len() == runs.len(),
    decreases runs.len(),
{
    if runs.len() > 0 {
        every_run_is_accounted_for(runs.drop_last());
    }
}

} // verus!
