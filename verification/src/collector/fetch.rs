//! Fetching the health log of one controller, and gathering the logs of all.
//!
//! The caller opens the device node for reading and writing (the kernel's
//! passthrough interface wants a writable handle even for a read), submits
//! the command that [`smart_log_command`](crate::collector::command::smart_log_command)
//! builds, and reports what came back. What that means is decided here.

use crate::collector::nvme::{
    decoded, record_models, NvmesSmartLog, SmartLogModel, SMART_LOG_LEN,
};
use crate::collector::text::{digits, push_digits};
use vstd::prelude::*;
use vstd::string::StringExecFns;

verus! {

/// What the operating system answered to one attempt to query a controller.
#[derive(Debug, Clone, PartialEq, Eq)]
pub enum KernelReply {
    /// The device node could not be opened.
    OpenFailed { reason: String },
    /// The kernel call itself failed.
    CallFailed { reason: String },
    /// The command was carried out and completed with `status`.
    Completed { status: i32 },
}

/// Why no record could be made for a controller.
#[derive(Debug, Clone, PartialEq, Eq)]
pub enum FetchError {
    /// The operating system refused: the device node could not be opened, or
    /// the kernel call failed.
    Os { message: String },
    /// The controller completed the command with a status other than zero.
    Protocol { status: i32 },
    /// The buffer handed over for decoding is not a full log page.
    BufferSize { len: usize },
}

/// A controller's name with what the attempt to fetch its log page gave.
#[derive(Debug, PartialEq, Eq)]
pub struct FetchedLog {
    pub nvme_name: String,
    pub outcome: Result<Vec<u8>, FetchError>,
}

/// A controller that was left out of a collection, and why.
#[derive(Debug, Clone, PartialEq, Eq)]
pub struct FetchFailure {
    pub nvme_name: String,
    pub cause: FetchError,
}

/// What one pass over the controllers gave: the records of those that
/// answered, and the failures of the others, each in the order of discovery.
#[derive(Debug, Clone, PartialEq, Eq)]
pub struct SmartLogCollection {
    pub records: Vec<NvmesSmartLog>,
    pub failures: Vec<FetchFailure>,
}

/// How a device node is opened.
#[derive(Debug, Clone, Copy, PartialEq, Eq, Structural)]
pub struct OpenMode {
    pub read: bool,
    pub write: bool,
}

/// The completion status as the 32 bits that hold it, read without a sign.
pub open spec fn status_bits(status: i32) -> nat {
    if status >= 0 {
        status as nat
    } else {
        (status + 0x1_0000_0000) as nat
    }
}

/// The path of the device node of a controller.
pub open spec fn device_path_spec(name: Seq<char>) -> Seq<char> {
    "/dev/"@ + name
}

/// The words that describe a failure.
pub open spec fn error_text(error: FetchError) -> Seq<char> {
    match error {
        FetchError::Os { message } => message@,
        FetchError::Protocol { status } => "NVMe admin command failed, status=0x"@ + digits(
            status_bits(status),
            16,
        ),
        FetchError::BufferSize { len } => "SMART log buffer holds "@ + digits(len as nat, 10)
            + " bytes, expected 512"@,
    }
}

/// The line that reports a failure.
pub open spec fn log_line_spec(failure: FetchFailure) -> Seq<char> {
    "Failed to fetch SMART log for "@ + device_path_spec(failure.nvme_name@) + ": "@ + error_text(
        failure.cause,
    )
}

/// What a reply means for the buffer that was handed to the kernel.
pub open spec fn fetch_result(reply: KernelReply, buffer: Vec<u8>) -> Result<Vec<u8>, FetchError> {
    match reply {
        KernelReply::OpenFailed { reason } => Err(FetchError::Os { message: reason }),
        KernelReply::CallFailed { reason } => Err(FetchError::Os { message: reason }),
        KernelReply::Completed { status } => if status == 0 {
            Ok(buffer)
        } else {
            Err(FetchError::Protocol { status })
        },
    }
}

/// The record that a fetched log gives, if it gives one: the fetch succeeded
/// and the buffer is a full log page.
pub open spec fn record_of(fetched: FetchedLog) -> Option<SmartLogModel> {
    match fetched.outcome {
        Ok(buffer) => if buffer@.len() == SMART_LOG_LEN {
            Some(decoded(fetched.nvme_name@, buffer@))
        } else {
            None
        },
        Err(_) => None,
    }
}

/// The failure that a fetched log gives, if it gives no record.
pub open spec fn failure_of(fetched: FetchedLog) -> Option<FetchFailure> {
    match fetched.outcome {
        Ok(buffer) => if buffer@.len() == SMART_LOG_LEN {
            None
        } else {
            Some(
                FetchFailure {
                    nvme_name: fetched.nvme_name,
                    cause: FetchError::BufferSize { len: buffer@.len() as usize },
                },
            )
        },
        Err(cause) => Some(FetchFailure { nvme_name: fetched.nvme_name, cause }),
    }
}

/// The records of a pass, in the order in which the controllers were queried.
pub open spec fn records_of(fetched: Seq<FetchedLog>) -> Seq<SmartLogModel> {
    fetched.filter_map(|f: FetchedLog| record_of(f))
}

/// The failures of a pass, in the order in which the controllers were queried.
pub open spec fn failures_of(fetched: Seq<FetchedLog>) -> Seq<FetchFailure> {
    fetched.filter_map(|f: FetchedLog| failure_of(f))
}

/// Gives the path of the device node of the controller `name`.
pub fn device_path(name: &str) -> (path: String)
    ensures
        path@ == device_path_spec(name@),
{
    let mut path = "/dev/".to_owned();
    path.append(name);
    path
}

/// Gives the mode in which the device node of a controller is opened: for
/// reading and for writing, because the kernel accepts a passthrough command
/// only on a handle that can be written to, also where the command reads.
pub fn device_open_mode() -> (mode: OpenMode)
    ensures
        mode == (OpenMode { read: true, write: true }),
{
    OpenMode { read: true, write: true }
}

/// Gives a zeroed buffer of the size of the log page, for the kernel to fill.
pub fn new_log_buffer() -> (buffer: Vec<u8>)
    ensures
        buffer@.len() == SMART_LOG_LEN,
        forall|i: int| 0 <= i < SMART_LOG_LEN ==> buffer@[i] == 0,
{
    vec![0u8; SMART_LOG_LEN]
}

/// Decides what the kernel's reply means for one controller. A completion
/// status of zero gives the buffer, which the kernel has filled; any other
/// status is a failure of the protocol that carries the status; a failure to
/// open the device or to make the call is a failure of the operating system.
pub fn get_nvme_smart_log_raw(reply: KernelReply, buffer: Vec<u8>) -> (result: Result<
    Vec<u8>,
    FetchError,
>)
    ensures
        result == fetch_result(reply, buffer),
{
    match reply {
        KernelReply::OpenFailed { reason } => Err(FetchError::Os { message: reason }),
        KernelReply::CallFailed { reason } => Err(FetchError::Os { message: reason }),
        KernelReply::Completed { status } => {
            if status == 0 {
                Ok(buffer)
            } else {
                Err(FetchError::Protocol { status })
            }
        },
    }
}

/// Decides what the kernel's reply to Identify Controller means for the
/// buffer that was handed over, as [`get_nvme_smart_log_raw`] does for the
/// health page.
pub fn get_nvme_id_ctrl_raw(reply: KernelReply, buffer: Vec<u8>) -> (result: Result<
    Vec<u8>,
    FetchError,
>)
    ensures
        result == fetch_result(reply, buffer),
{
    get_nvme_smart_log_raw(reply, buffer)
}

impl FetchError {
    /// Describes the failure in words.
    pub fn message(&self) -> (text: String)
        ensures
            text@ == error_text(*self),
    {
        match self {
            FetchError::Os { message } => message.clone(),
            FetchError::Protocol { status } => {
                let bits: u64 = if *status >= 0 {
                    *status as u64
                } else {
                    (*status as i64 + 0x1_0000_0000) as u64
                };
                let mut text = "NVMe admin command failed, status=0x".to_owned();
                push_digits(&mut text, bits, 16);
                text
            },
            FetchError::BufferSize { len } => {
                let mut text = "SMART log buffer holds ".to_owned();
                push_digits(&mut text, *len as u64, 10);
                text.append(" bytes, expected 512");
                text
            },
        }
    }
}

impl FetchFailure {
    /// Gives the line that reports this failure.
    pub fn log_line(&self) -> (line: String)
        ensures
            line@ == log_line_spec(*self),
    {
        let mut line = "Failed to fetch SMART log for ".to_owned();
        let path = device_path(self.nvme_name.as_str());
        line.append(path.as_str());
        line.append(": ");
        let cause = self.cause.message();
        line.append(cause.as_str());
        line
    }
}

/// Gathers the records of one pass over the controllers. Each controller is
/// taken in turn; one whose log could not be fetched or is not a full page is
/// reported among the failures and leaves the others untouched.
pub fn collect_smart_log(fetched: Vec<FetchedLog>) -> (collection: SmartLogCollection)
    ensures
        record_models(collection.records@) == records_of(fetched@),
        collection.records@.len() == records_of(fetched@).len(),
        collection.failures@ == failures_of(fetched@),
{
    let mut records: Vec<NvmesSmartLog> = Vec::new();
    let mut failures: Vec<FetchFailure> = Vec::new();
    let ghost all = fetched@;
    for item in it: fetched
        invariant
            record_models(records@) == records_of(all.take(it.index() as int)),
            failures@ == failures_of(all.take(it.index() as int)),
            it.seq() == all,
    {
        proof {
            all.lemma_filter_map_take_succ(|f: FetchedLog| record_of(f), it.index() as int);
            all.lemma_filter_map_take_succ(|f: FetchedLog| failure_of(f), it.index() as int);
        }
        let ghost before = records@;
        let FetchedLog { nvme_name, outcome } = item;
        match outcome {
            Ok(buffer) => {
                if buffer.len() == SMART_LOG_LEN {
                    let record = NvmesSmartLog::new(nvme_name, buffer.as_slice());
                    records.push(record);
                    assert(record_models(records@) =~= record_models(before).push(record@));
                } else {
                    failures.push(
                        FetchFailure { nvme_name, cause: FetchError::BufferSize { len: buffer.len() } },
                    );
                }
            },
            Err(cause) => {
                failures.push(FetchFailure { nvme_name, cause });
            },
        }
    }
    proof {
        assert(all.take(all.len() as int) =~= all);
    }
    SmartLogCollection { records, failures }
}

/// Every controller of a pass ends in exactly one of the two lists: it gives a
/// record or a failure, never both and never neither.
pub proof fn every_controller_is_accounted_for(fetched: Seq<FetchedLog>)
    ensures
        records_of(fetched).len() + failures_of(fetched).len() == fetched.len(),
        forall|i: int|
            0 <= i < fetched.len() ==> (#[trigger] record_of(fetched[i]) is Some <==> failure_of(
                fetched[i],
            ) is None),
    decreases fetched.len(),
{
    if fetched.len() > 0 {
        every_controller_is_accounted_for(fetched.drop_last());
    }
}

/// A pass over one controller gives that controller's record under its own
/// name, or its failure.
pub proof fn single_controller(fetched: FetchedLog)
    ensures
        records_of(seq![fetched]) == match record_of(fetched) {
            Some(record) => seq![record],
            None => Seq::empty(),
        },
        failures_of(seq![fetched]) == match failure_of(fetched) {
            Some(failure) => seq![failure],
            None => Seq::empty(),
        },
        record_of(fetched) matches Some(record) ==> record.nvme_name == fetched.nvme_name@,
        failure_of(fetched) matches Some(failure) ==> failure.nvme_name == fetched.nvme_name,
{
    Seq::lemma_filter_map_singleton(fetched, |f: FetchedLog| record_of(f));
    Seq::lemma_filter_map_singleton(fetched, |f: FetchedLog| failure_of(f));
}

/// What a controller contributes does not depend on the controllers around
/// it: a pass over `first + second` gives what a pass over `first` gives,
/// followed by what a pass over `second` gives. A controller that fails
/// therefore takes nothing from the others.
pub proof fn collection_splits(first: Seq<FetchedLog>, second: Seq<FetchedLog>)
    ensures
        records_of(first + second) == records_of(first) + records_of(second),
        failures_of(first + second) == failures_of(first) + failures_of(second),
    decreases second.len(),
{
    if second.len() == 0 {
        assert(first + second =~= first);
        assert(records_of(first) + records_of(second) =~= records_of(first));
        assert(failures_of(first) + failures_of(second) =~= failures_of(first));
    } else {
        assert((first + second).drop_last() =~= first + second.drop_last());
        assert((first + second).last() == second.last());
        collection_splits(first, second.drop_last());
        assert(records_of(first + second) =~= records_of(first) + records_of(second));
        assert(failures_of(first + second) =~= failures_of(first) + failures_of(second));
    }
}

/// With no controller present, or with every controller failing, a pass
/// gives no record; that is an outcome like any other.
pub proof fn all_failing_gives_no_record(fetched: Seq<FetchedLog>)
    requires
        forall|i: int| 0 <= i < fetched.len() ==> record_of(#[trigger] fetched[i]) is None,
    ensures
        records_of(fetched) == Seq::<SmartLogModel>::empty(),
        failures_of(fetched).len() == fetched.len(),
    decreases fetched.len(),
{
    if fetched.len() > 0 {
        all_failing_gives_no_record(fetched.drop_last());
        every_controller_is_accounted_for(fetched);
    }
}

} // verus!
