//! The admin commands that fetch telemetry from a controller.
//!
//! A command is built here and submitted by the caller, who owns the device
//! handle and the buffer that the kernel fills.

use vstd::prelude::*;

verus! {

/// Log page identifier of the SMART / Health Information page.
pub const SMART_LOG_PAGE_ID: u8 = 0x02;

/// Length in bytes of the buffer that receives the SMART / Health page.
pub const SMART_LOG_DATA_LEN: u32 = 512;

/// Namespace identifier that addresses the controller as a whole. The health
/// page is kept per controller; firmware may reject any other scope.
pub const CONTROLLER_SCOPE: u32 = 0xFFFF_FFFF;

/// Time that the kernel allows one admin command, in milliseconds.
pub const COMMAND_TIMEOUT_MS: u32 = 1000;

/// Controller or namespace structure selector of Identify Controller.
pub const IDENTIFY_CONTROLLER_CNS: u8 = 0x01;

/// Length in bytes of the Identify Controller data structure.
pub const IDENTIFY_DATA_LEN: u32 = 4096;

/// What the library fills in of an admin passthrough command. The fields it
/// does not name are zero.
#[derive(Debug, Clone, Copy, PartialEq, Eq, Structural)]
pub struct AdminCommand {
    /// Opcode of the admin command.
    pub opcode: u8,
    /// Namespace that the command addresses.
    pub nsid: u32,
    /// Address of the buffer that the kernel fills.
    pub addr: u64,
    /// Length of that buffer in bytes.
    pub data_len: u32,
    /// Command word 10.
    pub cdw10: u32,
    /// Command word 11.
    pub cdw11: u32,
    /// Timeout in milliseconds.
    pub timeout_ms: u32,
}

/// Number of dwords to transfer, less one, for a buffer of `data_len` bytes.
pub open spec fn numd(data_len: u32) -> u32 {
    (data_len / 4 - 1) as u32
}

/// Command word 10 of Get Log Page: the page identifier in the low byte and
/// the number of dwords, less one, from bit 16 up.
pub open spec fn log_page_cdw10(log_page_id: u8, data_len: u32) -> u32 {
    (log_page_id as u32) | (numd(data_len) << 16)
}

/// Command word 10 of Identify: the structure selector in the low byte and
/// the controller identifier from bit 16 up.
pub open spec fn identify_cdw10(cns: u8, cntlid: u16) -> u32 {
    (cns as u32) | ((cntlid as u32) << 16)
}

/// The command that fetches the SMART / Health page into the buffer at `addr`.
pub open spec fn smart_log_command_spec(addr: u64) -> AdminCommand {
    AdminCommand {
        opcode: 0x02,
        nsid: CONTROLLER_SCOPE,
        addr,
        data_len: SMART_LOG_DATA_LEN,
        cdw10: log_page_cdw10(SMART_LOG_PAGE_ID, SMART_LOG_DATA_LEN),
        cdw11: 0,
        timeout_ms: COMMAND_TIMEOUT_MS,
    }
}

/// The command that fetches the Identify Controller structure into the buffer at `addr`.
pub open spec fn identify_command_spec(addr: u64) -> AdminCommand {
    AdminCommand {
        opcode: 0x06,
        nsid: 0,
        addr,
        data_len: IDENTIFY_DATA_LEN,
        cdw10: identify_cdw10(IDENTIFY_CONTROLLER_CNS, 0),
        cdw11: 0,
        timeout_ms: COMMAND_TIMEOUT_MS,
    }
}

/// The opcode of Get Log Page, `nvme_admin_opcode::nvme_admin_get_log_page`
/// of `nvme_cli_sys`, which the bindings give as 2.
#[verifier::external_body]
fn get_log_page_opcode() -> (opcode: u8)
    ensures
        opcode == 0x02,
{
    nvme_cli_sys::nvme_admin_opcode::nvme_admin_get_log_page as u8
}

/// The opcode of Identify, `nvme_admin_opcode::nvme_admin_identify` of
/// `nvme_cli_sys`, which the bindings give as 6.
#[verifier::external_body]
fn identify_opcode() -> (opcode: u8)
    ensures
        opcode == 0x06,
{
    nvme_cli_sys::nvme_admin_opcode::nvme_admin_identify as u8
}

/// Computes command word 10 of Get Log Page for a buffer of `data_len` bytes.
pub fn get_log_page_cdw10(log_page_id: u8, data_len: u32) -> (cdw10: u32)
    requires
        data_len >= 4,
    ensures
        cdw10 == log_page_cdw10(log_page_id, data_len),
{
    let dwords_less_one: u32 = data_len / 4 - 1;
    (log_page_id as u32) | (dwords_less_one << 16)
}

/// Computes command word 10 of Identify.
pub fn get_identify_cdw10(cns: u8, cntlid: u16) -> (cdw10: u32)
    ensures
        cdw10 == identify_cdw10(cns, cntlid),
{
    (cns as u32) | ((cntlid as u32) << 16)
}

/// Command word 10 for the 512-byte SMART / Health page is `0x007F0002`.
pub proof fn smart_log_cdw10_value()
    ensures
        log_page_cdw10(SMART_LOG_PAGE_ID, SMART_LOG_DATA_LEN) == 0x007F_0002,
{
    assert(numd(512) == 127);
    assert((0x02u32 | (127u32 << 16)) == 0x007F_0002u32) by (bit_vector);
}

/// Where the count of dwords fits its sixteen bits, command word 10 holds the
/// page identifier and the count side by side, neither touching the other.
pub proof fn log_page_cdw10_parts(log_page_id: u8, data_len: u32)
    requires
        4 <= data_len <= 0x4_0000,
    ensures
        log_page_cdw10(log_page_id, data_len) == log_page_id + 0x1_0000 * numd(data_len),
        log_page_cdw10(log_page_id, data_len) & 0xFF == log_page_id,
        log_page_cdw10(log_page_id, data_len) >> 16 == numd(data_len),
{
    let n = numd(data_len);
    let lid = log_page_id as u32;
    assert(n <= 0xFFFF);
    assert((lid | (n << 16)) == lid + 0x1_0000 * n && (lid | (n << 16)) & 0xFF == lid && (lid | (n
        << 16)) >> 16 == n) by (bit_vector)
        requires
            n <= 0xFFFF,
            lid <= 0xFF,
    ;
}

/// Builds the command that fetches the SMART / Health page into the buffer at `addr`.
pub fn smart_log_command(addr: u64) -> (command: AdminCommand)
    ensures
        command == smart_log_command_spec(addr),
        command.cdw10 == 0x007F_0002,
{
    proof {
        smart_log_cdw10_value();
    }
    AdminCommand {
        opcode: get_log_page_opcode(),
        nsid: CONTROLLER_SCOPE,
        addr,
        data_len: SMART_LOG_DATA_LEN,
        cdw10: get_log_page_cdw10(SMART_LOG_PAGE_ID, SMART_LOG_DATA_LEN),
        cdw11: 0,
        timeout_ms: COMMAND_TIMEOUT_MS,
    }
}

/// Builds the command that fetches the Identify Controller structure into the buffer at `addr`.
pub fn identify_command(addr: u64) -> (command: AdminCommand)
    ensures
        command == identify_command_spec(addr),
        command.cdw10 == 0x0000_0001,
{
    proof {
        assert((0x01u32 | ((0u16 as u32) << 16)) == 0x0000_0001u32) by (bit_vector);
    }
    AdminCommand {
        opcode: identify_opcode(),
        nsid: 0,
        addr,
        data_len: IDENTIFY_DATA_LEN,
        cdw10: get_identify_cdw10(IDENTIFY_CONTROLLER_CNS, 0),
        cdw11: 0,
        timeout_ms: COMMAND_TIMEOUT_MS,
    }
}

} // verus!
