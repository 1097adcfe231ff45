//! The NVMe SMART / Health Information log page and its decoder.
//!
//! The page is a buffer of [`SMART_LOG_LEN`] bytes that the controller fills.
//! Every number in it is little-endian. The decoder reads named offsets of
//! that buffer and touches nothing else.

use crate::collector::bytes::{
    le_at, le_value_of_zeros, narrowed, read_counter, read_le16, read_le32, read_u8,
};
use vstd::prelude::*;

verus! {

/// Length in bytes of the SMART / Health Information log page.
pub const SMART_LOG_LEN: usize = 512;

/// Offset of the first of the eight temperature sensors.
pub const SENSORS_OFFSET: usize = 200;

/// One controller's decoded health log. A field that the source of the data
/// could not give is `None`; a `Some(0)` is a zero that was read.
///
/// The wide counters of the page hold 128 bits and are given here by their
/// low 64 bits.
#[derive(Debug, Clone, PartialEq, Eq)]
pub struct NvmesSmartLog {
    /// Name of the controller, such as `nvme0`.
    pub nvme_name: String,
    /// Critical warning bitmask (byte 0); 0 means no warning.
    pub critical_warning: Option<u64>,
    /// Composite temperature in kelvins (bytes 1..3).
    pub temperature: Option<u64>,
    /// Available spare capacity in percent (byte 3).
    pub avail_spare: Option<u64>,
    /// Threshold for the available spare, in percent (byte 4).
    pub spare_thresh: Option<u64>,
    /// The vendor's estimate of the life used, in percent (byte 5). It may exceed 100.
    pub percent_used: Option<u64>,
    /// Endurance group critical warning summary (byte 6).
    pub endurance_grp_critical_warning_summary: Option<u64>,
    /// Data units read, in thousands of 512-byte units (bytes 32..48).
    pub data_units_read: Option<u64>,
    /// Data units written, in thousands of 512-byte units (bytes 48..64).
    pub data_units_written: Option<u64>,
    /// Host read commands completed (bytes 64..80).
    pub host_read_commands: Option<u64>,
    /// Host write commands completed (bytes 80..96).
    pub host_write_commands: Option<u64>,
    /// Time the controller was busy with I/O, in minutes (bytes 96..112).
    pub controller_busy_time: Option<u64>,
    /// Power cycles (bytes 112..128).
    pub power_cycles: Option<u64>,
    /// Power-on hours (bytes 128..144).
    pub power_on_hours: Option<u64>,
    /// Unsafe shutdowns (bytes 144..160).
    pub unsafe_shutdowns: Option<u64>,
    /// Media and data integrity errors (bytes 160..176).
    pub media_errors: Option<u64>,
    /// Error information log entries over the controller's life (bytes 176..192).
    pub num_err_log_entries: Option<u64>,
    /// Minutes at or above the warning temperature (bytes 192..196).
    pub warning_temp_time: Option<u64>,
    /// Minutes at or above the critical temperature (bytes 196..200).
    pub critical_comp_time: Option<u64>,
    /// Temperature sensor 1 in kelvins (bytes 200..202); absent where the sensor is not implemented.
    pub temperature_sensor_1: Option<u64>,
    /// Temperature sensor 2 in kelvins (bytes 202..204); absent where the sensor is not implemented.
    pub temperature_sensor_2: Option<u64>,
    /// Temperature sensor 3 in kelvins (bytes 204..206); absent where the sensor is not implemented.
    pub temperature_sensor_3: Option<u64>,
    /// Temperature sensor 4 in kelvins (bytes 206..208); absent where the sensor is not implemented.
    pub temperature_sensor_4: Option<u64>,
    /// Temperature sensor 5 in kelvins (bytes 208..210); absent where the sensor is not implemented.
    pub temperature_sensor_5: Option<u64>,
    /// Temperature sensor 6 in kelvins (bytes 210..212); absent where the sensor is not implemented.
    pub temperature_sensor_6: Option<u64>,
    /// Temperature sensor 7 in kelvins (bytes 212..214); absent where the sensor is not implemented.
    pub temperature_sensor_7: Option<u64>,
    /// Temperature sensor 8 in kelvins (bytes 214..216); absent where the sensor is not implemented.
    pub temperature_sensor_8: Option<u64>,
    /// Transitions into thermal management level 1 (bytes 216..220).
    pub thm_temp1_trans_count: Option<u64>,
    /// Transitions into thermal management level 2 (bytes 220..224).
    pub thm_temp2_trans_count: Option<u64>,
    /// Seconds spent in thermal management level 1 (bytes 224..228).
    pub thm_temp1_total_time: Option<u64>,
    /// Seconds spent in thermal management level 2 (bytes 228..232).
    pub thm_temp2_total_time: Option<u64>,
}

/// What a record says, with the controller's name as a sequence of characters.
pub struct SmartLogModel {
    pub nvme_name: Seq<char>,
    pub critical_warning: Option<u64>,
    pub temperature: Option<u64>,
    pub avail_spare: Option<u64>,
    pub spare_thresh: Option<u64>,
    pub percent_used: Option<u64>,
    pub endurance_grp_critical_warning_summary: Option<u64>,
    pub data_units_read: Option<u64>,
    pub data_units_written: Option<u64>,
    pub host_read_commands: Option<u64>,
    pub host_write_commands: Option<u64>,
    pub controller_busy_time: Option<u64>,
    pub power_cycles: Option<u64>,
    pub power_on_hours: Option<u64>,
    pub unsafe_shutdowns: Option<u64>,
    pub media_errors: Option<u64>,
    pub num_err_log_entries: Option<u64>,
    pub warning_temp_time: Option<u64>,
    pub critical_comp_time: Option<u64>,
    pub temperature_sensor_1: Option<u64>,
    pub temperature_sensor_2: Option<u64>,
    pub temperature_sensor_3: Option<u64>,
    pub temperature_sensor_4: Option<u64>,
    pub temperature_sensor_5: Option<u64>,
    pub temperature_sensor_6: Option<u64>,
    pub temperature_sensor_7: Option<u64>,
    pub temperature_sensor_8: Option<u64>,
    pub thm_temp1_trans_count: Option<u64>,
    pub thm_temp2_trans_count: Option<u64>,
    pub thm_temp1_total_time: Option<u64>,
    pub thm_temp2_total_time: Option<u64>,
}

impl View for NvmesSmartLog {
    type V = SmartLogModel;

    open spec fn view(&self) -> SmartLogModel {
        SmartLogModel {
            nvme_name: self.nvme_name@,
            critical_warning: self.critical_warning,
            temperature: self.temperature,
            avail_spare: self.avail_spare,
            spare_thresh: self.spare_thresh,
            percent_used: self.percent_used,
            endurance_grp_critical_warning_summary: self.endurance_grp_critical_warning_summary,
            data_units_read: self.data_units_read,
            data_units_written: self.data_units_written,
            host_read_commands: self.host_read_commands,
            host_write_commands: self.host_write_commands,
            controller_busy_time: self.controller_busy_time,
            power_cycles: self.power_cycles,
            power_on_hours: self.power_on_hours,
            unsafe_shutdowns: self.unsafe_shutdowns,
            media_errors: self.media_errors,
            num_err_log_entries: self.num_err_log_entries,
            warning_temp_time: self.warning_temp_time,
            critical_comp_time: self.critical_comp_time,
            temperature_sensor_1: self.temperature_sensor_1,
            temperature_sensor_2: self.temperature_sensor_2,
            temperature_sensor_3: self.temperature_sensor_3,
            temperature_sensor_4: self.temperature_sensor_4,
            temperature_sensor_5: self.temperature_sensor_5,
            temperature_sensor_6: self.temperature_sensor_6,
            temperature_sensor_7: self.temperature_sensor_7,
            temperature_sensor_8: self.temperature_sensor_8,
            thm_temp1_trans_count: self.thm_temp1_trans_count,
            thm_temp2_trans_count: self.thm_temp2_trans_count,
            thm_temp1_total_time: self.thm_temp1_total_time,
            thm_temp2_total_time: self.thm_temp2_total_time,
        }
    }
}

/// What a list of records says, record by record.
pub open spec fn record_models(records: Seq<NvmesSmartLog>) -> Seq<SmartLogModel> {
    records.map_values(|r: NvmesSmartLog| r@)
}

/// The reading of temperature sensor `number` (1 to 8). A sensor that the
/// controller does not implement reports zero, which is no temperature: it
/// reads as absent.
pub open spec fn sensor_reading(buf: Seq<u8>, number: int) -> Option<u64> {
    let raw = le_at(buf, SENSORS_OFFSET + 2 * (number - 1), 2);
    if raw == 0 {
        None
    } else {
        Some(raw as u64)
    }
}

/// The record that a full log page spells for the controller `name`.
pub open spec fn decoded(name: Seq<char>, buf: Seq<u8>) -> SmartLogModel {
    SmartLogModel {
        nvme_name: name,
        critical_warning: Some(buf[0] as u64),
        temperature: Some(le_at(buf, 1, 2) as u64),
        avail_spare: Some(buf[3] as u64),
        spare_thresh: Some(buf[4] as u64),
        percent_used: Some(buf[5] as u64),
        endurance_grp_critical_warning_summary: Some(buf[6] as u64),
        data_units_read: Some(narrowed(le_at(buf, 32, 16))),
        data_units_written: Some(narrowed(le_at(buf, 48, 16))),
        host_read_commands: Some(narrowed(le_at(buf, 64, 16))),
        host_write_commands: Some(narrowed(le_at(buf, 80, 16))),
        controller_busy_time: Some(narrowed(le_at(buf, 96, 16))),
        power_cycles: Some(narrowed(le_at(buf, 112, 16))),
        power_on_hours: Some(narrowed(le_at(buf, 128, 16))),
        unsafe_shutdowns: Some(narrowed(le_at(buf, 144, 16))),
        media_errors: Some(narrowed(le_at(buf, 160, 16))),
        num_err_log_entries: Some(narrowed(le_at(buf, 176, 16))),
        warning_temp_time: Some(le_at(buf, 192, 4) as u64),
        critical_comp_time: Some(le_at(buf, 196, 4) as u64),
        temperature_sensor_1: sensor_reading(buf, 1),
        temperature_sensor_2: sensor_reading(buf, 2),
        temperature_sensor_3: sensor_reading(buf, 3),
        temperature_sensor_4: sensor_reading(buf, 4),
        temperature_sensor_5: sensor_reading(buf, 5),
        temperature_sensor_6: sensor_reading(buf, 6),
        temperature_sensor_7: sensor_reading(buf, 7),
        temperature_sensor_8: sensor_reading(buf, 8),
        thm_temp1_trans_count: Some(le_at(buf, 216, 4) as u64),
        thm_temp2_trans_count: Some(le_at(buf, 220, 4) as u64),
        thm_temp1_total_time: Some(le_at(buf, 224, 4) as u64),
        thm_temp2_total_time: Some(le_at(buf, 228, 4) as u64),
    }
}

/// The record that a log page spells where the layer below does not surface
/// the endurance group summary, which the first revisions of the page kept
/// as a reserved byte: that field is absent, whatever the byte holds, and
/// every other field is read as [`decoded`] reads it.
pub open spec fn decoded_basic(name: Seq<char>, buf: Seq<u8>) -> SmartLogModel {
    SmartLogModel { endurance_grp_critical_warning_summary: None, ..decoded(name, buf) }
}

/// Reads temperature sensor `number` (1 to 8) of a log page.
pub fn read_sensor(raw: &[u8], number: usize) -> (reading: Option<u64>)
    requires
        raw@.len() == SMART_LOG_LEN,
        1 <= number <= 8,
    ensures
        reading == sensor_reading(raw@, number as int),
{
    let kelvins = read_le16(raw, SENSORS_OFFSET + 2 * (number - 1));
    if kelvins == 0 {
        None
    } else {
        Some(kelvins)
    }
}

impl NvmesSmartLog {
    /// Decodes a log page read from the controller `nvme_name`.
    pub fn new(nvme_name: String, raw: &[u8]) -> (record: Self)
        requires
            raw@.len() == SMART_LOG_LEN,
        ensures
            record@ == decoded(nvme_name@, raw@),
    {
        NvmesSmartLog {
            nvme_name,
            critical_warning: Some(read_u8(raw, 0)),
            temperature: Some(read_le16(raw, 1)),
            avail_spare: Some(read_u8(raw, 3)),
            spare_thresh: Some(read_u8(raw, 4)),
            percent_used: Some(read_u8(raw, 5)),
            endurance_grp_critical_warning_summary: Some(read_u8(raw, 6)),
            data_units_read: Some(read_counter(raw, 32)),
            data_units_written: Some(read_counter(raw, 48)),
            host_read_commands: Some(read_counter(raw, 64)),
            host_write_commands: Some(read_counter(raw, 80)),
            controller_busy_time: Some(read_counter(raw, 96)),
            power_cycles: Some(read_counter(raw, 112)),
            power_on_hours: Some(read_counter(raw, 128)),
            unsafe_shutdowns: Some(read_counter(raw, 144)),
            media_errors: Some(read_counter(raw, 160)),
            num_err_log_entries: Some(read_counter(raw, 176)),
            warning_temp_time: Some(read_le32(raw, 192)),
            critical_comp_time: Some(read_le32(raw, 196)),
            temperature_sensor_1: read_sensor(raw, 1),
            temperature_sensor_2: read_sensor(raw, 2),
            temperature_sensor_3: read_sensor(raw, 3),
            temperature_sensor_4: read_sensor(raw, 4),
            temperature_sensor_5: read_sensor(raw, 5),
            temperature_sensor_6: read_sensor(raw, 6),
            temperature_sensor_7: read_sensor(raw, 7),
            temperature_sensor_8: read_sensor(raw, 8),
            thm_temp1_trans_count: Some(read_le32(raw, 216)),
            thm_temp2_trans_count: Some(read_le32(raw, 220)),
            thm_temp1_total_time: Some(read_le32(raw, 224)),
            thm_temp2_total_time: Some(read_le32(raw, 228)),
        }
    }
}

/// Decodes a log page as a binding does that knows the page in its first
/// revisions: the endurance group summary is absent, and every other field,
/// each of the eight temperature sensors among them, is read from its offset.
pub fn smart_log_from_kernel(nvme_name: String, raw: &[u8]) -> (record: NvmesSmartLog)
    requires
        raw@.len() == SMART_LOG_LEN,
    ensures
        record@ == decoded_basic(nvme_name@, raw@),
{
    NvmesSmartLog {
        nvme_name,
        critical_warning: Some(read_u8(raw, 0)),
        temperature: Some(read_le16(raw, 1)),
        avail_spare: Some(read_u8(raw, 3)),
        spare_thresh: Some(read_u8(raw, 4)),
        percent_used: Some(read_u8(raw, 5)),
        endurance_grp_critical_warning_summary: None,
        data_units_read: Some(read_counter(raw, 32)),
        data_units_written: Some(read_counter(raw, 48)),
        host_read_commands: Some(read_counter(raw, 64)),
        host_write_commands: Some(read_counter(raw, 80)),
        controller_busy_time: Some(read_counter(raw, 96)),
        power_cycles: Some(read_counter(raw, 112)),
        power_on_hours: Some(read_counter(raw, 128)),
        unsafe_shutdowns: Some(read_counter(raw, 144)),
        media_errors: Some(read_counter(raw, 160)),
        num_err_log_entries: Some(read_counter(raw, 176)),
        warning_temp_time: Some(read_le32(raw, 192)),
        critical_comp_time: Some(read_le32(raw, 196)),
        temperature_sensor_1: read_sensor(raw, 1),
        temperature_sensor_2: read_sensor(raw, 2),
        temperature_sensor_3: read_sensor(raw, 3),
        temperature_sensor_4: read_sensor(raw, 4),
        temperature_sensor_5: read_sensor(raw, 5),
        temperature_sensor_6: read_sensor(raw, 6),
        temperature_sensor_7: read_sensor(raw, 7),
        temperature_sensor_8: read_sensor(raw, 8),
        thm_temp1_trans_count: Some(read_le32(raw, 216)),
        thm_temp2_trans_count: Some(read_le32(raw, 220)),
        thm_temp1_total_time: Some(read_le32(raw, 224)),
        thm_temp2_total_time: Some(read_le32(raw, 228)),
    }
}

/// The record of a page that is all zero: every reading is a zero that was
/// read, the composite temperature too, and no sensor is implemented.
pub open spec fn zero_record(name: Seq<char>) -> SmartLogModel {
    SmartLogModel {
        nvme_name: name,
        critical_warning: Some(0),
        temperature: Some(0),
        avail_spare: Some(0),
        spare_thresh: Some(0),
        percent_used: Some(0),
        endurance_grp_critical_warning_summary: Some(0),
        data_units_read: Some(0),
        data_units_written: Some(0),
        host_read_commands: Some(0),
        host_write_commands: Some(0),
        controller_busy_time: Some(0),
        power_cycles: Some(0),
        power_on_hours: Some(0),
        unsafe_shutdowns: Some(0),
        media_errors: Some(0),
        num_err_log_entries: Some(0),
        warning_temp_time: Some(0),
        critical_comp_time: Some(0),
        temperature_sensor_1: None,
        temperature_sensor_2: None,
        temperature_sensor_3: None,
        temperature_sensor_4: None,
        temperature_sensor_5: None,
        temperature_sensor_6: None,
        temperature_sensor_7: None,
        temperature_sensor_8: None,
        thm_temp1_trans_count: Some(0),
        thm_temp2_trans_count: Some(0),
        thm_temp1_total_time: Some(0),
        thm_temp2_total_time: Some(0),
    }
}

/// A page that is all zero decodes, and decodes to zeros.
pub proof fn zero_page_decodes_to_zeros(name: Seq<char>, buf: Seq<u8>)
    requires
        buf.len() == SMART_LOG_LEN,
        forall|i: int| 0 <= i < buf.len() ==> buf[i] == 0,
    ensures
        decoded(name, buf) == zero_record(name),
{
    assert forall|offset: int, width: int|
        0 <= offset && 0 <= width && offset + width <= buf.len() implies #[trigger] le_at(
        buf,
        offset,
        width,
    ) == 0 by {
        le_value_of_zeros(buf.subrange(offset, offset + width));
    }
}

/// Every sensor that the controller implements is reported, each from its
/// own two bytes, by the one decoder as by the other.
pub proof fn implemented_sensors_are_reported(name: Seq<char>, buf: Seq<u8>, number: int)
    requires
        buf.len() == SMART_LOG_LEN,
        1 <= number <= 8,
        le_at(buf, SENSORS_OFFSET + 2 * (number - 1), 2) != 0,
    ensures
        sensor_reading(buf, number) == Some(le_at(buf, 198 + 2 * number, 2) as u64),
        decoded(name, buf).temperature_sensor_1 == sensor_reading(buf, 1),
        decoded(name, buf).temperature_sensor_2 == sensor_reading(buf, 2),
        decoded(name, buf).temperature_sensor_3 == sensor_reading(buf, 3),
        decoded(name, buf).temperature_sensor_4 == sensor_reading(buf, 4),
        decoded(name, buf).temperature_sensor_5 == sensor_reading(buf, 5),
        decoded(name, buf).temperature_sensor_6 == sensor_reading(buf, 6),
        decoded(name, buf).temperature_sensor_7 == sensor_reading(buf, 7),
        decoded(name, buf).temperature_sensor_8 == sensor_reading(buf, 8),
        decoded_basic(name, buf).temperature_sensor_1 == sensor_reading(buf, 1),
        decoded_basic(name, buf).temperature_sensor_2 == sensor_reading(buf, 2),
        decoded_basic(name, buf).temperature_sensor_3 == sensor_reading(buf, 3),
        decoded_basic(name, buf).temperature_sensor_4 == sensor_reading(buf, 4),
        decoded_basic(name, buf).temperature_sensor_5 == sensor_reading(buf, 5),
        decoded_basic(name, buf).temperature_sensor_6 == sensor_reading(buf, 6),
        decoded_basic(name, buf).temperature_sensor_7 == sensor_reading(buf, 7),
        decoded_basic(name, buf).temperature_sensor_8 == sensor_reading(buf, 8),
{
}

/// The life used is reported as the controller gives it: whatever the byte
/// holds, up to 255, is what the record says, and nothing cuts it to 100.
pub proof fn percent_used_is_not_clamped(name: Seq<char>, buf: Seq<u8>)
    requires
        buf.len() == SMART_LOG_LEN,
    ensures
        decoded(name, buf).percent_used == Some(buf[5] as u64),
        decoded_basic(name, buf).percent_used == Some(buf[5] as u64),
        buf[5] > 100 ==> decoded(name, buf).percent_used->0 > 100,
{
}

} // verus!
