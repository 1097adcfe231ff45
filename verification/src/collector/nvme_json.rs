//! The health log as a JSON object, written and read back.
//!
//! A record is written as one flat object: the controller's name under
//! `nvme_name`, and every reading under the name of its field, as a number
//! where it is present and as null where it is absent. Reading takes a
//! member that is missing, null or no unsigned integer as absent.

use crate::collector::json::{
    empty_object, json_is_object, json_members, member_u64, no_members, number_at,
    reading_member, set_reading, set_string, written_reading_is_read, JsonMember,
};
use crate::collector::nvme::{NvmesSmartLog, SmartLogModel};
use vstd::prelude::*;

verus! {

/// The members of the object that a record is written as.
pub open spec fn members_of(record: SmartLogModel) -> Map<Seq<char>, JsonMember> {
    let m = no_members().insert("nvme_name"@, JsonMember::Text(record.nvme_name));
    let m = m.insert("critical_warning"@, reading_member(record.critical_warning));
    let m = m.insert("temperature"@, reading_member(record.temperature));
    let m = m.insert("avail_spare"@, reading_member(record.avail_spare));
    let m = m.insert("spare_thresh"@, reading_member(record.spare_thresh));
    let m = m.insert("percent_used"@, reading_member(record.percent_used));
    let m = m.insert("endurance_grp_critical_warning_summary"@, reading_member(record.endurance_grp_critical_warning_summary));
    let m = m.insert("data_units_read"@, reading_member(record.data_units_read));
    let m = m.insert("data_units_written"@, reading_member(record.data_units_written));
    let m = m.insert("host_read_commands"@, reading_member(record.host_read_commands));
    let m = m.insert("host_write_commands"@, reading_member(record.host_write_commands));
    let m = m.insert("controller_busy_time"@, reading_member(record.controller_busy_time));
    let m = m.insert("power_cycles"@, reading_member(record.power_cycles));
    let m = m.insert("power_on_hours"@, reading_member(record.power_on_hours));
    let m = m.insert("unsafe_shutdowns"@, reading_member(record.unsafe_shutdowns));
    let m = m.insert("media_errors"@, reading_member(record.media_errors));
    let m = m.insert("num_err_log_entries"@, reading_member(record.num_err_log_entries));
    let m = m.insert("warning_temp_time"@, reading_member(record.warning_temp_time));
    let m = m.insert("critical_comp_time"@, reading_member(record.critical_comp_time));
    let m = m.insert("temperature_sensor_1"@, reading_member(record.temperature_sensor_1));
    let m = m.insert("temperature_sensor_2"@, reading_member(record.temperature_sensor_2));
    let m = m.insert("temperature_sensor_3"@, reading_member(record.temperature_sensor_3));
    let m = m.insert("temperature_sensor_4"@, reading_member(record.temperature_sensor_4));
    let m = m.insert("temperature_sensor_5"@, reading_member(record.temperature_sensor_5));
    let m = m.insert("temperature_sensor_6"@, reading_member(record.temperature_sensor_6));
    let m = m.insert("temperature_sensor_7"@, reading_member(record.temperature_sensor_7));
    let m = m.insert("temperature_sensor_8"@, reading_member(record.temperature_sensor_8));
    let m = m.insert("thm_temp1_trans_count"@, reading_member(record.thm_temp1_trans_count));
    let m = m.insert("thm_temp2_trans_count"@, reading_member(record.thm_temp2_trans_count));
    let m = m.insert("thm_temp1_total_time"@, reading_member(record.thm_temp1_total_time));
    let m = m.insert("thm_temp2_total_time"@, reading_member(record.thm_temp2_total_time));
    m
}

/// The record of the controller `name` that the members of an object spell.
pub open spec fn record_from_members(
    name: Seq<char>,
    members: Map<Seq<char>, JsonMember>,
) -> SmartLogModel {
    SmartLogModel {
        nvme_name: name,
        critical_warning: number_at(members, "critical_warning"@),
        temperature: number_at(members, "temperature"@),
        avail_spare: number_at(members, "avail_spare"@),
        spare_thresh: number_at(members, "spare_thresh"@),
        percent_used: number_at(members, "percent_used"@),
        endurance_grp_critical_warning_summary: number_at(members, "endurance_grp_critical_warning_summary"@),
        data_units_read: number_at(members, "data_units_read"@),
        data_units_written: number_at(members, "data_units_written"@),
        host_read_commands: number_at(members, "host_read_commands"@),
        host_write_commands: number_at(members, "host_write_commands"@),
        controller_busy_time: number_at(members, "controller_busy_time"@),
        power_cycles: number_at(members, "power_cycles"@),
        power_on_hours: number_at(members, "power_on_hours"@),
        unsafe_shutdowns: number_at(members, "unsafe_shutdowns"@),
        media_errors: number_at(members, "media_errors"@),
        num_err_log_entries: number_at(members, "num_err_log_entries"@),
        warning_temp_time: number_at(members, "warning_temp_time"@),
        critical_comp_time: number_at(members, "critical_comp_time"@),
        temperature_sensor_1: number_at(members, "temperature_sensor_1"@),
        temperature_sensor_2: number_at(members, "temperature_sensor_2"@),
        temperature_sensor_3: number_at(members, "temperature_sensor_3"@),
        temperature_sensor_4: number_at(members, "temperature_sensor_4"@),
        temperature_sensor_5: number_at(members, "temperature_sensor_5"@),
        temperature_sensor_6: number_at(members, "temperature_sensor_6"@),
        temperature_sensor_7: number_at(members, "temperature_sensor_7"@),
        temperature_sensor_8: number_at(members, "temperature_sensor_8"@),
        thm_temp1_trans_count: number_at(members, "thm_temp1_trans_count"@),
        thm_temp2_trans_count: number_at(members, "thm_temp2_trans_count"@),
        thm_temp1_total_time: number_at(members, "thm_temp1_total_time"@),
        thm_temp2_total_time: number_at(members, "thm_temp2_total_time"@),
    }
}

/// What tells the names of the members apart: the length of a name, its
/// ninth character and its last.
pub open spec fn name_marks(name: Seq<char>) -> (nat, char, char) {
    (name.len(), name[8], name.last())
}

/// No two members have the same name: each name has marks of its own.
pub proof fn member_names_differ()
    ensures
        name_marks("nvme_name"@) == (9nat, 'e', 'e'),
        name_marks("critical_warning"@) == (16nat, '_', 'g'),
        name_marks("temperature"@) == (11nat, 'u', 'e'),
        name_marks("avail_spare"@) == (11nat, 'a', 'e'),
        name_marks("spare_thresh"@) == (12nat, 'r', 'h'),
        name_marks("percent_used"@) == (12nat, 'u', 'd'),
        name_marks("endurance_grp_critical_warning_summary"@) == (38nat, 'e', 'y'),
        name_marks("data_units_read"@) == (15nat, 't', 'd'),
        name_marks("data_units_written"@) == (18nat, 't', 'n'),
        name_marks("host_read_commands"@) == (18nat, 'd', 's'),
        name_marks("host_write_commands"@) == (19nat, 't', 's'),
        name_marks("controller_busy_time"@) == (20nat, 'e', 'e'),
        name_marks("power_cycles"@) == (12nat, 'c', 's'),
        name_marks("power_on_hours"@) == (14nat, '_', 's'),
        name_marks("unsafe_shutdowns"@) == (16nat, 'h', 's'),
        name_marks("media_errors"@) == (12nat, 'r', 's'),
        name_marks("num_err_log_entries"@) == (19nat, 'l', 's'),
        name_marks("warning_temp_time"@) == (17nat, 't', 'e'),
        name_marks("critical_comp_time"@) == (18nat, '_', 'e'),
        name_marks("temperature_sensor_1"@) == (20nat, 'u', '1'),
        name_marks("temperature_sensor_2"@) == (20nat, 'u', '2'),
        name_marks("temperature_sensor_3"@) == (20nat, 'u', '3'),
        name_marks("temperature_sensor_4"@) == (20nat, 'u', '4'),
        name_marks("temperature_sensor_5"@) == (20nat, 'u', '5'),
        name_marks("temperature_sensor_6"@) == (20nat, 'u', '6'),
        name_marks("temperature_sensor_7"@) == (20nat, 'u', '7'),
        name_marks("temperature_sensor_8"@) == (20nat, 'u', '8'),
        name_marks("thm_temp1_trans_count"@) == (21nat, '1', 't'),
        name_marks("thm_temp2_trans_count"@) == (21nat, '2', 't'),
        name_marks("thm_temp1_total_time"@) == (20nat, '1', 'e'),
        name_marks("thm_temp2_total_time"@) == (20nat, '2', 'e'),
{
    reveal_strlit("nvme_name");
    reveal_strlit("critical_warning");
    reveal_strlit("temperature");
    reveal_strlit("avail_spare");
    reveal_strlit("spare_thresh");
    reveal_strlit("percent_used");
    reveal_strlit("endurance_grp_critical_warning_summary");
    reveal_strlit("data_units_read");
    reveal_strlit("data_units_written");
    reveal_strlit("host_read_commands");
    reveal_strlit("host_write_commands");
    reveal_strlit("controller_busy_time");
    reveal_strlit("power_cycles");
    reveal_strlit("power_on_hours");
    reveal_strlit("unsafe_shutdowns");
    reveal_strlit("media_errors");
    reveal_strlit("num_err_log_entries");
    reveal_strlit("warning_temp_time");
    reveal_strlit("critical_comp_time");
    reveal_strlit("temperature_sensor_1");
    reveal_strlit("temperature_sensor_2");
    reveal_strlit("temperature_sensor_3");
    reveal_strlit("temperature_sensor_4");
    reveal_strlit("temperature_sensor_5");
    reveal_strlit("temperature_sensor_6");
    reveal_strlit("temperature_sensor_7");
    reveal_strlit("temperature_sensor_8");
    reveal_strlit("thm_temp1_trans_count");
    reveal_strlit("thm_temp2_trans_count");
    reveal_strlit("thm_temp1_total_time");
    reveal_strlit("thm_temp2_total_time");
}

impl NvmesSmartLog {
    /// Writes the record as a JSON object.
    pub fn to_json(&self) -> (doc: serde_json::Value)
        ensures
            json_is_object(doc),
            json_members(doc) == members_of(self@),
    {
        let mut doc = empty_object();
        set_string(&mut doc, "nvme_name", self.nvme_name.as_str());
        set_reading(&mut doc, "critical_warning", self.critical_warning);
        set_reading(&mut doc, "temperature", self.temperature);
        set_reading(&mut doc, "avail_spare", self.avail_spare);
        set_reading(&mut doc, "spare_thresh", self.spare_thresh);
        set_reading(&mut doc, "percent_used", self.percent_used);
        set_reading(&mut doc, "endurance_grp_critical_warning_summary", self.endurance_grp_critical_warning_summary);
        set_reading(&mut doc, "data_units_read", self.data_units_read);
        set_reading(&mut doc, "data_units_written", self.data_units_written);
        set_reading(&mut doc, "host_read_commands", self.host_read_commands);
        set_reading(&mut doc, "host_write_commands", self.host_write_commands);
        set_reading(&mut doc, "controller_busy_time", self.controller_busy_time);
        set_reading(&mut doc, "power_cycles", self.power_cycles);
        set_reading(&mut doc, "power_on_hours", self.power_on_hours);
        set_reading(&mut doc, "unsafe_shutdowns", self.unsafe_shutdowns);
        set_reading(&mut doc, "media_errors", self.media_errors);
        set_reading(&mut doc, "num_err_log_entries", self.num_err_log_entries);
        set_reading(&mut doc, "warning_temp_time", self.warning_temp_time);
        set_reading(&mut doc, "critical_comp_time", self.critical_comp_time);
        set_reading(&mut doc, "temperature_sensor_1", self.temperature_sensor_1);
        set_reading(&mut doc, "temperature_sensor_2", self.temperature_sensor_2);
        set_reading(&mut doc, "temperature_sensor_3", self.temperature_sensor_3);
        set_reading(&mut doc, "temperature_sensor_4", self.temperature_sensor_4);
        set_reading(&mut doc, "temperature_sensor_5", self.temperature_sensor_5);
        set_reading(&mut doc, "temperature_sensor_6", self.temperature_sensor_6);
        set_reading(&mut doc, "temperature_sensor_7", self.temperature_sensor_7);
        set_reading(&mut doc, "temperature_sensor_8", self.temperature_sensor_8);
        set_reading(&mut doc, "thm_temp1_trans_count", self.thm_temp1_trans_count);
        set_reading(&mut doc, "thm_temp2_trans_count", self.thm_temp2_trans_count);
        set_reading(&mut doc, "thm_temp1_total_time", self.thm_temp1_total_time);
        set_reading(&mut doc, "thm_temp2_total_time", self.thm_temp2_total_time);
        doc
    }
}

/// Reads the record of the controller `nvme_name` from a JSON document.
pub fn smart_log_from_json(nvme_name: String, doc: &serde_json::Value) -> (record: NvmesSmartLog)
    ensures
        record@ == record_from_members(nvme_name@, json_members(*doc)),
{
    NvmesSmartLog {
        nvme_name,
        critical_warning: member_u64(doc, "critical_warning"),
        temperature: member_u64(doc, "temperature"),
        avail_spare: member_u64(doc, "avail_spare"),
        spare_thresh: member_u64(doc, "spare_thresh"),
        percent_used: member_u64(doc, "percent_used"),
        endurance_grp_critical_warning_summary: member_u64(doc, "endurance_grp_critical_warning_summary"),
        data_units_read: member_u64(doc, "data_units_read"),
        data_units_written: member_u64(doc, "data_units_written"),
        host_read_commands: member_u64(doc, "host_read_commands"),
        host_write_commands: member_u64(doc, "host_write_commands"),
        controller_busy_time: member_u64(doc, "controller_busy_time"),
        power_cycles: member_u64(doc, "power_cycles"),
        power_on_hours: member_u64(doc, "power_on_hours"),
        unsafe_shutdowns: member_u64(doc, "unsafe_shutdowns"),
        media_errors: member_u64(doc, "media_errors"),
        num_err_log_entries: member_u64(doc, "num_err_log_entries"),
        warning_temp_time: member_u64(doc, "warning_temp_time"),
        critical_comp_time: member_u64(doc, "critical_comp_time"),
        temperature_sensor_1: member_u64(doc, "temperature_sensor_1"),
        temperature_sensor_2: member_u64(doc, "temperature_sensor_2"),
        temperature_sensor_3: member_u64(doc, "temperature_sensor_3"),
        temperature_sensor_4: member_u64(doc, "temperature_sensor_4"),
        temperature_sensor_5: member_u64(doc, "temperature_sensor_5"),
        temperature_sensor_6: member_u64(doc, "temperature_sensor_6"),
        temperature_sensor_7: member_u64(doc, "temperature_sensor_7"),
        temperature_sensor_8: member_u64(doc, "temperature_sensor_8"),
        thm_temp1_trans_count: member_u64(doc, "thm_temp1_trans_count"),
        thm_temp2_trans_count: member_u64(doc, "thm_temp2_trans_count"),
        thm_temp1_total_time: member_u64(doc, "thm_temp1_total_time"),
        thm_temp2_total_time: member_u64(doc, "thm_temp2_total_time"),
    }
}

/// Writing a record and reading it back gives the record: every present
/// reading comes back as it was, and every absent reading comes back absent.
pub proof fn written_record_reads_back(record: SmartLogModel)
    ensures
        record_from_members(record.nvme_name, members_of(record)) == record,
{
    member_names_differ();
    // One step for each member, in the order in which `members_of` sets them.
    let m = no_members().insert("nvme_name"@, JsonMember::Text(record.nvme_name));
    written_reading_is_read(m, "critical_warning"@, record.critical_warning);
    let m = m.insert("critical_warning"@, reading_member(record.critical_warning));
    written_reading_is_read(m, "temperature"@, record.temperature);
    let m = m.insert("temperature"@, reading_member(record.temperature));
    written_reading_is_read(m, "avail_spare"@, record.avail_spare);
    let m = m.insert("avail_spare"@, reading_member(record.avail_spare));
    written_reading_is_read(m, "spare_thresh"@, record.spare_thresh);
    let m = m.insert("spare_thresh"@, reading_member(record.spare_thresh));
    written_reading_is_read(m, "percent_used"@, record.percent_used);
    let m = m.insert("percent_used"@, reading_member(record.percent_used));
    written_reading_is_read(m, "endurance_grp_critical_warning_summary"@, record.endurance_grp_critical_warning_summary);
    let m = m.insert("endurance_grp_critical_warning_summary"@, reading_member(record.endurance_grp_critical_warning_summary));
    written_reading_is_read(m, "data_units_read"@, record.data_units_read);
    let m = m.insert("data_units_read"@, reading_member(record.data_units_read));
    written_reading_is_read(m, "data_units_written"@, record.data_units_written);
    let m = m.insert("data_units_written"@, reading_member(record.data_units_written));
    written_reading_is_read(m, "host_read_commands"@, record.host_read_commands);
    let m = m.insert("host_read_commands"@, reading_member(record.host_read_commands));
    written_reading_is_read(m, "host_write_commands"@, record.host_write_commands);
    let m = m.insert("host_write_commands"@, reading_member(record.host_write_commands));
    written_reading_is_read(m, "controller_busy_time"@, record.controller_busy_time);
    let m = m.insert("controller_busy_time"@, reading_member(record.controller_busy_time));
    written_reading_is_read(m, "power_cycles"@, record.power_cycles);
    let m = m.insert("power_cycles"@, reading_member(record.power_cycles));
    written_reading_is_read(m, "power_on_hours"@, record.power_on_hours);
    let m = m.insert("power_on_hours"@, reading_member(record.power_on_hours));
    written_reading_is_read(m, "unsafe_shutdowns"@, record.unsafe_shutdowns);
    let m = m.insert("unsafe_shutdowns"@, reading_member(record.unsafe_shutdowns));
    written_reading_is_read(m, "media_errors"@, record.media_errors);
    let m = m.insert("media_errors"@, reading_member(record.media_errors));
    written_reading_is_read(m, "num_err_log_entries"@, record.num_err_log_entries);
    let m = m.insert("num_err_log_entries"@, reading_member(record.num_err_log_entries));
    written_reading_is_read(m, "warning_temp_time"@, record.warning_temp_time);
    let m = m.insert("warning_temp_time"@, reading_member(record.warning_temp_time));
    written_reading_is_read(m, "critical_comp_time"@, record.critical_comp_time);
    let m = m.insert("critical_comp_time"@, reading_member(record.critical_comp_time));
    written_reading_is_read(m, "temperature_sensor_1"@, record.temperature_sensor_1);
    let m = m.insert("temperature_sensor_1"@, reading_member(record.temperature_sensor_1));
    written_reading_is_read(m, "temperature_sensor_2"@, record.temperature_sensor_2);
    let m = m.insert("temperature_sensor_2"@, reading_member(record.temperature_sensor_2));
    written_reading_is_read(m, "temperature_sensor_3"@, record.temperature_sensor_3);
    let m = m.insert("temperature_sensor_3"@, reading_member(record.temperature_sensor_3));
    written_reading_is_read(m, "temperature_sensor_4"@, record.temperature_sensor_4);
    let m = m.insert("temperature_sensor_4"@, reading_member(record.temperature_sensor_4));
    written_reading_is_read(m, "temperature_sensor_5"@, record.temperature_sensor_5);
    let m = m.insert("temperature_sensor_5"@, reading_member(record.temperature_sensor_5));
    written_reading_is_read(m, "temperature_sensor_6"@, record.temperature_sensor_6);
    let m = m.insert("temperature_sensor_6"@, reading_member(record.temperature_sensor_6));
    written_reading_is_read(m, "temperature_sensor_7"@, record.temperature_sensor_7);
    let m = m.insert("temperature_sensor_7"@, reading_member(record.temperature_sensor_7));
    written_reading_is_read(m, "temperature_sensor_8"@, record.temperature_sensor_8);
    let m = m.insert("temperature_sensor_8"@, reading_member(record.temperature_sensor_8));
    written_reading_is_read(m, "thm_temp1_trans_count"@, record.thm_temp1_trans_count);
    let m = m.insert("thm_temp1_trans_count"@, reading_member(record.thm_temp1_trans_count));
    written_reading_is_read(m, "thm_temp2_trans_count"@, record.thm_temp2_trans_count);
    let m = m.insert("thm_temp2_trans_count"@, reading_member(record.thm_temp2_trans_count));
    written_reading_is_read(m, "thm_temp1_total_time"@, record.thm_temp1_total_time);
    let m = m.insert("thm_temp1_total_time"@, reading_member(record.thm_temp1_total_time));
    written_reading_is_read(m, "thm_temp2_total_time"@, record.thm_temp2_total_time);
    let m = m.insert("thm_temp2_total_time"@, reading_member(record.thm_temp2_total_time));
}

} // verus!
