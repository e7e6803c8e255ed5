//! The records that the controller reports, and their decoding from JSON.
//!
//! Every record is decoded from a JSON object by the keys of its fields. A
//! member that the controller's firmware may leave out reads as 0, off or
//! the empty text; one that must be there is an error when it is missing.

use crate::json::{
    child_or_empty, empty_json_object, flag_fault, flag_value, int_fault, int_value, is_given,
    lemma_array_view, lookup, nullable_int_fault, nullable_int_value, nullable_text_fault,
    nullable_text_value, object_fault, prior, text_fault, text_value, DecodeError, Fault, Json,
    JsonView,
};
use vstd::prelude::*;

verus! {

/// Options of the air-conditioning unit.
#[derive(Debug, PartialEq)]
pub struct UnitOpt {
    pub ra: u8,
    pub master: u8,
    pub zones: u8,
    pub history: u8,
    pub slave_opt: u8,
}

impl UnitOpt {
    /// What is wrong with `obj` as a `UnitOpt`, if anything: of several
    /// faults the first, in the order of the fields.
    pub open spec fn fault(obj: JsonView) -> Option<DecodeError> {
        let fault = object_fault(obj, "UnitOpt");
        let fault = prior(fault, int_fault(obj, "RA", 0, 255, false));
        let fault = prior(fault, int_fault(obj, "Master", 0, 255, false));
        let fault = prior(fault, int_fault(obj, "Zones", 0, 255, false));
        let fault = prior(fault, int_fault(obj, "History", 0, 255, false));
        let fault = prior(fault, int_fault(obj, "SlaveOpt", 0, 255, false));
        fault
    }

    /// Every field holds what `obj` says of it; a member that is missing
    /// reads as 0, off or the empty text.
    pub open spec fn reflects(self, obj: JsonView) -> bool {
        &&& self.ra == int_value(obj, "RA"@)
        &&& self.master == int_value(obj, "Master"@)
        &&& self.zones == int_value(obj, "Zones"@)
        &&& self.history == int_value(obj, "History"@)
        &&& self.slave_opt == int_value(obj, "SlaveOpt"@)
    }

    /// Decodes a `UnitOpt` from the JSON object that the controller sent.
    pub fn decode(obj: &Json) -> (r: Result<UnitOpt, DecodeError>)
        ensures
            match UnitOpt::fault(obj@) {
                Some(e) => r == Err::<UnitOpt, DecodeError>(e),
                None => r is Ok && r->Ok_0.reflects(obj@),
            },
    {
        if !obj.is_object() {
            return Err(DecodeError { field: "UnitOpt", fault: Fault::NotAnObject });
        }
        let ra = obj.read_int("RA", 0, 255, false)? as u8;
        let master = obj.read_int("Master", 0, 255, false)? as u8;
        let zones = obj.read_int("Zones", 0, 255, false)? as u8;
        let history = obj.read_int("History", 0, 255, false)? as u8;
        let slave_opt = obj.read_int("SlaveOpt", 0, 255, false)? as u8;
        Ok(UnitOpt {
            ra,
            master,
            zones,
            history,
            slave_opt,
        })
    }
}

/// Settings of a Temperzone unit.
#[derive(Debug, PartialEq)]
pub struct Temperzone {
    pub heat_setpoint: u32,
    pub cool_setpoint: u32,
    pub fan_type: u8,
    pub mode_type: u8,
    pub quiet: u8,
}

impl Temperzone {
    /// What is wrong with `obj` as a `Temperzone`, if anything: of several
    /// faults the first, in the order of the fields.
    pub open spec fn fault(obj: JsonView) -> Option<DecodeError> {
        let fault = object_fault(obj, "Temperzone");
        let fault = prior(fault, int_fault(obj, "HeatSetpoint", 0, 4294967295, false));
        let fault = prior(fault, int_fault(obj, "CoolSetpoint", 0, 4294967295, false));
        let fault = prior(fault, int_fault(obj, "FanType", 0, 255, false));
        let fault = prior(fault, int_fault(obj, "ModeType", 0, 255, false));
        let fault = prior(fault, int_fault(obj, "Quiet", 0, 255, false));
        fault
    }

    /// Every field holds what `obj` says of it; a member that is missing
    /// reads as 0, off or the empty text.
    pub open spec fn reflects(self, obj: JsonView) -> bool {
        &&& self.heat_setpoint == int_value(obj, "HeatSetpoint"@)
        &&& self.cool_setpoint == int_value(obj, "CoolSetpoint"@)
        &&& self.fan_type == int_value(obj, "FanType"@)
        &&& self.mode_type == int_value(obj, "ModeType"@)
        &&& self.quiet == int_value(obj, "Quiet"@)
    }

    /// Decodes a `Temperzone` from the JSON object that the controller sent.
    pub fn decode(obj: &Json) -> (r: Result<Temperzone, DecodeError>)
        ensures
            match Temperzone::fault(obj@) {
                Some(e) => r == Err::<Temperzone, DecodeError>(e),
                None => r is Ok && r->Ok_0.reflects(obj@),
            },
    {
        if !obj.is_object() {
            return Err(DecodeError { field: "Temperzone", fault: Fault::NotAnObject });
        }
        let heat_setpoint = obj.read_int("HeatSetpoint", 0, 4294967295, false)? as u32;
        let cool_setpoint = obj.read_int("CoolSetpoint", 0, 4294967295, false)? as u32;
        let fan_type = obj.read_int("FanType", 0, 255, false)? as u8;
        let mode_type = obj.read_int("ModeType", 0, 255, false)? as u8;
        let quiet = obj.read_int("Quiet", 0, 255, false)? as u8;
        Ok(Temperzone {
            heat_setpoint,
            cool_setpoint,
            fan_type,
            mode_type,
            quiet,
        })
    }
}

/// Settings of a gas heater.
#[derive(Debug, PartialEq)]
pub struct GasHeat {
    pub gas_type: u8,
    pub min_run_time: u8,
    pub anticycle_time: u8,
    pub stage_offset: u8,
    pub stage_delay: u8,
    pub cycle_fan_cool: u8,
    pub cycle_fan_heat: u8,
}

impl GasHeat {
    /// What is wrong with `obj` as a `GasHeat`, if anything: of several
    /// faults the first, in the order of the fields.
    pub open spec fn fault(obj: JsonView) -> Option<DecodeError> {
        let fault = object_fault(obj, "GasHeat");
        let fault = prior(fault, int_fault(obj, "Type", 0, 255, false));
        let fault = prior(fault, int_fault(obj, "MinRunTime", 0, 255, false));
        let fault = prior(fault, int_fault(obj, "AnticycleTime", 0, 255, false));
        let fault = prior(fault, int_fault(obj, "StageOffset", 0, 255, false));
        let fault = prior(fault, int_fault(obj, "StageDelay", 0, 255, false));
        let fault = prior(fault, int_fault(obj, "CycleFanCool", 0, 255, false));
        let fault = prior(fault, int_fault(obj, "CycleFanHeat", 0, 255, false));
        fault
    }

    /// Every field holds what `obj` says of it; a member that is missing
    /// reads as 0, off or the empty text.
    pub open spec fn reflects(self, obj: JsonView) -> bool {
        &&& self.gas_type == int_value(obj, "Type"@)
        &&& self.min_run_time == int_value(obj, "MinRunTime"@)
        &&& self.anticycle_time == int_value(obj, "AnticycleTime"@)
        &&& self.stage_offset == int_value(obj, "StageOffset"@)
        &&& self.stage_delay == int_value(obj, "StageDelay"@)
        &&& self.cycle_fan_cool == int_value(obj, "CycleFanCool"@)
        &&& self.cycle_fan_heat == int_value(obj, "CycleFanHeat"@)
    }

    /// Decodes a `GasHeat` from the JSON object that the controller sent.
    pub fn decode(obj: &Json) -> (r: Result<GasHeat, DecodeError>)
        ensures
            match GasHeat::fault(obj@) {
                Some(e) => r == Err::<GasHeat, DecodeError>(e),
                None => r is Ok && r->Ok_0.reflects(obj@),
            },
    {
        if !obj.is_object() {
            return Err(DecodeError { field: "GasHeat", fault: Fault::NotAnObject });
        }
        let gas_type = obj.read_int("Type", 0, 255, false)? as u8;
        let min_run_time = obj.read_int("MinRunTime", 0, 255, false)? as u8;
        let anticycle_time = obj.read_int("AnticycleTime", 0, 255, false)? as u8;
        let stage_offset = obj.read_int("StageOffset", 0, 255, false)? as u8;
        let stage_delay = obj.read_int("StageDelay", 0, 255, false)? as u8;
        let cycle_fan_cool = obj.read_int("CycleFanCool", 0, 255, false)? as u8;
        let cycle_fan_heat = obj.read_int("CycleFanHeat", 0, 255, false)? as u8;
        Ok(GasHeat {
            gas_type,
            min_run_time,
            anticycle_time,
            stage_offset,
            stage_delay,
            cycle_fan_cool,
            cycle_fan_heat,
        })
    }
}

/// Settings of the ventilation unit.
#[derive(Debug, PartialEq)]
pub struct Ventilation {
    pub rh_setpoint: u8,
    pub vocs_setpoint: u16,
    pub eco2_setpoint: u16,
    pub fan_stage_delay: u8,
    pub cycle_fan_off: u8,
    pub use_rh_control: u8,
    pub use_vcos_control: u8,
    pub use_eco2_control: u8,
}

impl Ventilation {
    /// What is wrong with `obj` as a `Ventilation`, if anything: of several
    /// faults the first, in the order of the fields.
    pub open spec fn fault(obj: JsonView) -> Option<DecodeError> {
        let fault = object_fault(obj, "Ventilation");
        let fault = prior(fault, int_fault(obj, "RhSetpoint", 0, 255, false));
        let fault = prior(fault, int_fault(obj, "VocsSetpoint", 0, 65535, false));
        let fault = prior(fault, int_fault(obj, "Eco2Setpoint", 0, 65535, false));
        let fault = prior(fault, int_fault(obj, "FanStageDelay", 0, 255, false));
        let fault = prior(fault, int_fault(obj, "CycleFanOff", 0, 255, false));
        let fault = prior(fault, int_fault(obj, "UseRhControl", 0, 255, false));
        let fault = prior(fault, int_fault(obj, "UseVcosControl", 0, 255, false));
        let fault = prior(fault, int_fault(obj, "UseEco2Control", 0, 255, false));
        fault
    }

    /// Every field holds what `obj` says of it; a member that is missing
    /// reads as 0, off or the empty text.
    pub open spec fn reflects(self, obj: JsonView) -> bool {
        &&& self.rh_setpoint == int_value(obj, "RhSetpoint"@)
        &&& self.vocs_setpoint == int_value(obj, "VocsSetpoint"@)
        &&& self.eco2_setpoint == int_value(obj, "Eco2Setpoint"@)
        &&& self.fan_stage_delay == int_value(obj, "FanStageDelay"@)
        &&& self.cycle_fan_off == int_value(obj, "CycleFanOff"@)
        &&& self.use_rh_control == int_value(obj, "UseRhControl"@)
        &&& self.use_vcos_control == int_value(obj, "UseVcosControl"@)
        &&& self.use_eco2_control == int_value(obj, "UseEco2Control"@)
    }

    /// Decodes a `Ventilation` from the JSON object that the controller sent.
    pub fn decode(obj: &Json) -> (r: Result<Ventilation, DecodeError>)
        ensures
            match Ventilation::fault(obj@) {
                Some(e) => r == Err::<Ventilation, DecodeError>(e),
                None => r is Ok && r->Ok_0.reflects(obj@),
            },
    {
        if !obj.is_object() {
            return Err(DecodeError { field: "Ventilation", fault: Fault::NotAnObject });
        }
        let rh_setpoint = obj.read_int("RhSetpoint", 0, 255, false)? as u8;
        let vocs_setpoint = obj.read_int("VocsSetpoint", 0, 65535, false)? as u16;
        let eco2_setpoint = obj.read_int("Eco2Setpoint", 0, 65535, false)? as u16;
        let fan_stage_delay = obj.read_int("FanStageDelay", 0, 255, false)? as u8;
        let cycle_fan_off = obj.read_int("CycleFanOff", 0, 255, false)? as u8;
        let use_rh_control = obj.read_int("UseRhControl", 0, 255, false)? as u8;
        let use_vcos_control = obj.read_int("UseVcosControl", 0, 255, false)? as u8;
        let use_eco2_control = obj.read_int("UseEco2Control", 0, 255, false)? as u8;
        Ok(Ventilation {
            rh_setpoint,
            vocs_setpoint,
            eco2_setpoint,
            fan_stage_delay,
            cycle_fan_off,
            use_rh_control,
            use_vcos_control,
            use_eco2_control,
        })
    }
}

/// State and settings of the evaporative cooler.
#[derive(Debug, PartialEq)]
pub struct Coolbreeze {
    pub fan_speed: u8,
    pub state: String,
    pub rh_set: u8,
    pub rh_read: u8,
    pub fan_run_h: u32,
    pub pump_run_h: u32,
    pub prew_en: u8,
    pub prew_time: u8,
    pub dr_af_prew_en: u8,
    pub dr_cyc_en: u8,
    pub dr_cyc_per: u16,
    pub postw_en: u8,
    pub dr_bf_postw_en: u8,
    pub postw_t: u8,
    pub inverter: u8,
    pub resume_last: u8,
    pub fan_max_auto: u8,
    pub fan_max: u8,
    pub exh_max: u8,
    pub exh_en: u8,
    pub ctrl_sens: u8,
    pub calib_temp: i16,
    pub dead_temp: u16,
    pub auto_fan_max_time: u8,
}

impl Coolbreeze {
    /// What is wrong with `obj` as a `Coolbreeze`, if anything: of several
    /// faults the first, in the order of the fields.
    pub open spec fn fault(obj: JsonView) -> Option<DecodeError> {
        let fault = object_fault(obj, "Coolbreeze");
        let fault = prior(fault, int_fault(obj, "FanSpeed", 0, 255, false));
        let fault = prior(fault, text_fault(obj, "State", false));
        let fault = prior(fault, int_fault(obj, "RhSet", 0, 255, false));
        let fault = prior(fault, int_fault(obj, "RhRead", 0, 255, false));
        let fault = prior(fault, int_fault(obj, "FanRunH", 0, 4294967295, false));
        let fault = prior(fault, int_fault(obj, "PumpRunH", 0, 4294967295, false));
        let fault = prior(fault, int_fault(obj, "PrewEn", 0, 255, false));
        let fault = prior(fault, int_fault(obj, "PrewTime", 0, 255, false));
        let fault = prior(fault, int_fault(obj, "DrAfPrewEn", 0, 255, false));
        let fault = prior(fault, int_fault(obj, "DrCycEn", 0, 255, false));
        let fault = prior(fault, int_fault(obj, "DrCycPer", 0, 65535, false));
        let fault = prior(fault, int_fault(obj, "PostwEn", 0, 255, false));
        let fault = prior(fault, int_fault(obj, "DrBfPostwEn", 0, 255, false));
        let fault = prior(fault, int_fault(obj, "PostwT", 0, 255, false));
        let fault = prior(fault, int_fault(obj, "Inverter", 0, 255, false));
        let fault = prior(fault, int_fault(obj, "ResumeLast", 0, 255, false));
        let fault = prior(fault, int_fault(obj, "FanMaxAuto", 0, 255, false));
        let fault = prior(fault, int_fault(obj, "FanMax", 0, 255, false));
        let fault = prior(fault, int_fault(obj, "ExhMax", 0, 255, false));
        let fault = prior(fault, int_fault(obj, "ExhEn", 0, 255, false));
        let fault = prior(fault, int_fault(obj, "CtrlSens", 0, 255, false));
        let fault = prior(fault, int_fault(obj, "CalibTemp", -32768, 32767, false));
        let fault = prior(fault, int_fault(obj, "DeadTemp", 0, 65535, false));
        let fault = prior(fault, int_fault(obj, "AutoFanMaxTime", 0, 255, false));
        fault
    }

    /// Every field holds what `obj` says of it; a member that is missing
    /// reads as 0, off or the empty text.
    pub open spec fn reflects(self, obj: JsonView) -> bool {
        &&& self.fan_speed == int_value(obj, "FanSpeed"@)
        &&& self.state@ == text_value(obj, "State"@)
        &&& self.rh_set == int_value(obj, "RhSet"@)
        &&& self.rh_read == int_value(obj, "RhRead"@)
        &&& self.fan_run_h == int_value(obj, "FanRunH"@)
        &&& self.pump_run_h == int_value(obj, "PumpRunH"@)
        &&& self.prew_en == int_value(obj, "PrewEn"@)
        &&& self.prew_time == int_value(obj, "PrewTime"@)
        &&& self.dr_af_prew_en == int_value(obj, "DrAfPrewEn"@)
        &&& self.dr_cyc_en == int_value(obj, "DrCycEn"@)
        &&& self.dr_cyc_per == int_value(obj, "DrCycPer"@)
        &&& self.postw_en == int_value(obj, "PostwEn"@)
        &&& self.dr_bf_postw_en == int_value(obj, "DrBfPostwEn"@)
        &&& self.postw_t == int_value(obj, "PostwT"@)
        &&& self.inverter == int_value(obj, "Inverter"@)
        &&& self.resume_last == int_value(obj, "ResumeLast"@)
        &&& self.fan_max_auto == int_value(obj, "FanMaxAuto"@)
        &&& self.fan_max == int_value(obj, "FanMax"@)
        &&& self.exh_max == int_value(obj, "ExhMax"@)
        &&& self.exh_en == int_value(obj, "ExhEn"@)
        &&& self.ctrl_sens == int_value(obj, "CtrlSens"@)
        &&& self.calib_temp == int_value(obj, "CalibTemp"@)
        &&& self.dead_temp == int_value(obj, "DeadTemp"@)
        &&& self.auto_fan_max_time == int_value(obj, "AutoFanMaxTime"@)
    }

    /// Decodes a `Coolbreeze` from the JSON object that the controller sent.
    pub fn decode(obj: &Json) -> (r: Result<Coolbreeze, DecodeError>)
        ensures
            match Coolbreeze::fault(obj@) {
                Some(e) => r == Err::<Coolbreeze, DecodeError>(e),
                None => r is Ok && r->Ok_0.reflects(obj@),
            },
    {
        if !obj.is_object() {
            return Err(DecodeError { field: "Coolbreeze", fault: Fault::NotAnObject });
        }
        let fan_speed = obj.read_int("FanSpeed", 0, 255, false)? as u8;
        let state = obj.read_text("State", false)?;
        let rh_set = obj.read_int("RhSet", 0, 255, false)? as u8;
        let rh_read = obj.read_int("RhRead", 0, 255, false)? as u8;
        let fan_run_h = obj.read_int("FanRunH", 0, 4294967295, false)? as u32;
        let pump_run_h = obj.read_int("PumpRunH", 0, 4294967295, false)? as u32;
        let prew_en = obj.read_int("PrewEn", 0, 255, false)? as u8;
        let prew_time = obj.read_int("PrewTime", 0, 255, false)? as u8;
        let dr_af_prew_en = obj.read_int("DrAfPrewEn", 0, 255, false)? as u8;
        let dr_cyc_en = obj.read_int("DrCycEn", 0, 255, false)? as u8;
        let dr_cyc_per = obj.read_int("DrCycPer", 0, 65535, false)? as u16;
        let postw_en = obj.read_int("PostwEn", 0, 255, false)? as u8;
        let dr_bf_postw_en = obj.read_int("DrBfPostwEn", 0, 255, false)? as u8;
        let postw_t = obj.read_int("PostwT", 0, 255, false)? as u8;
        let inverter = obj.read_int("Inverter", 0, 255, false)? as u8;
        let resume_last = obj.read_int("ResumeLast", 0, 255, false)? as u8;
        let fan_max_auto = obj.read_int("FanMaxAuto", 0, 255, false)? as u8;
        let fan_max = obj.read_int("FanMax", 0, 255, false)? as u8;
        let exh_max = obj.read_int("ExhMax", 0, 255, false)? as u8;
        let exh_en = obj.read_int("ExhEn", 0, 255, false)? as u8;
        let ctrl_sens = obj.read_int("CtrlSens", 0, 255, false)? as u8;
        let calib_temp = obj.read_int("CalibTemp", -32768, 32767, false)? as i16;
        let dead_temp = obj.read_int("DeadTemp", 0, 65535, false)? as u16;
        let auto_fan_max_time = obj.read_int("AutoFanMaxTime", 0, 255, false)? as u8;
        Ok(Coolbreeze {
            fan_speed,
            state,
            rh_set,
            rh_read,
            fan_run_h,
            pump_run_h,
            prew_en,
            prew_time,
            dr_af_prew_en,
            dr_cyc_en,
            dr_cyc_per,
            postw_en,
            dr_bf_postw_en,
            postw_t,
            inverter,
            resume_last,
            fan_max_auto,
            fan_max,
            exh_max,
            exh_en,
            ctrl_sens,
            calib_temp,
            dead_temp,
            auto_fan_max_time,
        })
    }
}

/// The state of the whole system, as the controller reports it.
#[derive(Debug, PartialEq)]
pub struct SystemV2 {
    pub sys_on: bool,
    pub sys_mode: u8,
    pub temp: u32,
    pub setpoint: u32,
    pub sys_fan: u8,
    pub ac_error: String,
    pub sleep_timer: u32,
    pub supply: u32,
    pub ras: u8,
    pub ctrl_zone: u8,
    pub tag1: String,
    pub tag2: String,
    pub warnings: String,
    pub eco_lock: u8,
    pub eco_max: u32,
    pub eco_min: u32,
    pub no_of_const: u8,
    pub no_of_zones: u8,
    pub sys_type: u16,
    pub isave_enable: u8,
    pub isave_on: u8,
    pub lock_code: String,
    pub lock_status: u8,
    pub lock_on: u8,
    pub fan_auto_en: u8,
    pub fan_auto_type: u8,
    pub fan_capacity: u16,
    pub fan_unit_capacity: u16,
    pub filter_warn: u8,
    pub izone_on_off: u8,
    pub izone_mode: u8,
    pub izone_fan: u8,
    pub izone_setpoint: u8,
    pub ext_on_off: u8,
    pub ext_mode: u8,
    pub ext_fan: u8,
    pub ext_setpoint: u8,
    pub damper_time: u8,
    pub auto_off: u8,
    pub room_temp_disp: u8,
    pub rf_ch: u8,
    pub auto_mode_dead_b: u16,
    pub wired_leds: u8,
    pub airflow_lock: u8,
    pub airflow_min_lock: u8,
    pub out_of_view_ras: u8,
    pub cpu_type: u8,
    pub sys_no: u8,
    pub ac_unit_brand: u8,
    pub ac_unit_brand_set: u8,
    pub oem_make: u8,
    pub hide_induct: u8,
    pub air_pure_on: u8,
    pub reverse_dampers: u8,
    pub scrooge: u8,
    pub pass: String,
    pub cnst_ctrl_area_en: u8,
    pub cnst_ctrl_area: u16,
    pub static_p: u8,
    pub open_dampers_when_off: u8,
    pub show_act_temps: u8,
    pub use_induct_energy: u8,
    pub unit_opt: UnitOpt,
    pub temperzone: Temperzone,
    pub gas_heat: GasHeat,
    pub ventilation: Ventilation,
    pub coolbreeze: Coolbreeze,
}

impl SystemV2 {
    /// What is wrong with `obj` as a `SystemV2`, if anything: of several
    /// faults the first, in the order of the fields.
    pub open spec fn fault(obj: JsonView) -> Option<DecodeError> {
        let fault = object_fault(obj, "SystemV2");
        let fault = prior(fault, flag_fault(obj, "SysOn", true));
        let fault = prior(fault, int_fault(obj, "SysMode", 0, 255, true));
        let fault = prior(fault, int_fault(obj, "Temp", 0, 4294967295, true));
        let fault = prior(fault, int_fault(obj, "Setpoint", 0, 4294967295, true));
        let fault = prior(fault, int_fault(obj, "SysFan", 0, 255, true));
        let fault = prior(fault, text_fault(obj, "ACError", true));
        let fault = prior(fault, int_fault(obj, "SleepTimer", 0, 4294967295, false));
        let fault = prior(fault, int_fault(obj, "Supply", 0, 4294967295, false));
        let fault = prior(fault, int_fault(obj, "RAS", 0, 255, false));
        let fault = prior(fault, int_fault(obj, "CtrlZone", 0, 255, false));
        let fault = prior(fault, text_fault(obj, "Tag1", false));
        let fault = prior(fault, text_fault(obj, "Tag2", false));
        let fault = prior(fault, text_fault(obj, "Warnings", false));
        let fault = prior(fault, int_fault(obj, "EcoLock", 0, 255, false));
        let fault = prior(fault, int_fault(obj, "EcoMax", 0, 4294967295, false));
        let fault = prior(fault, int_fault(obj, "EcoMin", 0, 4294967295, false));
        let fault = prior(fault, int_fault(obj, "NoOfConst", 0, 255, false));
        let fault = prior(fault, int_fault(obj, "NoOfZones", 0, 255, false));
        let fault = prior(fault, int_fault(obj, "SysType", 0, 65535, false));
        let fault = prior(fault, int_fault(obj, "iSaveEnable", 0, 255, false));
        let fault = prior(fault, int_fault(obj, "iSaveOn", 0, 255, false));
        let fault = prior(fault, text_fault(obj, "LockCode", false));
        let fault = prior(fault, int_fault(obj, "LockStatus", 0, 255, false));
        let fault = prior(fault, int_fault(obj, "LockOn", 0, 255, false));
        let fault = prior(fault, int_fault(obj, "FanAutoEn", 0, 255, false));
        let fault = prior(fault, int_fault(obj, "FanAutoType", 0, 255, false));
        let fault = prior(fault, int_fault(obj, "FanCapacity", 0, 65535, false));
        let fault = prior(fault, int_fault(obj, "FanUnitCapacity", 0, 65535, false));
        let fault = prior(fault, int_fault(obj, "FilterWarn", 0, 255, false));
        let fault = prior(fault, int_fault(obj, "iZoneOnOff", 0, 255, false));
        let fault = prior(fault, int_fault(obj, "iZoneMode", 0, 255, false));
        let fault = prior(fault, int_fault(obj, "iZoneFan", 0, 255, false));
        let fault = prior(fault, int_fault(obj, "iZoneSetpoint", 0, 255, false));
        let fault = prior(fault, int_fault(obj, "ExtOnOff", 0, 255, false));
        let fault = prior(fault, int_fault(obj, "ExtMode", 0, 255, false));
        let fault = prior(fault, int_fault(obj, "ExtFan", 0, 255, false));
        let fault = prior(fault, int_fault(obj, "ExtSetpoint", 0, 255, false));
        let fault = prior(fault, int_fault(obj, "DamperTime", 0, 255, false));
        let fault = prior(fault, int_fault(obj, "AutoOff", 0, 255, false));
        let fault = prior(fault, int_fault(obj, "RoomTempDisp", 0, 255, false));
        let fault = prior(fault, int_fault(obj, "RfCh", 0, 255, false));
        let fault = prior(fault, int_fault(obj, "AutoModeDeadB", 0, 65535, false));
        let fault = prior(fault, int_fault(obj, "WiredLeds", 0, 255, false));
        let fault = prior(fault, int_fault(obj, "AirflowLock", 0, 255, false));
        let fault = prior(fault, int_fault(obj, "AirflowMinLock", 0, 255, false));
        let fault = prior(fault, int_fault(obj, "OutOfViewRas", 0, 255, false));
        let fault = prior(fault, int_fault(obj, "CpuType", 0, 255, false));
        let fault = prior(fault, int_fault(obj, "SysNo", 0, 255, false));
        let fault = prior(fault, int_fault(obj, "AcUnitBrand", 0, 255, false));
        let fault = prior(fault, int_fault(obj, "AcUnitBrandSet", 0, 255, false));
        let fault = prior(fault, int_fault(obj, "OemMake", 0, 255, false));
        let fault = prior(fault, int_fault(obj, "HideInduct", 0, 255, false));
        let fault = prior(fault, int_fault(obj, "AirPureOn", 0, 255, false));
        let fault = prior(fault, int_fault(obj, "ReverseDampers", 0, 255, false));
        let fault = prior(fault, int_fault(obj, "Scrooge", 0, 255, false));
        let fault = prior(fault, text_fault(obj, "Pass", false));
        let fault = prior(fault, int_fault(obj, "CnstCtrlAreaEn", 0, 255, false));
        let fault = prior(fault, int_fault(obj, "CnstCtrlArea", 0, 65535, false));
        let fault = prior(fault, int_fault(obj, "StaticP", 0, 255, false));
        let fault = prior(fault, int_fault(obj, "OpenDampersWhenOff", 0, 255, false));
        let fault = prior(fault, int_fault(obj, "ShowActTemps", 0, 255, false));
        let fault = prior(fault, int_fault(obj, "UseInductEnergy", 0, 255, false));
        let fault = prior(fault, UnitOpt::fault(child_or_empty(obj, "UnitOpt"@)));
        let fault = prior(fault, Temperzone::fault(child_or_empty(obj, "Temperzone"@)));
        let fault = prior(fault, GasHeat::fault(child_or_empty(obj, "GasHeat"@)));
        let fault = prior(fault, Ventilation::fault(child_or_empty(obj, "Ventilation"@)));
        let fault = prior(fault, Coolbreeze::fault(child_or_empty(obj, "Coolbreeze"@)));
        fault
    }

    /// Every field holds what `obj` says of it; a member that is missing
    /// reads as 0, off or the empty text.
    pub open spec fn reflects(self, obj: JsonView) -> bool {
        &&& self.sys_on == flag_value(obj, "SysOn"@)
        &&& self.sys_mode == int_value(obj, "SysMode"@)
        &&& self.temp == int_value(obj, "Temp"@)
        &&& self.setpoint == int_value(obj, "Setpoint"@)
        &&& self.sys_fan == int_value(obj, "SysFan"@)
        &&& self.ac_error@ == text_value(obj, "ACError"@)
        &&& self.sleep_timer == int_value(obj, "SleepTimer"@)
        &&& self.supply == int_value(obj, "Supply"@)
        &&& self.ras == int_value(obj, "RAS"@)
        &&& self.ctrl_zone == int_value(obj, "CtrlZone"@)
        &&& self.tag1@ == text_value(obj, "Tag1"@)
        &&& self.tag2@ == text_value(obj, "Tag2"@)
        &&& self.warnings@ == text_value(obj, "Warnings"@)
        &&& self.eco_lock == int_value(obj, "EcoLock"@)
        &&& self.eco_max == int_value(obj, "EcoMax"@)
        &&& self.eco_min == int_value(obj, "EcoMin"@)
        &&& self.no_of_const == int_value(obj, "NoOfConst"@)
        &&& self.no_of_zones == int_value(obj, "NoOfZones"@)
        &&& self.sys_type == int_value(obj, "SysType"@)
        &&& self.isave_enable == int_value(obj, "iSaveEnable"@)
        &&& self.isave_on == int_value(obj, "iSaveOn"@)
        &&& self.lock_code@ == text_value(obj, "LockCode"@)
        &&& self.lock_status == int_value(obj, "LockStatus"@)
        &&& self.lock_on == int_value(obj, "LockOn"@)
        &&& self.fan_auto_en == int_value(obj, "FanAutoEn"@)
        &&& self.fan_auto_type == int_value(obj, "FanAutoType"@)
        &&& self.fan_capacity == int_value(obj, "FanCapacity"@)
        &&& self.fan_unit_capacity == int_value(obj, "FanUnitCapacity"@)
        &&& self.filter_warn == int_value(obj, "FilterWarn"@)
        &&& self.izone_on_off == int_value(obj, "iZoneOnOff"@)
        &&& self.izone_mode == int_value(obj, "iZoneMode"@)
        &&& self.izone_fan == int_value(obj, "iZoneFan"@)
        &&& self.izone_setpoint == int_value(obj, "iZoneSetpoint"@)
        &&& self.ext_on_off == int_value(obj, "ExtOnOff"@)
        &&& self.ext_mode == int_value(obj, "ExtMode"@)
        &&& self.ext_fan == int_value(obj, "ExtFan"@)
        &&& self.ext_setpoint == int_value(obj, "ExtSetpoint"@)
        &&& self.damper_time == int_value(obj, "DamperTime"@)
        &&& self.auto_off == int_value(obj, "AutoOff"@)
        &&& self.room_temp_disp == int_value(obj, "RoomTempDisp"@)
        &&& self.rf_ch == int_value(obj, "RfCh"@)
        &&& self.auto_mode_dead_b == int_value(obj, "AutoModeDeadB"@)
        &&& self.wired_leds == int_value(obj, "WiredLeds"@)
        &&& self.airflow_lock == int_value(obj, "AirflowLock"@)
        &&& self.airflow_min_lock == int_value(obj, "AirflowMinLock"@)
        &&& self.out_of_view_ras == int_value(obj, "OutOfViewRas"@)
        &&& self.cpu_type == int_value(obj, "CpuType"@)
        &&& self.sys_no == int_value(obj, "SysNo"@)
        &&& self.ac_unit_brand == int_value(obj, "AcUnitBrand"@)
        &&& self.ac_unit_brand_set == int_value(obj, "AcUnitBrandSet"@)
        &&& self.oem_make == int_value(obj, "OemMake"@)
        &&& self.hide_induct == int_value(obj, "HideInduct"@)
        &&& self.air_pure_on == int_value(obj, "AirPureOn"@)
        &&& self.reverse_dampers == int_value(obj, "ReverseDampers"@)
        &&& self.scrooge == int_value(obj, "Scrooge"@)
        &&& self.pass@ == text_value(obj, "Pass"@)
        &&& self.cnst_ctrl_area_en == int_value(obj, "CnstCtrlAreaEn"@)
        &&& self.cnst_ctrl_area == int_value(obj, "CnstCtrlArea"@)
        &&& self.static_p == int_value(obj, "StaticP"@)
        &&& self.open_dampers_when_off == int_value(obj, "OpenDampersWhenOff"@)
        &&& self.show_act_temps == int_value(obj, "ShowActTemps"@)
        &&& self.use_induct_energy == int_value(obj, "UseInductEnergy"@)
        &&& self.unit_opt.reflects(child_or_empty(obj, "UnitOpt"@))
        &&& self.temperzone.reflects(child_or_empty(obj, "Temperzone"@))
        &&& self.gas_heat.reflects(child_or_empty(obj, "GasHeat"@))
        &&& self.ventilation.reflects(child_or_empty(obj, "Ventilation"@))
        &&& self.coolbreeze.reflects(child_or_empty(obj, "Coolbreeze"@))
    }

    /// Decodes a `SystemV2` from the JSON object that the controller sent.
    pub fn decode(obj: &Json) -> (r: Result<SystemV2, DecodeError>)
        ensures
            match SystemV2::fault(obj@) {
                Some(e) => r == Err::<SystemV2, DecodeError>(e),
                None => r is Ok && r->Ok_0.reflects(obj@),
            },
    {
        if !obj.is_object() {
            return Err(DecodeError { field: "SystemV2", fault: Fault::NotAnObject });
        }
        let sys_on = obj.read_flag("SysOn", true)?;
        let sys_mode = obj.read_int("SysMode", 0, 255, true)? as u8;
        let temp = obj.read_int("Temp", 0, 4294967295, true)? as u32;
        let setpoint = obj.read_int("Setpoint", 0, 4294967295, true)? as u32;
        let sys_fan = obj.read_int("SysFan", 0, 255, true)? as u8;
        let ac_error = obj.read_text("ACError", true)?;
        let sleep_timer = obj.read_int("SleepTimer", 0, 4294967295, false)? as u32;
        let supply = obj.read_int("Supply", 0, 4294967295, false)? as u32;
        let ras = obj.read_int("RAS", 0, 255, false)? as u8;
        let ctrl_zone = obj.read_int("CtrlZone", 0, 255, false)? as u8;
        let tag1 = obj.read_text("Tag1", false)?;
        let tag2 = obj.read_text("Tag2", false)?;
        let warnings = obj.read_text("Warnings", false)?;
        let eco_lock = obj.read_int("EcoLock", 0, 255, false)? as u8;
        let eco_max = obj.read_int("EcoMax", 0, 4294967295, false)? as u32;
        let eco_min = obj.read_int("EcoMin", 0, 4294967295, false)? as u32;
        let no_of_const = obj.read_int("NoOfConst", 0, 255, false)? as u8;
        let no_of_zones = obj.read_int("NoOfZones", 0, 255, false)? as u8;
        let sys_type = obj.read_int("SysType", 0, 65535, false)? as u16;
        let isave_enable = obj.read_int("iSaveEnable", 0, 255, false)? as u8;
        let isave_on = obj.read_int("iSaveOn", 0, 255, false)? as u8;
        let lock_code = obj.read_text("LockCode", false)?;
        let lock_status = obj.read_int("LockStatus", 0, 255, false)? as u8;
        let lock_on = obj.read_int("LockOn", 0, 255, false)? as u8;
        let fan_auto_en = obj.read_int("FanAutoEn", 0, 255, false)? as u8;
        let fan_auto_type = obj.read_int("FanAutoType", 0, 255, false)? as u8;
        let fan_capacity = obj.read_int("FanCapacity", 0, 65535, false)? as u16;
        let fan_unit_capacity = obj.read_int("FanUnitCapacity", 0, 65535, false)? as u16;
        let filter_warn = obj.read_int("FilterWarn", 0, 255, false)? as u8;
        let izone_on_off = obj.read_int("iZoneOnOff", 0, 255, false)? as u8;
        let izone_mode = obj.read_int("iZoneMode", 0, 255, false)? as u8;
        let izone_fan = obj.read_int("iZoneFan", 0, 255, false)? as u8;
        let izone_setpoint = obj.read_int("iZoneSetpoint", 0, 255, false)? as u8;
        let ext_on_off = obj.read_int("ExtOnOff", 0, 255, false)? as u8;
        let ext_mode = obj.read_int("ExtMode", 0, 255, false)? as u8;
        let ext_fan = obj.read_int("ExtFan", 0, 255, false)? as u8;
        let ext_setpoint = obj.read_int("ExtSetpoint", 0, 255, false)? as u8;
        let damper_time = obj.read_int("DamperTime", 0, 255, false)? as u8;
        let auto_off = obj.read_int("AutoOff", 0, 255, false)? as u8;
        let room_temp_disp = obj.read_int("RoomTempDisp", 0, 255, false)? as u8;
        let rf_ch = obj.read_int("RfCh", 0, 255, false)? as u8;
        let auto_mode_dead_b = obj.read_int("AutoModeDeadB", 0, 65535, false)? as u16;
        let wired_leds = obj.read_int("WiredLeds", 0, 255, false)? as u8;
        let airflow_lock = obj.read_int("AirflowLock", 0, 255, false)? as u8;
        let airflow_min_lock = obj.read_int("AirflowMinLock", 0, 255, false)? as u8;
        let out_of_view_ras = obj.read_int("OutOfViewRas", 0, 255, false)? as u8;
        let cpu_type = obj.read_int("CpuType", 0, 255, false)? as u8;
        let sys_no = obj.read_int("SysNo", 0, 255, false)? as u8;
        let ac_unit_brand = obj.read_int("AcUnitBrand", 0, 255, false)? as u8;
        let ac_unit_brand_set = obj.read_int("AcUnitBrandSet", 0, 255, false)? as u8;
        let oem_make = obj.read_int("OemMake", 0, 255, false)? as u8;
        let hide_induct = obj.read_int("HideInduct", 0, 255, false)? as u8;
        let air_pure_on = obj.read_int("AirPureOn", 0, 255, false)? as u8;
        let reverse_dampers = obj.read_int("ReverseDampers", 0, 255, false)? as u8;
        let scrooge = obj.read_int("Scrooge", 0, 255, false)? as u8;
        let pass = obj.read_text("Pass", false)?;
        let cnst_ctrl_area_en = obj.read_int("CnstCtrlAreaEn", 0, 255, false)? as u8;
        let cnst_ctrl_area = obj.read_int("CnstCtrlArea", 0, 65535, false)? as u16;
        let static_p = obj.read_int("StaticP", 0, 255, false)? as u8;
        let open_dampers_when_off = obj.read_int("OpenDampersWhenOff", 0, 255, false)? as u8;
        let show_act_temps = obj.read_int("ShowActTemps", 0, 255, false)? as u8;
        let use_induct_energy = obj.read_int("UseInductEnergy", 0, 255, false)? as u8;
        let unit_opt = match obj.get("UnitOpt") {
            Some(child) => UnitOpt::decode(child)?,
            None => UnitOpt::decode(&empty_json_object())?,
        };
        let temperzone = match obj.get("Temperzone") {
            Some(child) => Temperzone::decode(child)?,
            None => Temperzone::decode(&empty_json_object())?,
        };
        let gas_heat = match obj.get("GasHeat") {
            Some(child) => GasHeat::decode(child)?,
            None => GasHeat::decode(&empty_json_object())?,
        };
        let ventilation = match obj.get("Ventilation") {
            Some(child) => Ventilation::decode(child)?,
            None => Ventilation::decode(&empty_json_object())?,
        };
        let coolbreeze = match obj.get("Coolbreeze") {
            Some(child) => Coolbreeze::decode(child)?,
            None => Coolbreeze::decode(&empty_json_object())?,
        };
        Ok(SystemV2 {
            sys_on,
            sys_mode,
            temp,
            setpoint,
            sys_fan,
            ac_error,
            sleep_timer,
            supply,
            ras,
            ctrl_zone,
            tag1,
            tag2,
            warnings,
            eco_lock,
            eco_max,
            eco_min,
            no_of_const,
            no_of_zones,
            sys_type,
            isave_enable,
            isave_on,
            lock_code,
            lock_status,
            lock_on,
            fan_auto_en,
            fan_auto_type,
            fan_capacity,
            fan_unit_capacity,
            filter_warn,
            izone_on_off,
            izone_mode,
            izone_fan,
            izone_setpoint,
            ext_on_off,
            ext_mode,
            ext_fan,
            ext_setpoint,
            damper_time,
            auto_off,
            room_temp_disp,
            rf_ch,
            auto_mode_dead_b,
            wired_leds,
            airflow_lock,
            airflow_min_lock,
            out_of_view_ras,
            cpu_type,
            sys_no,
            ac_unit_brand,
            ac_unit_brand_set,
            oem_make,
            hide_induct,
            air_pure_on,
            reverse_dampers,
            scrooge,
            pass,
            cnst_ctrl_area_en,
            cnst_ctrl_area,
            static_p,
            open_dampers_when_off,
            show_act_temps,
            use_induct_energy,
            unit_opt,
            temperzone,
            gas_heat,
            ventilation,
            coolbreeze,
        })
    }
}

/// The state of one zone, as the controller reports it.
#[derive(Debug, PartialEq)]
pub struct ZonesV2 {
    pub name: String,
    pub mode: u8,
    pub setpoint: u32,
    pub temp: u32,
    pub damper_pos: u8,
    pub zone_type: u8,
    pub sens_type: u8,
    pub max_air: u8,
    pub min_air: u8,
    pub constant: u8,
    pub constant_a: u8,
    pub master: u8,
    pub damper_fault: u8,
    pub sensor_fault: u8,
    pub damper_skip: u8,
    pub isense: u8,
    pub calibration: u8,
    pub rf_signal: u8,
    pub batt_volt: u8,
    pub area: u32,
    pub bypass: u8,
    pub balance_max: u8,
    pub balance_min: u8,
}

impl ZonesV2 {
    /// What is wrong with `obj` as a `ZonesV2`, if anything: of several
    /// faults the first, in the order of the fields.
    pub open spec fn fault(obj: JsonView) -> Option<DecodeError> {
        let fault = object_fault(obj, "ZonesV2");
        let fault = prior(fault, text_fault(obj, "Name", true));
        let fault = prior(fault, int_fault(obj, "Mode", 0, 255, true));
        let fault = prior(fault, int_fault(obj, "Setpoint", 0, 4294967295, true));
        let fault = prior(fault, int_fault(obj, "Temp", 0, 4294967295, true));
        let fault = prior(fault, int_fault(obj, "DmpPos", 0, 255, true));
        let fault = prior(fault, int_fault(obj, "ZoneType", 0, 255, true));
        let fault = prior(fault, int_fault(obj, "SensType", 0, 255, true));
        let fault = prior(fault, int_fault(obj, "MaxAir", 0, 255, true));
        let fault = prior(fault, int_fault(obj, "MinAir", 0, 255, true));
        let fault = prior(fault, int_fault(obj, "Const", 0, 255, false));
        let fault = prior(fault, int_fault(obj, "ConstA", 0, 255, true));
        let fault = prior(fault, int_fault(obj, "Master", 0, 255, true));
        let fault = prior(fault, int_fault(obj, "DmpFlt", 0, 255, true));
        let fault = prior(fault, int_fault(obj, "SnsFlt", 0, 255, false));
        let fault = prior(fault, int_fault(obj, "DmpSkip", 0, 255, false));
        let fault = prior(fault, int_fault(obj, "Isense", 0, 255, false));
        let fault = prior(fault, int_fault(obj, "Calibration", 0, 255, true));
        let fault = prior(fault, int_fault(obj, "RFSig", 0, 255, false));
        let fault = prior(fault, int_fault(obj, "BattVolt", 0, 255, true));
        let fault = prior(fault, int_fault(obj, "Area", 0, 4294967295, true));
        let fault = prior(fault, int_fault(obj, "Bypass", 0, 255, true));
        let fault = prior(fault, int_fault(obj, "BalanceMax", 0, 255, true));
        let fault = prior(fault, int_fault(obj, "BalanceMin", 0, 255, true));
        fault
    }

    /// Every field holds what `obj` says of it; a member that is missing
    /// reads as 0, off or the empty text.
    pub open spec fn reflects(self, obj: JsonView) -> bool {
        &&& self.name@ == text_value(obj, "Name"@)
        &&& self.mode == int_value(obj, "Mode"@)
        &&& self.setpoint == int_value(obj, "Setpoint"@)
        &&& self.temp == int_value(obj, "Temp"@)
        &&& self.damper_pos == int_value(obj, "DmpPos"@)
        &&& self.zone_type == int_value(obj, "ZoneType"@)
        &&& self.sens_type == int_value(obj, "SensType"@)
        &&& self.max_air == int_value(obj, "MaxAir"@)
        &&& self.min_air == int_value(obj, "MinAir"@)
        &&& self.constant == int_value(obj, "Const"@)
        &&& self.constant_a == int_value(obj, "ConstA"@)
        &&& self.master == int_value(obj, "Master"@)
        &&& self.damper_fault == int_value(obj, "DmpFlt"@)
        &&& self.sensor_fault == int_value(obj, "SnsFlt"@)
        &&& self.damper_skip == int_value(obj, "DmpSkip"@)
        &&& self.isense == int_value(obj, "Isense"@)
        &&& self.calibration == int_value(obj, "Calibration"@)
        &&& self.rf_signal == int_value(obj, "RFSig"@)
        &&& self.batt_volt == int_value(obj, "BattVolt"@)
        &&& self.area == int_value(obj, "Area"@)
        &&& self.bypass == int_value(obj, "Bypass"@)
        &&& self.balance_max == int_value(obj, "BalanceMax"@)
        &&& self.balance_min == int_value(obj, "BalanceMin"@)
    }

    /// Decodes a `ZonesV2` from the JSON object that the controller sent.
    pub fn decode(obj: &Json) -> (r: Result<ZonesV2, DecodeError>)
        ensures
            match ZonesV2::fault(obj@) {
                Some(e) => r == Err::<ZonesV2, DecodeError>(e),
                None => r is Ok && r->Ok_0.reflects(obj@),
            },
    {
        if !obj.is_object() {
            return Err(DecodeError { field: "ZonesV2", fault: Fault::NotAnObject });
        }
        let name = obj.read_text("Name", true)?;
        let mode = obj.read_int("Mode", 0, 255, true)? as u8;
        let setpoint = obj.read_int("Setpoint", 0, 4294967295, true)? as u32;
        let temp = obj.read_int("Temp", 0, 4294967295, true)? as u32;
        let damper_pos = obj.read_int("DmpPos", 0, 255, true)? as u8;
        let zone_type = obj.read_int("ZoneType", 0, 255, true)? as u8;
        let sens_type = obj.read_int("SensType", 0, 255, true)? as u8;
        let max_air = obj.read_int("MaxAir", 0, 255, true)? as u8;
        let min_air = obj.read_int("MinAir", 0, 255, true)? as u8;
        let constant = obj.read_int("Const", 0, 255, false)? as u8;
        let constant_a = obj.read_int("ConstA", 0, 255, true)? as u8;
        let master = obj.read_int("Master", 0, 255, true)? as u8;
        let damper_fault = obj.read_int("DmpFlt", 0, 255, true)? as u8;
        let sensor_fault = obj.read_int("SnsFlt", 0, 255, false)? as u8;
        let damper_skip = obj.read_int("DmpSkip", 0, 255, false)? as u8;
        let isense = obj.read_int("Isense", 0, 255, false)? as u8;
        let calibration = obj.read_int("Calibration", 0, 255, true)? as u8;
        let rf_signal = obj.read_int("RFSig", 0, 255, false)? as u8;
        let batt_volt = obj.read_int("BattVolt", 0, 255, true)? as u8;
        let area = obj.read_int("Area", 0, 4294967295, true)? as u32;
        let bypass = obj.read_int("Bypass", 0, 255, true)? as u8;
        let balance_max = obj.read_int("BalanceMax", 0, 255, true)? as u8;
        let balance_min = obj.read_int("BalanceMin", 0, 255, true)? as u8;
        Ok(ZonesV2 {
            name,
            mode,
            setpoint,
            temp,
            damper_pos,
            zone_type,
            sens_type,
            max_air,
            min_air,
            constant,
            constant_a,
            master,
            damper_fault,
            sensor_fault,
            damper_skip,
            isense,
            calibration,
            rf_signal,
            batt_volt,
            area,
            bypass,
            balance_max,
            balance_min,
        })
    }
}

/// What a schedule sets for one zone.
#[derive(Debug, PartialEq)]
pub struct ScheduleZoneSettings {
    pub mode: u8,
    pub setpoint: u32,
}

impl ScheduleZoneSettings {
    /// What is wrong with `obj` as a `ScheduleZoneSettings`, if anything: of several
    /// faults the first, in the order of the fields.
    pub open spec fn fault(obj: JsonView) -> Option<DecodeError> {
        let fault = object_fault(obj, "ScheduleZoneSettings");
        let fault = prior(fault, int_fault(obj, "Mode", 0, 255, true));
        let fault = prior(fault, int_fault(obj, "Setpoint", 0, 4294967295, true));
        fault
    }

    /// Every field holds what `obj` says of it; a member that is missing
    /// reads as 0, off or the empty text.
    pub open spec fn reflects(self, obj: JsonView) -> bool {
        &&& self.mode == int_value(obj, "Mode"@)
        &&& self.setpoint == int_value(obj, "Setpoint"@)
    }

    /// Decodes a `ScheduleZoneSettings` from the JSON object that the controller sent.
    pub fn decode(obj: &Json) -> (r: Result<ScheduleZoneSettings, DecodeError>)
        ensures
            match ScheduleZoneSettings::fault(obj@) {
                Some(e) => r == Err::<ScheduleZoneSettings, DecodeError>(e),
                None => r is Ok && r->Ok_0.reflects(obj@),
            },
    {
        if !obj.is_object() {
            return Err(DecodeError { field: "ScheduleZoneSettings", fault: Fault::NotAnObject });
        }
        let mode = obj.read_int("Mode", 0, 255, true)? as u8;
        let setpoint = obj.read_int("Setpoint", 0, 4294967295, true)? as u32;
        Ok(ScheduleZoneSettings {
            mode,
            setpoint,
        })
    }
}

/// What a schedule sets for the evaporative cooler.
#[derive(Debug, PartialEq)]
pub struct ScheduleCoolbreezeSettings {
    pub unit_setpoint: u32,
    pub fan_speed: u8,
    pub rh_setpoint: u8,
}

impl ScheduleCoolbreezeSettings {
    /// What is wrong with `obj` as a `ScheduleCoolbreezeSettings`, if anything: of several
    /// faults the first, in the order of the fields.
    pub open spec fn fault(obj: JsonView) -> Option<DecodeError> {
        let fault = object_fault(obj, "ScheduleCoolbreezeSettings");
        let fault = prior(fault, int_fault(obj, "UnitSetpoint", 0, 4294967295, true));
        let fault = prior(fault, int_fault(obj, "FanSpeed", 0, 255, true));
        let fault = prior(fault, int_fault(obj, "RhSetpoint", 0, 255, true));
        fault
    }

    /// Every field holds what `obj` says of it; a member that is missing
    /// reads as 0, off or the empty text.
    pub open spec fn reflects(self, obj: JsonView) -> bool {
        &&& self.unit_setpoint == int_value(obj, "UnitSetpoint"@)
        &&& self.fan_speed == int_value(obj, "FanSpeed"@)
        &&& self.rh_setpoint == int_value(obj, "RhSetpoint"@)
    }

    /// Decodes a `ScheduleCoolbreezeSettings` from the JSON object that the controller sent.
    pub fn decode(obj: &Json) -> (r: Result<ScheduleCoolbreezeSettings, DecodeError>)
        ensures
            match ScheduleCoolbreezeSettings::fault(obj@) {
                Some(e) => r == Err::<ScheduleCoolbreezeSettings, DecodeError>(e),
                None => r is Ok && r->Ok_0.reflects(obj@),
            },
    {
        if !obj.is_object() {
            return Err(DecodeError { field: "ScheduleCoolbreezeSettings", fault: Fault::NotAnObject });
        }
        let unit_setpoint = obj.read_int("UnitSetpoint", 0, 4294967295, true)? as u32;
        let fan_speed = obj.read_int("FanSpeed", 0, 255, true)? as u8;
        let rh_setpoint = obj.read_int("RhSetpoint", 0, 255, true)? as u8;
        Ok(ScheduleCoolbreezeSettings {
            unit_setpoint,
            fan_speed,
            rh_setpoint,
        })
    }
}

/// The days of the week on which a schedule runs.
#[derive(Clone, Copy, Debug, PartialEq, Eq, Structural)]
pub struct DaysEnabled {
    pub monday: bool,
    pub tuesday: bool,
    pub wednesday: bool,
    pub thursday: bool,
    pub friday: bool,
    pub saturday: bool,
    pub sunday: bool,
}

impl DaysEnabled {
    /// What is wrong with `obj` as a `DaysEnabled`, if anything: of several
    /// faults the first, in the order of the fields.
    pub open spec fn fault(obj: JsonView) -> Option<DecodeError> {
        let fault = object_fault(obj, "DaysEnabled");
        let fault = prior(fault, flag_fault(obj, "M", false));
        let fault = prior(fault, flag_fault(obj, "Tu", false));
        let fault = prior(fault, flag_fault(obj, "W", false));
        let fault = prior(fault, flag_fault(obj, "Th", false));
        let fault = prior(fault, flag_fault(obj, "F", false));
        let fault = prior(fault, flag_fault(obj, "Sa", false));
        let fault = prior(fault, flag_fault(obj, "Su", false));
        fault
    }

    /// Every field holds what `obj` says of it; a member that is missing
    /// reads as 0, off or the empty text.
    pub open spec fn reflects(self, obj: JsonView) -> bool {
        &&& self.monday == flag_value(obj, "M"@)
        &&& self.tuesday == flag_value(obj, "Tu"@)
        &&& self.wednesday == flag_value(obj, "W"@)
        &&& self.thursday == flag_value(obj, "Th"@)
        &&& self.friday == flag_value(obj, "F"@)
        &&& self.saturday == flag_value(obj, "Sa"@)
        &&& self.sunday == flag_value(obj, "Su"@)
    }

    /// Decodes a `DaysEnabled` from the JSON object that the controller sent.
    pub fn decode(obj: &Json) -> (r: Result<DaysEnabled, DecodeError>)
        ensures
            match DaysEnabled::fault(obj@) {
                Some(e) => r == Err::<DaysEnabled, DecodeError>(e),
                None => r is Ok && r->Ok_0.reflects(obj@),
            },
    {
        if !obj.is_object() {
            return Err(DecodeError { field: "DaysEnabled", fault: Fault::NotAnObject });
        }
        let monday = obj.read_flag("M", false)?;
        let tuesday = obj.read_flag("Tu", false)?;
        let wednesday = obj.read_flag("W", false)?;
        let thursday = obj.read_flag("Th", false)?;
        let friday = obj.read_flag("F", false)?;
        let saturday = obj.read_flag("Sa", false)?;
        let sunday = obj.read_flag("Su", false)?;
        Ok(DaysEnabled {
            monday,
            tuesday,
            wednesday,
            thursday,
            friday,
            saturday,
            sunday,
        })
    }
}

/// An 8-bit field that may be missing holds what the object says of it.
pub open spec fn holds_nullable(field: Option<u8>, obj: JsonView, key: Seq<char>) -> bool {
    match nullable_int_value(obj, key) {
        Some(v) => field == Some(v as u8),
        None => field is None,
    }
}

/// A text field that may be missing holds what the object says of it.
pub open spec fn holds_nullable_text(field: Option<String>, obj: JsonView, key: Seq<char>) -> bool {
    match nullable_text_value(obj, key) {
        Some(t) => field is Some && field->0@ == t,
        None => field is None,
    }
}

fn narrow(value: Option<i64>) -> (r: Option<u8>)
    requires
        value matches Some(v) ==> 0 <= v <= 255,
    ensures
        r == match value {
            Some(v) => Some(v as u8),
            None => None,
        },
{
    match value {
        Some(v) => Some(v as u8),
        None => None,
    }
}

/// `i` is the first item that is no valid zone setting.
pub open spec fn is_first_faulty(items: Seq<JsonView>, i: int) -> bool {
    &&& 0 <= i < items.len()
    &&& ScheduleZoneSettings::fault(items[i]) is Some
    &&& forall|k: int| 0 <= k < i ==> ScheduleZoneSettings::fault(#[trigger] items[k]) is None
}

/// What is wrong with `j` as a list of zone settings: the fault of the
/// first item that has one.
pub open spec fn zone_list_fault(j: JsonView) -> Option<DecodeError> {
    match j {
        JsonView::Array(items) => if exists|i: int| is_first_faulty(items, i) {
            ScheduleZoneSettings::fault(items[choose|i: int| is_first_faulty(items, i)])
        } else {
            None
        },
        _ => Some(DecodeError { field: "Zones", fault: Fault::WrongType }),
    }
}

/// The list holds, item by item, what the array says.
pub open spec fn reflects_zone_list(list: Seq<ScheduleZoneSettings>, j: JsonView) -> bool {
    &&& j is Array
    &&& list.len() == j->Array_0.len()
    &&& forall|i: int| 0 <= i < list.len() ==> (#[trigger] list[i]).reflects(j->Array_0[i])
}

/// Decodes the zone settings of a schedule from a JSON array.
pub fn decode_zone_list(j: &Json) -> (r: Result<Vec<ScheduleZoneSettings>, DecodeError>)
    ensures
        match zone_list_fault(j@) {
            Some(e) => r == Err::<Vec<ScheduleZoneSettings>, DecodeError>(e),
            None => r is Ok && reflects_zone_list(r->Ok_0@, j@),
        },
{
    match j {
        Json::Array(items) => {
            proof {
                lemma_array_view(*items);
            }
            let ghost views = j@->Array_0;
            let mut list: Vec<ScheduleZoneSettings> = Vec::new();
            let mut i: usize = 0;
            while i < items.len()
                invariant
                    i <= items.len(),
                    j@ is Array,
                    views == j@->Array_0,
                    views.len() == items.len(),
                    forall|k: int| 0 <= k < items.len() ==> #[trigger] views[k] == items[k]@,
                    list.len() == i,
                    forall|k: int|
                        0 <= k < i ==> ScheduleZoneSettings::fault(#[trigger] views[k]) is None,
                    forall|k: int| 0 <= k < i ==> (#[trigger] list@[k]).reflects(views[k]),
                decreases items.len() - i,
            {
                match ScheduleZoneSettings::decode(&items[i]) {
                    Ok(setting) => {
                        list.push(setting);
                    },
                    Err(e) => {
                        proof {
                            assert(views[i as int] == items[i as int]@);
                            assert(is_first_faulty(views, i as int));
                            let found = choose|k: int| is_first_faulty(views, k);
                            if found < i {
                                assert(ScheduleZoneSettings::fault(views[found]) is None);
                            } else if found > i {
                                assert(ScheduleZoneSettings::fault(views[i as int]) is None);
                            }
                        }
                        return Err(e);
                    },
                }
                assert(views[i as int] == items[i as int]@);
                i += 1;
            }
            assert forall|k: int| !is_first_faulty(views, k) by {}
            Ok(list)
        },
        _ => Err(DecodeError { field: "Zones", fault: Fault::WrongType }),
    }
}

/// A stored schedule ("favourite"), as the controller reports it.
#[derive(Debug, PartialEq)]
pub struct SchedulesV2 {
    pub airstream_device_uid: Option<String>,
    pub index: u8,
    pub name: String,
    pub active: bool,
    pub mode: Option<u8>,
    pub fan: Option<u8>,
    pub start_h: Option<u8>,
    pub start_m: Option<u8>,
    pub stop_h: Option<u8>,
    pub stop_m: Option<u8>,
    pub days_enabled: DaysEnabled,
    pub coolbreeze: Option<ScheduleCoolbreezeSettings>,
    pub zones: Option<Vec<ScheduleZoneSettings>>,
}

impl SchedulesV2 {
    /// What is wrong with `obj` as a `SchedulesV2`, if anything: of several
    /// faults the first, in the order of the fields.
    pub open spec fn fault(obj: JsonView) -> Option<DecodeError> {
        let fault = object_fault(obj, "SchedulesV2");
        let fault = prior(fault, nullable_text_fault(obj, "AirStreamDeviceUId"));
        let fault = prior(fault, int_fault(obj, "Index", 0, 255, true));
        let fault = prior(fault, text_fault(obj, "Name", true));
        let fault = prior(fault, flag_fault(obj, "Enabled", false));
        let fault = prior(fault, nullable_int_fault(obj, "Mode", 0, 255));
        let fault = prior(fault, nullable_int_fault(obj, "Fan", 0, 255));
        let fault = prior(fault, nullable_int_fault(obj, "StartH", 0, 255));
        let fault = prior(fault, nullable_int_fault(obj, "StartM", 0, 255));
        let fault = prior(fault, nullable_int_fault(obj, "StopH", 0, 255));
        let fault = prior(fault, nullable_int_fault(obj, "StopM", 0, 255));
        let fault = prior(fault, DaysEnabled::fault(child_or_empty(obj, "DaysEnabled"@)));
        let fault = prior(
            fault,
            if is_given(obj, "Coolbreeze"@) {
                ScheduleCoolbreezeSettings::fault(lookup(obj, "Coolbreeze"@)->0)
            } else {
                None
            },
        );
        let fault = prior(
            fault,
            if is_given(obj, "Zones"@) {
                zone_list_fault(lookup(obj, "Zones"@)->0)
            } else {
                None
            },
        );
        fault
    }

    /// Every field holds what `obj` says of it. A time, mode or fan speed
    /// that is missing or null is absent, and so are the settings for the
    /// evaporative cooler and for the zones.
    pub open spec fn reflects(self, obj: JsonView) -> bool {
        &&& holds_nullable_text(self.airstream_device_uid, obj, "AirStreamDeviceUId"@)
        &&& self.index == int_value(obj, "Index"@)
        &&& self.name@ == text_value(obj, "Name"@)
        &&& self.active == flag_value(obj, "Enabled"@)
        &&& holds_nullable(self.mode, obj, "Mode"@)
        &&& holds_nullable(self.fan, obj, "Fan"@)
        &&& holds_nullable(self.start_h, obj, "StartH"@)
        &&& holds_nullable(self.start_m, obj, "StartM"@)
        &&& holds_nullable(self.stop_h, obj, "StopH"@)
        &&& holds_nullable(self.stop_m, obj, "StopM"@)
        &&& self.days_enabled.reflects(child_or_empty(obj, "DaysEnabled"@))
        &&& match self.coolbreeze {
            Some(settings) => is_given(obj, "Coolbreeze"@) && settings.reflects(
                lookup(obj, "Coolbreeze"@)->0,
            ),
            None => !is_given(obj, "Coolbreeze"@),
        }
        &&& match self.zones {
            Some(list) => is_given(obj, "Zones"@) && reflects_zone_list(
                list@,
                lookup(obj, "Zones"@)->0,
            ),
            None => !is_given(obj, "Zones"@),
        }
    }

    /// Decodes a `SchedulesV2` from the JSON object that the controller sent.
    pub fn decode(obj: &Json) -> (r: Result<SchedulesV2, DecodeError>)
        ensures
            match SchedulesV2::fault(obj@) {
                Some(e) => r == Err::<SchedulesV2, DecodeError>(e),
                None => r is Ok && r->Ok_0.reflects(obj@),
            },
    {
        if !obj.is_object() {
            return Err(DecodeError { field: "SchedulesV2", fault: Fault::NotAnObject });
        }
        let airstream_device_uid = obj.read_nullable_text("AirStreamDeviceUId")?;
        let index = obj.read_int("Index", 0, 255, true)? as u8;
        let name = obj.read_text("Name", true)?;
        let active = obj.read_flag("Enabled", false)?;
        let mode = narrow(obj.read_nullable_int("Mode", 0, 255)?);
        let fan = narrow(obj.read_nullable_int("Fan", 0, 255)?);
        let start_h = narrow(obj.read_nullable_int("StartH", 0, 255)?);
        let start_m = narrow(obj.read_nullable_int("StartM", 0, 255)?);
        let stop_h = narrow(obj.read_nullable_int("StopH", 0, 255)?);
        let stop_m = narrow(obj.read_nullable_int("StopM", 0, 255)?);
        let days_enabled = match obj.get("DaysEnabled") {
            Some(child) => DaysEnabled::decode(child)?,
            None => DaysEnabled::decode(&empty_json_object())?,
        };
        let coolbreeze = match obj.get("Coolbreeze") {
            Some(child) => if child.is_null() {
                None
            } else {
                Some(ScheduleCoolbreezeSettings::decode(child)?)
            },
            None => None,
        };
        let zones = match obj.get("Zones") {
            Some(child) => if child.is_null() {
                None
            } else {
                Some(decode_zone_list(child)?)
            },
            None => None,
        };
        Ok(
            SchedulesV2 {
                airstream_device_uid,
                index,
                name,
                active,
                mode,
                fan,
                start_h,
                start_m,
                stop_h,
                stop_m,
                days_enabled,
                coolbreeze,
                zones,
            },
        )
    }
}

/// What is wrong with the member `key` of `obj` where it must be there and
/// `inner` says what is wrong with its value.
pub open spec fn required_fault(
    obj: JsonView,
    key: &'static str,
    inner: spec_fn(JsonView) -> Option<DecodeError>,
) -> Option<DecodeError> {
    match lookup(obj, key@) {
        Some(child) => inner(child),
        None => Some(DecodeError { field: key, fault: Fault::Missing }),
    }
}

/// The answer to a query for the system: the record under its key.
#[derive(Debug, PartialEq)]
pub struct SystemV2Response {
    pub system_v2: SystemV2,
}

impl SystemV2Response {
    /// What is wrong with `obj` as the answer to a query for the system.
    pub open spec fn fault(obj: JsonView) -> Option<DecodeError> {
        required_fault(obj, "SystemV2", |child: JsonView| SystemV2::fault(child))
    }

    /// The record holds what the member `SystemV2` says.
    pub open spec fn reflects(self, obj: JsonView) -> bool {
        self.system_v2.reflects(child_or_empty(obj, "SystemV2"@))
    }

    /// Decodes the answer to a query for the system.
    pub fn decode(obj: &Json) -> (r: Result<SystemV2Response, DecodeError>)
        ensures
            match SystemV2Response::fault(obj@) {
                Some(e) => r == Err::<SystemV2Response, DecodeError>(e),
                None => r is Ok && r->Ok_0.reflects(obj@),
            },
    {
        match obj.get("SystemV2") {
            Some(child) => Ok(SystemV2Response { system_v2: SystemV2::decode(child)? }),
            None => Err(DecodeError { field: "SystemV2", fault: Fault::Missing }),
        }
    }
}

/// The answer to a query for a zone: the record under its key.
#[derive(Debug, PartialEq)]
pub struct ZonesV2Response {
    pub zones_v2: ZonesV2,
}

impl ZonesV2Response {
    /// What is wrong with `obj` as the answer to a query for a zone.
    pub open spec fn fault(obj: JsonView) -> Option<DecodeError> {
        required_fault(obj, "ZonesV2", |child: JsonView| ZonesV2::fault(child))
    }

    /// The record holds what the member `ZonesV2` says.
    pub open spec fn reflects(self, obj: JsonView) -> bool {
        self.zones_v2.reflects(child_or_empty(obj, "ZonesV2"@))
    }

    /// Decodes the answer to a query for a zone.
    pub fn decode(obj: &Json) -> (r: Result<ZonesV2Response, DecodeError>)
        ensures
            match ZonesV2Response::fault(obj@) {
                Some(e) => r == Err::<ZonesV2Response, DecodeError>(e),
                None => r is Ok && r->Ok_0.reflects(obj@),
            },
    {
        match obj.get("ZonesV2") {
            Some(child) => Ok(ZonesV2Response { zones_v2: ZonesV2::decode(child)? }),
            None => Err(DecodeError { field: "ZonesV2", fault: Fault::Missing }),
        }
    }
}

/// The answer to a query for a schedule: the record under its key, and what
/// the controller says of itself.
#[derive(Debug, PartialEq)]
pub struct SchedulesResponseWrapper {
    pub airstream_device_uid: Option<String>,
    pub device_type: Option<String>,
    pub schedules_v2: SchedulesV2,
}

impl SchedulesResponseWrapper {
    /// What is wrong with `obj` as the answer to a query for a schedule.
    pub open spec fn fault(obj: JsonView) -> Option<DecodeError> {
        let fault = nullable_text_fault(obj, "AirStreamDeviceUId");
        let fault = prior(fault, nullable_text_fault(obj, "DeviceType"));
        let fault = prior(
            fault,
            required_fault(obj, "SchedulesV2", |child: JsonView| SchedulesV2::fault(child)),
        );
        fault
    }

    /// The record holds what `obj` says.
    pub open spec fn reflects(self, obj: JsonView) -> bool {
        &&& holds_nullable_text(self.airstream_device_uid, obj, "AirStreamDeviceUId"@)
        &&& holds_nullable_text(self.device_type, obj, "DeviceType"@)
        &&& self.schedules_v2.reflects(child_or_empty(obj, "SchedulesV2"@))
    }

    /// Decodes the answer to a query for a schedule.
    pub fn decode(obj: &Json) -> (r: Result<SchedulesResponseWrapper, DecodeError>)
        ensures
            match SchedulesResponseWrapper::fault(obj@) {
                Some(e) => r == Err::<SchedulesResponseWrapper, DecodeError>(e),
                None => r is Ok && r->Ok_0.reflects(obj@),
            },
    {
        let airstream_device_uid = obj.read_nullable_text("AirStreamDeviceUId")?;
        let device_type = obj.read_nullable_text("DeviceType")?;
        match obj.get("SchedulesV2") {
            Some(child) => Ok(
                SchedulesResponseWrapper {
                    airstream_device_uid,
                    device_type,
                    schedules_v2: SchedulesV2::decode(child)?,
                },
            ),
            None => Err(DecodeError { field: "SchedulesV2", fault: Fault::Missing }),
        }
    }
}

} // verus!
