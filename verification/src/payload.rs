//! The commands that the controller takes, and the JSON that stands for
//! each of them and for a query.
//!
//! A command is an object with one member: the command's name, and under it
//! a number, a text or an object of parameters. Flags are sent as 0 and 1.

use crate::codec::{flag_code, serialize_bool_as_int};
use crate::json::{
    lemma_array_view, lemma_lookup_at, lemma_object_view, Json, JsonView, Member,
};
use crate::models::DaysEnabled;
use vstd::prelude::*;
use vstd::string::StringExecFns;

verus! {

/// What a schedule sets for one zone, addressed by its index.
#[derive(Clone, Copy, Debug, PartialEq, Eq, Structural)]
pub struct ZoneSetting {
    pub index: u8,
    pub mode: u8,
    pub setpoint: u32,
}

/// A command to the controller.
#[derive(Debug, PartialEq)]
pub enum Command {
    /// Switches the system on or off.
    SysOn(bool),
    /// Sets the system mode, by its code.
    SysMode(u8),
    /// Sets the fan speed, by its code.
    SysFan(u8),
    /// Sets the system's setpoint, in hundredths of a degree.
    SysSetpoint(u32),
    /// Sets the sleep timer, in minutes; 0 switches it off.
    SysSleepTimer(u32),
    /// Switches the economy lock on or off.
    EconomyLock(bool),
    /// Sets the lower bound of the economy lock, in hundredths of a degree.
    EconomyMin(u32),
    /// Sets the upper bound of the economy lock, in hundredths of a degree.
    EconomyMax(u32),
    /// Sets the filter warning interval, in months.
    FilterWarn(u8),
    /// Sets the damper time, in seconds; 0 means automatic.
    DamperTime(u8),
    /// Sets the deadband of the automatic mode, in hundredths of a degree.
    AutoModeDeadB(u16),
    /// Locks or unlocks the airflow settings.
    AirflowLock(bool),
    /// Locks or unlocks the minimum airflow settings.
    AirflowMinLock(bool),
    /// Sets the static pressure level.
    StaticP(u8),
    /// Whether the dampers open while the system is off.
    OpenDampersWhenOff(bool),
    /// Switches the scrooge mode on or off.
    ScroogeMode(bool),
    /// Whether the dampers run reversed.
    ReverseDampers(bool),
    /// Whether constant zones are controlled by area.
    CnstCtrlAreaEn(bool),
    /// Sets the area for the control of constant zones, in square metres.
    CnstCtrlArea(u16),
    /// Sets the cooler's fan speed, in percent.
    CoolbreezeFanSpeed(u8),
    /// Sets the cooler's humidity setpoint, in percent.
    CoolbreezeRhSetpoint(u8),
    /// Switches the cooler's prewash on or off.
    CoolbreezePrewEn(bool),
    /// Sets the cooler's prewash time, in minutes.
    CoolbreezePrewTime(u8),
    /// Whether the cooler drains after the prewash.
    CoolbreezeDrAfPrewEn(bool),
    /// Switches the cooler's drain cycle on or off.
    CoolbreezeDrCycEn(bool),
    /// Sets the period of the cooler's drain cycle, in minutes.
    CoolbreezeDrCycPer(u16),
    /// Switches the cooler's postwash on or off.
    CoolbreezePostwEn(bool),
    /// Sets the cooler's postwash time, in minutes.
    CoolbreezePostwT(u8),
    /// Whether the cooler drains before the postwash.
    CoolbreezeDrBfPostwEn(bool),
    /// Whether the cooler runs an inverter.
    CoolbreezeInverter(bool),
    /// Whether the cooler resumes its last state.
    CoolbreezeResumeLast(bool),
    /// Sets the cooler's maximum fan speed in automatic mode, in percent.
    CoolbreezeFanMaxAuto(u8),
    /// Sets the cooler's maximum fan speed, in percent.
    CoolbreezeFanMax(u8),
    /// Sets the cooler's maximum exhaust speed, in percent.
    CoolbreezeExhMax(u8),
    /// Switches the cooler's exhaust mode on or off.
    CoolbreezeExhEn(bool),
    /// Chooses the sensor that controls the cooler: 0 the screen's, 1 the remote one.
    CoolbreezeCtrlSens(u8),
    /// Sets the cooler's temperature calibration, in tenths of a degree.
    CoolbreezeCalibTemp(i16),
    /// Sets the cooler's deadband, in hundredths of a degree.
    CoolbreezeDeadTemp(u16),
    /// Sets how long the cooler's fan may run at its maximum in automatic mode, in minutes.
    CoolbreezeAutoFanMaxTime(u8),
    /// Sets the ventilation's humidity setpoint, in percent.
    VentilationRhSetpoint(u8),
    /// Sets the ventilation's VOCs setpoint, in parts per billion.
    VentilationVocsSetpoint(u16),
    /// Sets the ventilation's eCO2 setpoint, in parts per million.
    VentilationEco2Setpoint(u16),
    /// Sets the ventilation's fan stage delay, in minutes.
    VentilationFanStageDelay(u8),
    /// Whether the ventilation cycles its fan off.
    VentilationCycleFanOff(bool),
    /// Whether the ventilation is controlled by humidity.
    VentilationUseRhControl(bool),
    /// Whether the ventilation is controlled by VOCs.
    VentilationUseVocsControl(bool),
    /// Whether the ventilation is controlled by eCO2.
    VentilationUseEco2Control(bool),
    /// Resets a warning, given by its name.
    ResetWarning(String),
    /// Sets the mode of a zone, by its code.
    ZoneMode { index: u8, mode: u8 },
    /// Sets the setpoint of a zone, in hundredths of a degree.
    ZoneSetpoint { index: u8, setpoint: u32 },
    /// Sets the maximum airflow of a zone, in percent.
    ZoneMaxAir { index: u8, max_air: u8 },
    /// Sets the minimum airflow of a zone, in percent.
    ZoneMinAir { index: u8, min_air: u8 },
    /// Names a zone.
    ZoneName { index: u8, name: String },
    /// Names a schedule.
    SchedName { index: u8, name: String },
    /// Sets the times and the days of a schedule. The controller takes both
    /// together: the days are set to what is sent with the times.
    SchedSettings {
        index: u8,
        start_h: u8,
        start_m: u8,
        stop_h: u8,
        stop_m: u8,
        days: DaysEnabled,
    },
    /// Sets the system mode that a schedule switches to, by its code.
    SchedAcMode { index: u8, mode: u8 },
    /// Sets the fan speed that a schedule switches to, by its code.
    SchedAcFan { index: u8, fan: u8 },
    /// Switches a schedule on or off.
    SchedEnable { index: u8, enabled: bool },
    /// Sets what a schedule does to the zones.
    SchedZones { index: u8, zones: Vec<ZoneSetting> },
}

/// An object with one member.
pub open spec fn single(key: Seq<char>, value: JsonView) -> JsonView {
    JsonView::Object(seq![(key, value)])
}

/// An object with two members.
pub open spec fn pair(key1: Seq<char>, value1: JsonView, key2: Seq<char>, value2: JsonView) -> JsonView {
    JsonView::Object(seq![(key1, value1), (key2, value2)])
}

/// A number.
pub open spec fn number(value: int) -> JsonView {
    JsonView::Int(value)
}

/// A flag, as the number 0 or 1.
pub open spec fn flag(on: bool) -> JsonView {
    JsonView::Int(flag_code(on))
}

/// The days of a week as the controller names them.
pub open spec fn days_wire(days: DaysEnabled) -> JsonView {
    JsonView::Object(
        seq![
            ("M"@, flag(days.monday)),
            ("Tu"@, flag(days.tuesday)),
            ("W"@, flag(days.wednesday)),
            ("Th"@, flag(days.thursday)),
            ("F"@, flag(days.friday)),
            ("Sa"@, flag(days.saturday)),
            ("Su"@, flag(days.sunday)),
        ],
    )
}

/// One zone's setting within a schedule.
pub open spec fn zone_setting_wire(setting: ZoneSetting) -> JsonView {
    JsonView::Object(
        seq![
            ("Index"@, number(setting.index as int)),
            ("Mode"@, number(setting.mode as int)),
            ("Setpoint"@, number(setting.setpoint as int)),
        ],
    )
}

impl Command {
    /// The JSON that is sent for this command.
    pub open spec fn wire(self) -> JsonView {
        match self {
            Command::SysOn(on) => single("SysOn"@, flag(on)),
            Command::SysMode(value) => single("SysMode"@, number(value as int)),
            Command::SysFan(value) => single("SysFan"@, number(value as int)),
            Command::SysSetpoint(value) => single("SysSetpoint"@, number(value as int)),
            Command::SysSleepTimer(value) => single("SysSleepTimer"@, number(value as int)),
            Command::EconomyLock(on) => single("EconomyLock"@, flag(on)),
            Command::EconomyMin(value) => single("EconomyMin"@, number(value as int)),
            Command::EconomyMax(value) => single("EconomyMax"@, number(value as int)),
            Command::FilterWarn(value) => single("FilterWarn"@, number(value as int)),
            Command::DamperTime(value) => single("DamperTime"@, number(value as int)),
            Command::AutoModeDeadB(value) => single("AutoModeDeadB"@, number(value as int)),
            Command::AirflowLock(on) => single("AirflowLock"@, flag(on)),
            Command::AirflowMinLock(on) => single("AirflowMinLock"@, flag(on)),
            Command::StaticP(value) => single("StaticP"@, number(value as int)),
            Command::OpenDampersWhenOff(on) => single("OpenDampersWhenOff"@, flag(on)),
            Command::ScroogeMode(on) => single("ScroogeMode"@, flag(on)),
            Command::ReverseDampers(on) => single("ReverseDampers"@, flag(on)),
            Command::CnstCtrlAreaEn(on) => single("CnstCtrlAreaEn"@, flag(on)),
            Command::CnstCtrlArea(value) => single("CnstCtrlArea"@, number(value as int)),
            Command::CoolbreezeFanSpeed(value) => single("CoolbreezeFanSpeed"@, number(value as int)),
            Command::CoolbreezeRhSetpoint(value) => single("CoolbreezeRhSetpoint"@, number(value as int)),
            Command::CoolbreezePrewEn(on) => single("CoolbreezePrewEn"@, flag(on)),
            Command::CoolbreezePrewTime(value) => single("CoolbreezePrewTime"@, number(value as int)),
            Command::CoolbreezeDrAfPrewEn(on) => single("CoolbreezeDrAfPrewEn"@, flag(on)),
            Command::CoolbreezeDrCycEn(on) => single("CoolbreezeDrCycEn"@, flag(on)),
            Command::CoolbreezeDrCycPer(value) => single("CoolbreezeDrCycPer"@, number(value as int)),
            Command::CoolbreezePostwEn(on) => single("CoolbreezePostwEn"@, flag(on)),
            Command::CoolbreezePostwT(value) => single("CoolbreezePostwT"@, number(value as int)),
            Command::CoolbreezeDrBfPostwEn(on) => single("CoolbreezeDrBfPostwEn"@, flag(on)),
            Command::CoolbreezeInverter(on) => single("CoolbreezeInverter"@, flag(on)),
            Command::CoolbreezeResumeLast(on) => single("CoolbreezeResumeLast"@, flag(on)),
            Command::CoolbreezeFanMaxAuto(value) => single("CoolbreezeFanMaxAuto"@, number(value as int)),
            Command::CoolbreezeFanMax(value) => single("CoolbreezeFanMax"@, number(value as int)),
            Command::CoolbreezeExhMax(value) => single("CoolbreezeExhMax"@, number(value as int)),
            Command::CoolbreezeExhEn(on) => single("CoolbreezeExhEn"@, flag(on)),
            Command::CoolbreezeCtrlSens(value) => single("CoolbreezeCtrlSens"@, number(value as int)),
            Command::CoolbreezeCalibTemp(value) => single("CoolbreezeCalibTemp"@, number(value as int)),
            Command::CoolbreezeDeadTemp(value) => single("CoolbreezeDeadTemp"@, number(value as int)),
            Command::CoolbreezeAutoFanMaxTime(value) => single("CoolbreezeAutoFanMaxTime"@, number(value as int)),
            Command::VentilationRhSetpoint(value) => single("VentilationRfSetpoint"@, number(value as int)),
            Command::VentilationVocsSetpoint(value) => single("VentilationVocsSetpoint"@, number(value as int)),
            Command::VentilationEco2Setpoint(value) => single("VentilationEco2Setpoint"@, number(value as int)),
            Command::VentilationFanStageDelay(value) => single("VentilationFanStageDelay"@, number(value as int)),
            Command::VentilationCycleFanOff(on) => single("VentilationCycleFanOff"@, flag(on)),
            Command::VentilationUseRhControl(on) => single("VentilationUseRhControl"@, flag(on)),
            Command::VentilationUseVocsControl(on) => single("VentilationUseVcosControl"@, flag(on)),
            Command::VentilationUseEco2Control(on) => single("VentilationUseEco2Control"@, flag(on)),
            Command::ResetWarning(name) => single("ResetWarning"@, JsonView::Str(name@)),
            Command::ZoneMode { index, mode } => single(
                "ZoneMode"@,
                pair("Index"@, number(index as int), "Mode"@, number(mode as int)),
            ),
            Command::ZoneSetpoint { index, setpoint } => single(
                "ZoneSetpoint"@,
                pair("Index"@, number(index as int), "Setpoint"@, number(setpoint as int)),
            ),
            Command::ZoneMaxAir { index, max_air } => single(
                "ZoneAirflow"@,
                pair("Index"@, number(index as int), "MaxAir"@, number(max_air as int)),
            ),
            Command::ZoneMinAir { index, min_air } => single(
                "ZoneAirflow"@,
                pair("Index"@, number(index as int), "MinAir"@, number(min_air as int)),
            ),
            Command::ZoneName { index, name } => single(
                "ZoneName"@,
                pair("Index"@, number(index as int), "Name"@, JsonView::Str(name@)),
            ),
            Command::SchedName { index, name } => single(
                "SchedName"@,
                pair("Index"@, number(index as int), "Name"@, JsonView::Str(name@)),
            ),
            Command::SchedSettings { index, start_h, start_m, stop_h, stop_m, days } => single(
                "SchedSettings"@,
                JsonView::Object(
                    seq![
                        ("Index"@, number(index as int)),
                        ("StartH"@, number(start_h as int)),
                        ("StartM"@, number(start_m as int)),
                        ("StopH"@, number(stop_h as int)),
                        ("StopM"@, number(stop_m as int)),
                        ("DaysEnabled"@, days_wire(days)),
                    ],
                ),
            ),
            Command::SchedAcMode { index, mode } => single(
                "SchedAcMode"@,
                pair("Index"@, number(index as int), "Mode"@, number(mode as int)),
            ),
            Command::SchedAcFan { index, fan } => single(
                "SchedAcFan"@,
                pair("Index"@, number(index as int), "Fan"@, number(fan as int)),
            ),
            Command::SchedEnable { index, enabled } => single(
                "SchedEnable"@,
                pair("Index"@, number(index as int), "Enabled"@, flag(enabled)),
            ),
            Command::SchedZones { index, zones } => single(
                "SchedZones"@,
                pair(
                    "Index"@,
                    number(index as int),
                    "Zones"@,
                    JsonView::Array(zones@.map_values(|z: ZoneSetting| zone_setting_wire(z))),
                ),
            ),
        }
    }

    /// Encodes this command as the JSON that is sent for it.
    pub fn to_json(&self) -> (r: Json)
        ensures
            r@ == self.wire(),
    {
        match self {
            Command::SysOn(on) => json_single("SysOn", json_flag(*on)),
            Command::SysMode(value) => json_single("SysMode", Json::Int(*value as i64)),
            Command::SysFan(value) => json_single("SysFan", Json::Int(*value as i64)),
            Command::SysSetpoint(value) => json_single("SysSetpoint", Json::Int(*value as i64)),
            Command::SysSleepTimer(value) => json_single("SysSleepTimer", Json::Int(*value as i64)),
            Command::EconomyLock(on) => json_single("EconomyLock", json_flag(*on)),
            Command::EconomyMin(value) => json_single("EconomyMin", Json::Int(*value as i64)),
            Command::EconomyMax(value) => json_single("EconomyMax", Json::Int(*value as i64)),
            Command::FilterWarn(value) => json_single("FilterWarn", Json::Int(*value as i64)),
            Command::DamperTime(value) => json_single("DamperTime", Json::Int(*value as i64)),
            Command::AutoModeDeadB(value) => json_single("AutoModeDeadB", Json::Int(*value as i64)),
            Command::AirflowLock(on) => json_single("AirflowLock", json_flag(*on)),
            Command::AirflowMinLock(on) => json_single("AirflowMinLock", json_flag(*on)),
            Command::StaticP(value) => json_single("StaticP", Json::Int(*value as i64)),
            Command::OpenDampersWhenOff(on) => json_single("OpenDampersWhenOff", json_flag(*on)),
            Command::ScroogeMode(on) => json_single("ScroogeMode", json_flag(*on)),
            Command::ReverseDampers(on) => json_single("ReverseDampers", json_flag(*on)),
            Command::CnstCtrlAreaEn(on) => json_single("CnstCtrlAreaEn", json_flag(*on)),
            Command::CnstCtrlArea(value) => json_single("CnstCtrlArea", Json::Int(*value as i64)),
            Command::CoolbreezeFanSpeed(value) => json_single("CoolbreezeFanSpeed", Json::Int(*value as i64)),
            Command::CoolbreezeRhSetpoint(value) => json_single("CoolbreezeRhSetpoint", Json::Int(*value as i64)),
            Command::CoolbreezePrewEn(on) => json_single("CoolbreezePrewEn", json_flag(*on)),
            Command::CoolbreezePrewTime(value) => json_single("CoolbreezePrewTime", Json::Int(*value as i64)),
            Command::CoolbreezeDrAfPrewEn(on) => json_single("CoolbreezeDrAfPrewEn", json_flag(*on)),
            Command::CoolbreezeDrCycEn(on) => json_single("CoolbreezeDrCycEn", json_flag(*on)),
            Command::CoolbreezeDrCycPer(value) => json_single("CoolbreezeDrCycPer", Json::Int(*value as i64)),
            Command::CoolbreezePostwEn(on) => json_single("CoolbreezePostwEn", json_flag(*on)),
            Command::CoolbreezePostwT(value) => json_single("CoolbreezePostwT", Json::Int(*value as i64)),
            Command::CoolbreezeDrBfPostwEn(on) => json_single("CoolbreezeDrBfPostwEn", json_flag(*on)),
            Command::CoolbreezeInverter(on) => json_single("CoolbreezeInverter", json_flag(*on)),
            Command::CoolbreezeResumeLast(on) => json_single("CoolbreezeResumeLast", json_flag(*on)),
            Command::CoolbreezeFanMaxAuto(value) => json_single("CoolbreezeFanMaxAuto", Json::Int(*value as i64)),
            Command::CoolbreezeFanMax(value) => json_single("CoolbreezeFanMax", Json::Int(*value as i64)),
            Command::CoolbreezeExhMax(value) => json_single("CoolbreezeExhMax", Json::Int(*value as i64)),
            Command::CoolbreezeExhEn(on) => json_single("CoolbreezeExhEn", json_flag(*on)),
            Command::CoolbreezeCtrlSens(value) => json_single("CoolbreezeCtrlSens", Json::Int(*value as i64)),
            Command::CoolbreezeCalibTemp(value) => json_single("CoolbreezeCalibTemp", Json::Int(*value as i64)),
            Command::CoolbreezeDeadTemp(value) => json_single("CoolbreezeDeadTemp", Json::Int(*value as i64)),
            Command::CoolbreezeAutoFanMaxTime(value) => json_single("CoolbreezeAutoFanMaxTime", Json::Int(*value as i64)),
            Command::VentilationRhSetpoint(value) => json_single("VentilationRfSetpoint", Json::Int(*value as i64)),
            Command::VentilationVocsSetpoint(value) => json_single("VentilationVocsSetpoint", Json::Int(*value as i64)),
            Command::VentilationEco2Setpoint(value) => json_single("VentilationEco2Setpoint", Json::Int(*value as i64)),
            Command::VentilationFanStageDelay(value) => json_single("VentilationFanStageDelay", Json::Int(*value as i64)),
            Command::VentilationCycleFanOff(on) => json_single("VentilationCycleFanOff", json_flag(*on)),
            Command::VentilationUseRhControl(on) => json_single("VentilationUseRhControl", json_flag(*on)),
            Command::VentilationUseVocsControl(on) => json_single("VentilationUseVcosControl", json_flag(*on)),
            Command::VentilationUseEco2Control(on) => json_single("VentilationUseEco2Control", json_flag(*on)),
            Command::ResetWarning(name) => json_single("ResetWarning", Json::Str(name.clone())),
            Command::ZoneMode { index, mode } => json_single(
                "ZoneMode",
                json_pair("Index", Json::Int(*index as i64), "Mode", Json::Int(*mode as i64)),
            ),
            Command::ZoneSetpoint { index, setpoint } => json_single(
                "ZoneSetpoint",
                json_pair("Index", Json::Int(*index as i64), "Setpoint", Json::Int(*setpoint as i64)),
            ),
            Command::ZoneMaxAir { index, max_air } => json_single(
                "ZoneAirflow",
                json_pair("Index", Json::Int(*index as i64), "MaxAir", Json::Int(*max_air as i64)),
            ),
            Command::ZoneMinAir { index, min_air } => json_single(
                "ZoneAirflow",
                json_pair("Index", Json::Int(*index as i64), "MinAir", Json::Int(*min_air as i64)),
            ),
            Command::ZoneName { index, name } => json_single(
                "ZoneName",
                json_pair("Index", Json::Int(*index as i64), "Name", Json::Str(name.clone())),
            ),
            Command::SchedName { index, name } => json_single(
                "SchedName",
                json_pair("Index", Json::Int(*index as i64), "Name", Json::Str(name.clone())),
            ),
            Command::SchedSettings { index, start_h, start_m, stop_h, stop_m, days } => {
                let mut members: Vec<Member> = Vec::new();
                members.push(json_member("Index", Json::Int(*index as i64)));
                members.push(json_member("StartH", Json::Int(*start_h as i64)));
                members.push(json_member("StartM", Json::Int(*start_m as i64)));
                members.push(json_member("StopH", Json::Int(*stop_h as i64)));
                members.push(json_member("StopM", Json::Int(*stop_m as i64)));
                members.push(json_member("DaysEnabled", days_json(days)));
                proof {
                    lemma_object_view(members);
                }
                let settings = Json::Object(members);
                assert(settings@->Object_0 =~= seq![
                    ("Index"@, number(*index as int)),
                    ("StartH"@, number(*start_h as int)),
                    ("StartM"@, number(*start_m as int)),
                    ("StopH"@, number(*stop_h as int)),
                    ("StopM"@, number(*stop_m as int)),
                    ("DaysEnabled"@, days_wire(*days)),
                ]);
                json_single("SchedSettings", settings)
            },
            Command::SchedAcMode { index, mode } => json_single(
                "SchedAcMode",
                json_pair("Index", Json::Int(*index as i64), "Mode", Json::Int(*mode as i64)),
            ),
            Command::SchedAcFan { index, fan } => json_single(
                "SchedAcFan",
                json_pair("Index", Json::Int(*index as i64), "Fan", Json::Int(*fan as i64)),
            ),
            Command::SchedEnable { index, enabled } => json_single(
                "SchedEnable",
                json_pair("Index", Json::Int(*index as i64), "Enabled", json_flag(*enabled)),
            ),
            Command::SchedZones { index, zones } => json_single(
                "SchedZones",
                json_pair("Index", Json::Int(*index as i64), "Zones", zone_settings_json(zones)),
            ),
        }
    }
}

/// Every command is sent as an object with one member, which names the
/// command.
pub proof fn lemma_command_has_one_member(command: Command)
    ensures
        command.wire() is Object,
        command.wire()->Object_0.len() == 1,
{
}

/// The days of a week, once encoded, are decoded to the same days.
pub proof fn lemma_days_round_trip(days: DaysEnabled)
    ensures
        DaysEnabled::fault(days_wire(days)) is None,
        days.reflects(days_wire(days)),
{
    reveal_strlit("M");
    reveal_strlit("Tu");
    reveal_strlit("W");
    reveal_strlit("Th");
    reveal_strlit("F");
    reveal_strlit("Sa");
    reveal_strlit("Su");
    let members = days_wire(days)->Object_0;
    assert(members.len() == 7);
    assert forall|i: int, k: int| 0 <= k < i < 7 implies (#[trigger] members[k]).0 != (
    #[trigger] members[i]).0 by {
        let a = members[k].0;
        let b = members[i].0;
        if a.len() == b.len() {
            assert(a[0] != b[0] || a[a.len() - 1] != b[b.len() - 1]);
        }
    }
    lemma_lookup_at(members, 0);
    lemma_lookup_at(members, 1);
    lemma_lookup_at(members, 2);
    lemma_lookup_at(members, 3);
    lemma_lookup_at(members, 4);
    lemma_lookup_at(members, 5);
    lemma_lookup_at(members, 6);
}

/// A member of a JSON object.
pub fn json_member(key: &str, value: Json) -> (r: Member)
    ensures
        r.key@ == key@,
        r.value == value,
{
    Member { key: String::from_str(key), value }
}

/// A flag as the number 0 or 1.
pub fn json_flag(on: bool) -> (r: Json)
    ensures
        r@ == flag(on),
{
    Json::Int(serialize_bool_as_int(on) as i64)
}

/// A JSON object with one member.
pub fn json_single(key: &str, value: Json) -> (r: Json)
    ensures
        r@ == single(key@, value@),
{
    let mut members: Vec<Member> = Vec::new();
    members.push(json_member(key, value));
    proof {
        lemma_object_view(members);
    }
    let r = Json::Object(members);
    assert(r@->Object_0 =~= seq![(key@, value@)]);
    r
}

/// A JSON object with two members.
pub fn json_pair(key1: &str, value1: Json, key2: &str, value2: Json) -> (r: Json)
    ensures
        r@ == pair(key1@, value1@, key2@, value2@),
{
    let mut members: Vec<Member> = Vec::new();
    members.push(json_member(key1, value1));
    members.push(json_member(key2, value2));
    proof {
        lemma_object_view(members);
    }
    let r = Json::Object(members);
    assert(r@->Object_0 =~= seq![(key1@, value1@), (key2@, value2@)]);
    r
}

/// The days of a week as the controller names them.
pub fn days_json(days: &DaysEnabled) -> (r: Json)
    ensures
        r@ == days_wire(*days),
{
    let mut members: Vec<Member> = Vec::new();
    members.push(json_member("M", json_flag(days.monday)));
    members.push(json_member("Tu", json_flag(days.tuesday)));
    members.push(json_member("W", json_flag(days.wednesday)));
    members.push(json_member("Th", json_flag(days.thursday)));
    members.push(json_member("F", json_flag(days.friday)));
    members.push(json_member("Sa", json_flag(days.saturday)));
    members.push(json_member("Su", json_flag(days.sunday)));
    proof {
        lemma_object_view(members);
    }
    let r = Json::Object(members);
    assert(r@->Object_0 =~= days_wire(*days)->Object_0);
    r
}

/// One zone's setting within a schedule.
pub fn zone_setting_json(setting: &ZoneSetting) -> (r: Json)
    ensures
        r@ == zone_setting_wire(*setting),
{
    let mut members: Vec<Member> = Vec::new();
    members.push(json_member("Index", Json::Int(setting.index as i64)));
    members.push(json_member("Mode", Json::Int(setting.mode as i64)));
    members.push(json_member("Setpoint", Json::Int(setting.setpoint as i64)));
    proof {
        lemma_object_view(members);
    }
    let r = Json::Object(members);
    assert(r@->Object_0 =~= zone_setting_wire(*setting)->Object_0);
    r
}

/// The zone settings of a schedule, as a JSON array.
pub fn zone_settings_json(zones: &Vec<ZoneSetting>) -> (r: Json)
    ensures
        r@ == JsonView::Array(zones@.map_values(|z: ZoneSetting| zone_setting_wire(z))),
{
    let mut items: Vec<Json> = Vec::new();
    let mut i: usize = 0;
    while i < zones.len()
        invariant
            i <= zones.len(),
            items.len() == i,
            forall|k: int| 0 <= k < i ==> (#[trigger] items[k])@ == zone_setting_wire(zones[k]),
        decreases zones.len() - i,
    {
        items.push(zone_setting_json(&zones[i]));
        i += 1;
    }
    proof {
        lemma_array_view(items);
    }
    let r = Json::Array(items);
    assert(r@->Array_0 =~= zones@.map_values(|z: ZoneSetting| zone_setting_wire(z)));
    r
}

/// Which part of the controller's state a query asks for.
#[derive(Clone, Copy, Debug, PartialEq, Eq, Structural)]
pub struct QueryRequest {
    /// The kind of record: the system, a zone or a schedule, by its code.
    pub kind: u8,
    /// The index of the zone or of the schedule.
    pub index: u8,
    /// A second index, which the records read here do not use.
    pub secondary: u8,
}

/// The codes by which a query names the kind of record it asks for. The
/// codes for zones and schedules differ between versions of the
/// controller's firmware, so they are given, not fixed.
#[derive(Clone, Copy, Debug, PartialEq, Eq, Structural)]
pub struct Dialect {
    pub system_kind: u8,
    pub zone_kind: u8,
    pub schedule_kind: u8,
}

impl Dialect {
    /// The codes of current firmware: 1 for the system, 2 for a zone and 3
    /// for a schedule.
    pub fn current() -> (r: Dialect)
        ensures
            r == (Dialect { system_kind: 1, zone_kind: 2, schedule_kind: 3 }),
    {
        Dialect { system_kind: 1, zone_kind: 2, schedule_kind: 3 }
    }
}

impl QueryRequest {
    /// The JSON that is sent for this query.
    pub open spec fn wire(self) -> JsonView {
        single(
            "iZoneV2Request"@,
            JsonView::Object(
                seq![
                    ("Type"@, number(self.kind as int)),
                    ("No"@, number(self.index as int)),
                    ("No1"@, number(self.secondary as int)),
                ],
            ),
        )
    }

    /// Encodes this query as the JSON that is sent for it.
    pub fn to_json(&self) -> (r: Json)
        ensures
            r@ == self.wire(),
    {
        let mut members: Vec<Member> = Vec::new();
        members.push(json_member("Type", Json::Int(self.kind as i64)));
        members.push(json_member("No", Json::Int(self.index as i64)));
        members.push(json_member("No1", Json::Int(self.secondary as i64)));
        proof {
            lemma_object_view(members);
        }
        let triple = Json::Object(members);
        assert(triple@->Object_0 =~= seq![
            ("Type"@, number(self.kind as int)),
            ("No"@, number(self.index as int)),
            ("No1"@, number(self.secondary as int)),
        ]);
        json_single("iZoneV2Request", triple)
    }
}

} // verus!
