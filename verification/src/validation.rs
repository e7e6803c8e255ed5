//! The ranges that the controller documents for what can be set, and the
//! errors for values outside of them. Every value is checked before a
//! command is built, so nothing invalid is ever sent.

use crate::constants::{
    lemma_occurs_in_itself, lemma_occurs_within, lemma_zone_listed, occurs_in, zone_list,
    zone_name, zone_names_text, MAX_SCHEDULES, ZONE_COUNT,
};
use crate::text::char_count;
use vstd::prelude::*;
use vstd::string::StringExecFns;

verus! {

/// Why an input was refused.
#[derive(Clone, Copy, Debug, PartialEq, Eq, Structural)]
pub enum InputError {
    /// The zone name is not in the table of zones.
    UnknownZone,
    /// The action is none of those that a zone takes.
    UnknownZoneAction,
    /// The action needs a value and none was given.
    MissingValue,
    /// The value is no number of the kind that the action takes.
    InvalidNumber,
    /// A setpoint outside 15.0 to 30.0 degrees.
    SetpointOutOfRange,
    /// A maximum airflow above 100 percent.
    MaxAirOutOfRange,
    /// A minimum airflow above 100 percent.
    MinAirOutOfRange,
    /// A zone name of more than 15 characters.
    ZoneNameTooLong,
    /// A schedule name of more than 15 characters.
    ScheduleNameTooLong,
    /// A schedule index above 7.
    ScheduleIndexOutOfRange,
    /// An hour above 23 or a minute above 59.
    InvalidTime,
    /// A time that is not written as hours, a colon and minutes.
    TimeFormat,
    /// The hours of a time are no number of 8 bits.
    InvalidHour,
    /// The minutes of a time are no number of 8 bits.
    InvalidMinute,
    /// A time with hours above 23 or minutes above 59.
    TimeOutOfRange,
    /// A zone setting that is not written as a name, a mode and a setpoint with colons between them.
    ZoneSettingFormat,
    /// The mode of a zone setting is no number of 8 bits.
    InvalidModeValue,
    /// The setpoint of a zone setting is no number of 32 bits.
    InvalidSetpointValue,
    /// The name is no system mode.
    UnknownMode,
    /// The name is no fan speed that the system can be set to.
    UnknownFanSpeed,
    /// The name is no fan speed that a schedule can hold.
    UnknownScheduleFan,
    /// Neither a mode nor a fan speed was given for a schedule.
    NothingToSet,
    /// No valid zone setting was given for a schedule.
    NoZoneSettings,
    /// A cooler fan speed outside 1 to 100 percent.
    CoolbreezeFanSpeed,
    /// A cooler humidity setpoint outside 10 to 90 percent.
    CoolbreezeRh,
    /// A prewash time outside 1 to 60 minutes.
    PrewashTime,
    /// A drain cycle period outside 1 to 50 hours.
    DrainCyclePeriod,
    /// A postwash time outside 5 to 30 minutes.
    PostwashTime,
    /// A maximum automatic fan speed outside 1 to 100 percent.
    FanMaxAuto,
    /// A maximum fan speed outside 1 to 100 percent.
    FanMax,
    /// A maximum exhaust speed outside 1 to 100 percent.
    ExhaustMax,
    /// The name is neither `screen` nor `remote`.
    ControlSensor,
    /// A calibration outside -50 to 50 tenths of a degree.
    TempCalibration,
    /// A cooler deadband outside 100 to 500 hundredths of a degree.
    TempDeadband,
    /// An automatic fan time above 60 minutes.
    AutoFanMaxTime,
    /// A ventilation humidity setpoint outside 5 to 95 percent.
    VentilationRh,
    /// A VOCs setpoint outside 50 to 2500 ppb.
    VentilationVocs,
    /// An eCO2 setpoint outside 500 to 1500 ppm.
    VentilationEco2,
    /// A fan stage delay outside 3 to 240 minutes.
    FanStageDelay,
    /// A lower economy bound outside 15.0 to 30.0 degrees.
    EconomyMin,
    /// An upper economy bound outside 15.0 to 30.0 degrees.
    EconomyMax,
    /// A filter warning interval other than 0, 3, 6 or 12 months.
    FilterWarning,
    /// An automatic-mode deadband outside 0.75 to 5.0 degrees.
    AutoModeDeadband,
    /// A static pressure level above 4.
    StaticPressure,
}

/// What is said to the user who gave a name that is no zone, where the name
/// is not at hand: the names of all zones.
pub open spec fn no_such_zone_text() -> Seq<char> {
    "Unknown zone.\nAvailable zones: "@ + zone_list(ZONE_COUNT as int)
}

/// What is said to the user who asked for a zone that there is not: the
/// name that was asked for, and the names of all zones.
pub open spec fn unknown_zone_text(asked: Seq<char>) -> Seq<char> {
    "Unknown zone '"@ + asked + "'.\nAvailable zones: "@ + zone_list(ZONE_COUNT as int)
}

/// What is said to the user who asked for an action that a zone does not
/// take: the action that was asked for, and the actions that there are.
pub open spec fn unknown_action_text(asked: Seq<char>) -> Seq<char> {
    "Unknown zone action '"@ + asked
        + "'.\nAvailable actions for zones: status, temp, on, off, open, auto, override, constant, set-setpoint, set-max-air, set-min-air, set-name, summary."@
}

impl InputError {
    /// What is said to the user: what was wrong, and what is accepted.
    pub open spec fn message_text(self) -> Seq<char> {
        match self {
            InputError::UnknownZone => no_such_zone_text(),
            InputError::UnknownZoneAction => "Unknown zone action.\nAvailable actions for zones: status, temp, on, off, open, auto, override, constant, set-setpoint, set-max-air, set-min-air, set-name, summary."@,
            InputError::MissingValue => "A value is required for this action."@,
            InputError::InvalidNumber => "Invalid value. Must be a number."@,
            InputError::SetpointOutOfRange => "Setpoint must be 15.0-30.0°C"@,
            InputError::MaxAirOutOfRange => "Max air percentage cannot exceed 100."@,
            InputError::MinAirOutOfRange => "Min air percentage cannot exceed 100."@,
            InputError::ZoneNameTooLong => "Zone name cannot exceed 15 characters."@,
            InputError::ScheduleNameTooLong => "Schedule name cannot exceed 15 characters."@,
            InputError::ScheduleIndexOutOfRange => "Schedule index is out of valid range (0-7)."@,
            InputError::InvalidTime => "Invalid time format. Hours must be 0-23, minutes 0-59."@,
            InputError::TimeFormat => "Time format must be HH:MM"@,
            InputError::InvalidHour => "Invalid hour format"@,
            InputError::InvalidMinute => "Invalid minute format"@,
            InputError::TimeOutOfRange => "Time values out of range (HH:0-23, MM:0-59)"@,
            InputError::ZoneSettingFormat => "Invalid zone setting format. Expected format: <zone_name>:<mode_val>:<setpoint> (e.g., kitchen:3:2250)"@,
            InputError::InvalidModeValue => "Invalid mode value. Must be an integer."@,
            InputError::InvalidSetpointValue => "Invalid setpoint value. Must be an integer (e.g., 2250 for 22.5)."@,
            InputError::UnknownMode => "Unknown system mode.\nAvailable modes: auto, cool, heat, vent, dry."@,
            InputError::UnknownFanSpeed => "Unknown fan speed.\nAvailable fan speeds: auto, low, medium, high."@,
            InputError::UnknownScheduleFan => "Invalid fan speed. Available: low, medium, high, auto, top, nongasheat."@,
            InputError::NothingToSet => "No mode or fan speed provided to set for schedule."@,
            InputError::NoZoneSettings => "No valid zone settings provided for schedule."@,
            InputError::CoolbreezeFanSpeed => "Fan speed must be 1-100%"@,
            InputError::CoolbreezeRh => "RH setpoint must be 10-90%"@,
            InputError::PrewashTime => "Prewash time must be 1-60 minutes"@,
            InputError::DrainCyclePeriod => "Drain cycle period must be 1-50 hours"@,
            InputError::PostwashTime => "Postwash time must be 5-30 minutes"@,
            InputError::FanMaxAuto => "Fan max auto speed must be 1-100%"@,
            InputError::FanMax => "Fan max speed must be 1-100%"@,
            InputError::ExhaustMax => "Exhaust max speed must be 1-100%"@,
            InputError::ControlSensor => "Sensor type must be 'screen' or 'remote'"@,
            InputError::TempCalibration => "Calibration must be -50 to 50 (-5.0°C to +5.0°C)"@,
            InputError::TempDeadband => "Deadband must be 100-500 (1.0-5.0°C)"@,
            InputError::AutoFanMaxTime => "Auto fan max time must be 0-60 minutes"@,
            InputError::VentilationRh => "RH setpoint must be 5-95%"@,
            InputError::VentilationVocs => "VOCs setpoint must be 50-2500 ppb"@,
            InputError::VentilationEco2 => "eCO2 setpoint must be 500-1500 ppm"@,
            InputError::FanStageDelay => "Fan stage delay must be 3-240 minutes"@,
            InputError::EconomyMin => "Min temperature must be 15.0-30.0°C"@,
            InputError::EconomyMax => "Max temperature must be 15.0-30.0°C"@,
            InputError::FilterWarning => "Filter warning must be 0 (disabled), 3, 6, or 12 months"@,
            InputError::AutoModeDeadband => "Auto mode deadband must be 0.75-5.0°C"@,
            InputError::StaticPressure => "Static pressure level must be 0-4"@,
        }
    }

    /// The message for this error: what was wrong, and what is accepted.
    pub fn message(&self) -> (r: String)
        ensures
            r@ == self.message_text(),
    {
        match self {
            InputError::UnknownZone => {
                let mut out = String::from_str("Unknown zone.\nAvailable zones: ");
                let names = zone_names_text();
                out.append(names.as_str());
                out
            },
            InputError::UnknownZoneAction => String::from_str("Unknown zone action.\nAvailable actions for zones: status, temp, on, off, open, auto, override, constant, set-setpoint, set-max-air, set-min-air, set-name, summary."),
            InputError::MissingValue => String::from_str("A value is required for this action."),
            InputError::InvalidNumber => String::from_str("Invalid value. Must be a number."),
            InputError::SetpointOutOfRange => String::from_str("Setpoint must be 15.0-30.0°C"),
            InputError::MaxAirOutOfRange => String::from_str("Max air percentage cannot exceed 100."),
            InputError::MinAirOutOfRange => String::from_str("Min air percentage cannot exceed 100."),
            InputError::ZoneNameTooLong => String::from_str("Zone name cannot exceed 15 characters."),
            InputError::ScheduleNameTooLong => String::from_str("Schedule name cannot exceed 15 characters."),
            InputError::ScheduleIndexOutOfRange => String::from_str("Schedule index is out of valid range (0-7)."),
            InputError::InvalidTime => String::from_str("Invalid time format. Hours must be 0-23, minutes 0-59."),
            InputError::TimeFormat => String::from_str("Time format must be HH:MM"),
            InputError::InvalidHour => String::from_str("Invalid hour format"),
            InputError::InvalidMinute => String::from_str("Invalid minute format"),
            InputError::TimeOutOfRange => String::from_str("Time values out of range (HH:0-23, MM:0-59)"),
            InputError::ZoneSettingFormat => String::from_str("Invalid zone setting format. Expected format: <zone_name>:<mode_val>:<setpoint> (e.g., kitchen:3:2250)"),
            InputError::InvalidModeValue => String::from_str("Invalid mode value. Must be an integer."),
            InputError::InvalidSetpointValue => String::from_str("Invalid setpoint value. Must be an integer (e.g., 2250 for 22.5)."),
            InputError::UnknownMode => String::from_str("Unknown system mode.\nAvailable modes: auto, cool, heat, vent, dry."),
            InputError::UnknownFanSpeed => String::from_str("Unknown fan speed.\nAvailable fan speeds: auto, low, medium, high."),
            InputError::UnknownScheduleFan => String::from_str("Invalid fan speed. Available: low, medium, high, auto, top, nongasheat."),
            InputError::NothingToSet => String::from_str("No mode or fan speed provided to set for schedule."),
            InputError::NoZoneSettings => String::from_str("No valid zone settings provided for schedule."),
            InputError::CoolbreezeFanSpeed => String::from_str("Fan speed must be 1-100%"),
            InputError::CoolbreezeRh => String::from_str("RH setpoint must be 10-90%"),
            InputError::PrewashTime => String::from_str("Prewash time must be 1-60 minutes"),
            InputError::DrainCyclePeriod => String::from_str("Drain cycle period must be 1-50 hours"),
            InputError::PostwashTime => String::from_str("Postwash time must be 5-30 minutes"),
            InputError::FanMaxAuto => String::from_str("Fan max auto speed must be 1-100%"),
            InputError::FanMax => String::from_str("Fan max speed must be 1-100%"),
            InputError::ExhaustMax => String::from_str("Exhaust max speed must be 1-100%"),
            InputError::ControlSensor => String::from_str("Sensor type must be 'screen' or 'remote'"),
            InputError::TempCalibration => String::from_str("Calibration must be -50 to 50 (-5.0°C to +5.0°C)"),
            InputError::TempDeadband => String::from_str("Deadband must be 100-500 (1.0-5.0°C)"),
            InputError::AutoFanMaxTime => String::from_str("Auto fan max time must be 0-60 minutes"),
            InputError::VentilationRh => String::from_str("RH setpoint must be 5-95%"),
            InputError::VentilationVocs => String::from_str("VOCs setpoint must be 50-2500 ppb"),
            InputError::VentilationEco2 => String::from_str("eCO2 setpoint must be 500-1500 ppm"),
            InputError::FanStageDelay => String::from_str("Fan stage delay must be 3-240 minutes"),
            InputError::EconomyMin => String::from_str("Min temperature must be 15.0-30.0°C"),
            InputError::EconomyMax => String::from_str("Max temperature must be 15.0-30.0°C"),
            InputError::FilterWarning => String::from_str("Filter warning must be 0 (disabled), 3, 6, or 12 months"),
            InputError::AutoModeDeadband => String::from_str("Auto mode deadband must be 0.75-5.0°C"),
            InputError::StaticPressure => String::from_str("Static pressure level must be 0-4"),
        }
    }
}

/// A setpoint, in hundredths of a degree, that a system or a zone takes: 15.0 to 30.0 degrees.
pub open spec fn valid_setpoint(raw: u32) -> bool {
    1500 <= raw <= 3000
}

/// An airflow limit of a zone, in percent.
pub open spec fn valid_airflow(percent: u8) -> bool {
    percent <= 100
}

/// A name that a zone or a schedule takes: at most 15 characters.
pub open spec fn valid_name(name: Seq<char>) -> bool {
    name.len() <= 15
}

/// The index of one of the stored schedules.
pub open spec fn valid_schedule_index(index: u8) -> bool {
    index < MAX_SCHEDULES
}

/// A time of day.
pub open spec fn valid_time(hour: u8, minute: u8) -> bool {
    hour <= 23 && minute <= 59
}

/// A fan speed of the evaporative cooler, in percent.
pub open spec fn valid_percent(percent: u8) -> bool {
    1 <= percent <= 100
}

/// A humidity setpoint of the evaporative cooler, in percent.
pub open spec fn valid_coolbreeze_rh(rh: u8) -> bool {
    10 <= rh <= 90
}

/// A prewash time, in minutes.
pub open spec fn valid_prewash_time(minutes: u8) -> bool {
    1 <= minutes <= 60
}

/// A postwash time, in minutes.
pub open spec fn valid_postwash_time(minutes: u8) -> bool {
    5 <= minutes <= 30
}

/// A drain cycle period, in hours.
pub open spec fn valid_drain_period(hours: u16) -> bool {
    1 <= hours <= 50
}

/// A temperature calibration of the evaporative cooler, in tenths of a degree.
pub open spec fn valid_calibration(tenths: i16) -> bool {
    -50 <= tenths <= 50
}

/// A deadband of the evaporative cooler, in hundredths of a degree.
pub open spec fn valid_coolbreeze_deadband(raw: u16) -> bool {
    100 <= raw <= 500
}

/// The time that the fan may run at its maximum in automatic mode, in minutes.
pub open spec fn valid_auto_fan_time(minutes: u8) -> bool {
    minutes <= 60
}

/// A humidity setpoint of the ventilation, in percent.
pub open spec fn valid_ventilation_rh(rh: u8) -> bool {
    5 <= rh <= 95
}

/// A VOCs setpoint, in parts per billion.
pub open spec fn valid_vocs(ppb: u16) -> bool {
    50 <= ppb <= 2500
}

/// An eCO2 setpoint, in parts per million.
pub open spec fn valid_eco2(ppm: u16) -> bool {
    500 <= ppm <= 1500
}

/// A fan stage delay, in minutes.
pub open spec fn valid_fan_stage_delay(minutes: u8) -> bool {
    3 <= minutes <= 240
}

/// A deadband of the automatic mode, in hundredths of a degree: 0.75 to 5.0 degrees.
pub open spec fn valid_auto_deadband(raw: u16) -> bool {
    75 <= raw <= 500
}

/// A static pressure level.
pub open spec fn valid_static_pressure(level: u8) -> bool {
    level <= 4
}

/// A filter warning interval, in months; 0 switches the warning off.
pub open spec fn valid_filter_months(months: u8) -> bool {
    months == 0 || months == 3 || months == 6 || months == 12
}

/// What is said of an unknown zone names the zone that was asked for and
/// every zone that there is.
pub proof fn lemma_unknown_zone_text(asked: Seq<char>, index: int)
    requires
        0 <= index < ZONE_COUNT,
    ensures
        occurs_in(asked, unknown_zone_text(asked)),
        occurs_in(zone_name(index), unknown_zone_text(asked)),
{
    let none = Seq::<char>::empty();
    let list = zone_list(ZONE_COUNT as int);
    lemma_occurs_in_itself(asked);
    lemma_occurs_within(asked, "Unknown zone '"@, asked, "'.\nAvailable zones: "@ + list);
    assert("Unknown zone '"@ + asked + ("'.\nAvailable zones: "@ + list) =~= unknown_zone_text(
        asked,
    ));
    lemma_zone_listed(index, ZONE_COUNT as int);
    lemma_occurs_within(
        zone_name(index),
        "Unknown zone '"@ + asked + "'.\nAvailable zones: "@,
        list,
        none,
    );
    assert("Unknown zone '"@ + asked + "'.\nAvailable zones: "@ + list + none
        =~= unknown_zone_text(asked));
}

/// An input that was refused: why, and what is said to the user about it.
#[derive(Debug, PartialEq, Eq)]
pub struct Refusal {
    pub error: InputError,
    pub message: String,
}

/// What is said about an error that was met with what `asked` names: an
/// unknown zone and an unknown action are named, and every other error has
/// its own message.
pub open spec fn refusal_text(error: InputError, asked: Seq<char>) -> Seq<char> {
    match error {
        InputError::UnknownZone => unknown_zone_text(asked),
        InputError::UnknownZoneAction => unknown_action_text(asked),
        _ => error.message_text(),
    }
}

impl Refusal {
    /// The refusal is for the given error, and says what is said about it.
    pub open spec fn tells(self, error: InputError, asked: Seq<char>) -> bool {
        self.error == error && self.message@ == refusal_text(error, asked)
    }
}

/// `r` is a refusal for the given error, which says what is said about it.
pub open spec fn refused<T>(r: Result<T, Refusal>, error: InputError, asked: Seq<char>) -> bool {
    r matches Err(refusal) && refusal.tells(error, asked)
}

/// Refuses an input; `asked` is the name that was asked for, where the
/// error is about a name.
pub fn refuse(error: InputError, asked: &str) -> (r: Refusal)
    ensures
        r.tells(error, asked@),
{
    let message = match error {
        InputError::UnknownZone => {
            let mut out = String::from_str("Unknown zone '");
            out.append(asked);
            out.append("'.\nAvailable zones: ");
            let names = zone_names_text();
            out.append(names.as_str());
            out
        },
        InputError::UnknownZoneAction => {
            let mut out = String::from_str("Unknown zone action '");
            out.append(asked);
            out.append(
                "'.\nAvailable actions for zones: status, temp, on, off, open, auto, override, constant, set-setpoint, set-max-air, set-min-air, set-name, summary.",
            );
            out
        },
        _ => error.message(),
    };
    Refusal { error, message }
}

/// `Ok` where `holds`, else the given error.
pub fn ensure(holds: bool, error: InputError) -> (r: Result<(), InputError>)
    ensures
        r == if holds {
            Ok::<(), InputError>(())
        } else {
            Err(error)
        },
{
    if holds {
        Ok(())
    } else {
        Err(error)
    }
}

/// Checks a setpoint, in hundredths of a degree, against the range that the
/// controller takes.
pub fn check_setpoint(raw: u32) -> (r: Result<(), InputError>)
    ensures
        r == if valid_setpoint(raw) {
            Ok::<(), InputError>(())
        } else {
            Err(InputError::SetpointOutOfRange)
        },
{
    ensure(1500 <= raw && raw <= 3000, InputError::SetpointOutOfRange)
}

/// Checks the index of a schedule.
pub fn check_schedule_index(index: u8) -> (r: Result<(), InputError>)
    ensures
        r == if valid_schedule_index(index) {
            Ok::<(), InputError>(())
        } else {
            Err(InputError::ScheduleIndexOutOfRange)
        },
{
    ensure(index < MAX_SCHEDULES, InputError::ScheduleIndexOutOfRange)
}

/// Checks the length of a name; `error` says whose name it is.
pub fn check_name(name: &str, error: InputError) -> (r: Result<(), InputError>)
    ensures
        r == if valid_name(name@) {
            Ok::<(), InputError>(())
        } else {
            Err(error)
        },
{
    ensure(char_count(name) <= 15, error)
}

} // verus!
