//! What the system as a whole can be asked and told: its status, its mode
//! and fan, and the settings of the evaporative cooler and the ventilation.
//!
//! A function that sets something checks its arguments and returns the
//! commands to send, in order; nothing is returned for sending when an
//! argument is refused.

use crate::helpers::{
    fan_speed_code, get_fan_speed_value, get_system_mode_value, system_mode_code,
};
use crate::payload::{Command, Dialect, QueryRequest};
use crate::text::{eq_ignore_case, same_ignoring_case};
use crate::validation::{
    valid_auto_deadband, valid_auto_fan_time, valid_calibration, valid_coolbreeze_deadband,
    valid_coolbreeze_rh, valid_drain_period, valid_eco2, valid_fan_stage_delay,
    valid_filter_months, valid_percent, valid_postwash_time, valid_prewash_time, valid_setpoint,
    valid_static_pressure, valid_ventilation_rh, valid_vocs, InputError,
};
use vstd::prelude::*;
use vstd::string::StringExecFns;

verus! {

/// The query for the state of the system.
pub open spec fn system_query(dialect: Dialect) -> QueryRequest {
    QueryRequest { kind: dialect.system_kind, index: 0, secondary: 0 }
}

/// The query that is sent to show the system's status.
pub fn get_system_status(dialect: &Dialect) -> (r: QueryRequest)
    ensures
        r == system_query(*dialect),
{
    QueryRequest { kind: dialect.system_kind, index: 0, secondary: 0 }
}

/// The query that is sent to show the temperature at the controller.
pub fn get_system_temperature(dialect: &Dialect) -> (r: QueryRequest)
    ensures
        r == system_query(*dialect),
{
    get_system_status(dialect)
}

/// Switches the system on.
pub fn turn_on_ac() -> (r: Command)
    ensures
        r == Command::SysOn(true),
{
    Command::SysOn(true)
}

/// Switches the system off.
pub fn turn_off_ac() -> (r: Command)
    ensures
        r == Command::SysOn(false),
{
    Command::SysOn(false)
}

/// Sets the system mode, given by its name: auto, cool, heat, vent or dry.
pub fn set_system_mode(mode_name: &str) -> (r: Result<Command, InputError>)
    ensures
        r == match system_mode_code(mode_name@) {
            Some(code) => Ok::<Command, InputError>(Command::SysMode(code)),
            None => Err(InputError::UnknownMode),
        },
{
    match get_system_mode_value(mode_name) {
        Some(code) => Ok(Command::SysMode(code)),
        None => Err(InputError::UnknownMode),
    }
}

/// Sets the fan speed, given by its name: auto, low, medium or high.
pub fn set_system_fan(fan_speed_name: &str) -> (r: Result<Command, InputError>)
    ensures
        r == match fan_speed_code(fan_speed_name@) {
            Some(code) => Ok::<Command, InputError>(Command::SysFan(code)),
            None => Err(InputError::UnknownFanSpeed),
        },
{
    match get_fan_speed_value(fan_speed_name) {
        Some(code) => Ok(Command::SysFan(code)),
        None => Err(InputError::UnknownFanSpeed),
    }
}

/// The code of the sensor that controls the cooler, given by its name.
pub open spec fn control_sensor_code(name: Seq<char>) -> Option<u8> {
    if same_ignoring_case(name, "screen"@) {
        Some(0u8)
    } else if same_ignoring_case(name, "remote"@) {
        Some(1u8)
    } else {
        None
    }
}

/// Chooses the sensor that controls the cooler: `screen` or `remote`.
pub fn set_coolbreeze_control_sensor(sensor_type: &str) -> (r: Result<Command, InputError>)
    ensures
        r == match control_sensor_code(sensor_type@) {
            Some(code) => Ok::<Command, InputError>(Command::CoolbreezeCtrlSens(code)),
            None => Err(InputError::ControlSensor),
        },
{
    if eq_ignore_case(sensor_type, "screen") {
        Ok(Command::CoolbreezeCtrlSens(0))
    } else if eq_ignore_case(sensor_type, "remote") {
        Ok(Command::CoolbreezeCtrlSens(1))
    } else {
        Err(InputError::ControlSensor)
    }
}

/// Resets a warning, given by its name.
pub fn reset_warning(warning_type: &str) -> (r: Command)
    ensures
        r matches Command::ResetWarning(name) && name@ == warning_type@,
{
    Command::ResetWarning(String::from_str(warning_type))
}

/// Sets the fan speed of the evaporative cooler, in percent.
pub fn set_coolbreeze_fan_speed(speed: u8) -> (r: Result<Command, InputError>)
    ensures
        r == if valid_percent(speed) {
            Ok::<Command, InputError>(Command::CoolbreezeFanSpeed(speed))
        } else {
            Err(InputError::CoolbreezeFanSpeed)
        },
{
    if 1 <= speed && speed <= 100 {
        Ok(Command::CoolbreezeFanSpeed(speed))
    } else {
        Err(InputError::CoolbreezeFanSpeed)
    }
}

/// Sets the humidity setpoint of the evaporative cooler, in percent.
pub fn set_coolbreeze_rh_setpoint(rh: u8) -> (r: Result<Command, InputError>)
    ensures
        r == if valid_coolbreeze_rh(rh) {
            Ok::<Command, InputError>(Command::CoolbreezeRhSetpoint(rh))
        } else {
            Err(InputError::CoolbreezeRh)
        },
{
    if 10 <= rh && rh <= 90 {
        Ok(Command::CoolbreezeRhSetpoint(rh))
    } else {
        Err(InputError::CoolbreezeRh)
    }
}

/// Sets the cooler's maximum fan speed in automatic mode, in percent.
pub fn set_coolbreeze_fan_max_auto(speed: u8) -> (r: Result<Command, InputError>)
    ensures
        r == if valid_percent(speed) {
            Ok::<Command, InputError>(Command::CoolbreezeFanMaxAuto(speed))
        } else {
            Err(InputError::FanMaxAuto)
        },
{
    if 1 <= speed && speed <= 100 {
        Ok(Command::CoolbreezeFanMaxAuto(speed))
    } else {
        Err(InputError::FanMaxAuto)
    }
}

/// Sets the cooler's maximum fan speed, in percent.
pub fn set_coolbreeze_fan_max(speed: u8) -> (r: Result<Command, InputError>)
    ensures
        r == if valid_percent(speed) {
            Ok::<Command, InputError>(Command::CoolbreezeFanMax(speed))
        } else {
            Err(InputError::FanMax)
        },
{
    if 1 <= speed && speed <= 100 {
        Ok(Command::CoolbreezeFanMax(speed))
    } else {
        Err(InputError::FanMax)
    }
}

/// Sets the cooler's maximum exhaust speed, in percent.
pub fn set_coolbreeze_exhaust_max(speed: u8) -> (r: Result<Command, InputError>)
    ensures
        r == if valid_percent(speed) {
            Ok::<Command, InputError>(Command::CoolbreezeExhMax(speed))
        } else {
            Err(InputError::ExhaustMax)
        },
{
    if 1 <= speed && speed <= 100 {
        Ok(Command::CoolbreezeExhMax(speed))
    } else {
        Err(InputError::ExhaustMax)
    }
}

/// Sets the cooler's temperature calibration, in tenths of a degree.
pub fn set_coolbreeze_temp_calibration(calibration: i16) -> (r: Result<Command, InputError>)
    ensures
        r == if valid_calibration(calibration) {
            Ok::<Command, InputError>(Command::CoolbreezeCalibTemp(calibration))
        } else {
            Err(InputError::TempCalibration)
        },
{
    if -50 <= calibration && calibration <= 50 {
        Ok(Command::CoolbreezeCalibTemp(calibration))
    } else {
        Err(InputError::TempCalibration)
    }
}

/// Sets the cooler's deadband, in hundredths of a degree.
pub fn set_coolbreeze_temp_deadband(deadband: u16) -> (r: Result<Command, InputError>)
    ensures
        r == if valid_coolbreeze_deadband(deadband) {
            Ok::<Command, InputError>(Command::CoolbreezeDeadTemp(deadband))
        } else {
            Err(InputError::TempDeadband)
        },
{
    if 100 <= deadband && deadband <= 500 {
        Ok(Command::CoolbreezeDeadTemp(deadband))
    } else {
        Err(InputError::TempDeadband)
    }
}

/// Sets how long the cooler's fan may run at its maximum in automatic mode, in minutes.
pub fn set_coolbreeze_auto_fan_max_time(time_minutes: u8) -> (r: Result<Command, InputError>)
    ensures
        r == if valid_auto_fan_time(time_minutes) {
            Ok::<Command, InputError>(Command::CoolbreezeAutoFanMaxTime(time_minutes))
        } else {
            Err(InputError::AutoFanMaxTime)
        },
{
    if time_minutes <= 60 {
        Ok(Command::CoolbreezeAutoFanMaxTime(time_minutes))
    } else {
        Err(InputError::AutoFanMaxTime)
    }
}

/// Sets the humidity setpoint of the ventilation, in percent.
pub fn set_ventilation_rh_setpoint(rh: u8) -> (r: Result<Command, InputError>)
    ensures
        r == if valid_ventilation_rh(rh) {
            Ok::<Command, InputError>(Command::VentilationRhSetpoint(rh))
        } else {
            Err(InputError::VentilationRh)
        },
{
    if 5 <= rh && rh <= 95 {
        Ok(Command::VentilationRhSetpoint(rh))
    } else {
        Err(InputError::VentilationRh)
    }
}

/// Sets the VOCs setpoint of the ventilation, in parts per billion.
pub fn set_ventilation_vocs_setpoint(vocs: u16) -> (r: Result<Command, InputError>)
    ensures
        r == if valid_vocs(vocs) {
            Ok::<Command, InputError>(Command::VentilationVocsSetpoint(vocs))
        } else {
            Err(InputError::VentilationVocs)
        },
{
    if 50 <= vocs && vocs <= 2500 {
        Ok(Command::VentilationVocsSetpoint(vocs))
    } else {
        Err(InputError::VentilationVocs)
    }
}

/// Sets the eCO2 setpoint of the ventilation, in parts per million.
pub fn set_ventilation_eco2_setpoint(eco2: u16) -> (r: Result<Command, InputError>)
    ensures
        r == if valid_eco2(eco2) {
            Ok::<Command, InputError>(Command::VentilationEco2Setpoint(eco2))
        } else {
            Err(InputError::VentilationEco2)
        },
{
    if 500 <= eco2 && eco2 <= 1500 {
        Ok(Command::VentilationEco2Setpoint(eco2))
    } else {
        Err(InputError::VentilationEco2)
    }
}

/// Sets the fan stage delay of the ventilation, in minutes.
pub fn set_ventilation_fan_stage_delay(delay_minutes: u8) -> (r: Result<Command, InputError>)
    ensures
        r == if valid_fan_stage_delay(delay_minutes) {
            Ok::<Command, InputError>(Command::VentilationFanStageDelay(delay_minutes))
        } else {
            Err(InputError::FanStageDelay)
        },
{
    if 3 <= delay_minutes && delay_minutes <= 240 {
        Ok(Command::VentilationFanStageDelay(delay_minutes))
    } else {
        Err(InputError::FanStageDelay)
    }
}

/// Sets the system's setpoint, given in hundredths of a degree.
pub fn set_system_setpoint(setpoint: u32) -> (r: Result<Command, InputError>)
    ensures
        r == if valid_setpoint(setpoint) {
            Ok::<Command, InputError>(Command::SysSetpoint(setpoint))
        } else {
            Err(InputError::SetpointOutOfRange)
        },
{
    if 1500 <= setpoint && setpoint <= 3000 {
        Ok(Command::SysSetpoint(setpoint))
    } else {
        Err(InputError::SetpointOutOfRange)
    }
}

/// Sets the filter warning interval, in months; 0 switches the warning off.
pub fn set_filter_warning(months: u8) -> (r: Result<Command, InputError>)
    ensures
        r == if valid_filter_months(months) {
            Ok::<Command, InputError>(Command::FilterWarn(months))
        } else {
            Err(InputError::FilterWarning)
        },
{
    if months == 0 || months == 3 || months == 6 || months == 12 {
        Ok(Command::FilterWarn(months))
    } else {
        Err(InputError::FilterWarning)
    }
}

/// Sets the deadband of the automatic mode, given in hundredths of a degree.
pub fn set_auto_mode_deadband(deadband: u16) -> (r: Result<Command, InputError>)
    ensures
        r == if valid_auto_deadband(deadband) {
            Ok::<Command, InputError>(Command::AutoModeDeadB(deadband))
        } else {
            Err(InputError::AutoModeDeadband)
        },
{
    if 75 <= deadband && deadband <= 500 {
        Ok(Command::AutoModeDeadB(deadband))
    } else {
        Err(InputError::AutoModeDeadband)
    }
}

/// Sets the static pressure level.
pub fn set_static_pressure(level: u8) -> (r: Result<Command, InputError>)
    ensures
        r == if valid_static_pressure(level) {
            Ok::<Command, InputError>(Command::StaticP(level))
        } else {
            Err(InputError::StaticPressure)
        },
{
    if level <= 4 {
        Ok(Command::StaticP(level))
    } else {
        Err(InputError::StaticPressure)
    }
}

/// Sets the sleep timer, in minutes; 0 switches it off.
pub fn set_sleep_timer(minutes: u32) -> (r: Command)
    ensures
        r == Command::SysSleepTimer(minutes),
{
    Command::SysSleepTimer(minutes)
}

/// Sets the damper time, in seconds; 0 means automatic.
pub fn set_damper_time(seconds: u8) -> (r: Command)
    ensures
        r == Command::DamperTime(seconds),
{
    Command::DamperTime(seconds)
}

/// Whether the cooler drains after the prewash.
pub fn set_coolbreeze_drain_after_prewash(enable: bool) -> (r: Command)
    ensures
        r == Command::CoolbreezeDrAfPrewEn(enable),
{
    Command::CoolbreezeDrAfPrewEn(enable)
}

/// Whether the cooler drains before the postwash.
pub fn set_coolbreeze_drain_before_postwash(enable: bool) -> (r: Command)
    ensures
        r == Command::CoolbreezeDrBfPostwEn(enable),
{
    Command::CoolbreezeDrBfPostwEn(enable)
}

/// Whether the cooler runs an inverter.
pub fn set_coolbreeze_inverter(enable: bool) -> (r: Command)
    ensures
        r == Command::CoolbreezeInverter(enable),
{
    Command::CoolbreezeInverter(enable)
}

/// Whether the cooler resumes its last state.
pub fn set_coolbreeze_resume_last(enable: bool) -> (r: Command)
    ensures
        r == Command::CoolbreezeResumeLast(enable),
{
    Command::CoolbreezeResumeLast(enable)
}

/// Switches the cooler's exhaust mode on or off.
pub fn set_coolbreeze_exhaust_enable(enable: bool) -> (r: Command)
    ensures
        r == Command::CoolbreezeExhEn(enable),
{
    Command::CoolbreezeExhEn(enable)
}

/// Whether the ventilation cycles its fan off.
pub fn set_ventilation_cycle_fan_off(enable: bool) -> (r: Command)
    ensures
        r == Command::VentilationCycleFanOff(enable),
{
    Command::VentilationCycleFanOff(enable)
}

/// Whether the ventilation is controlled by humidity.
pub fn set_ventilation_use_rh_control(enable: bool) -> (r: Command)
    ensures
        r == Command::VentilationUseRhControl(enable),
{
    Command::VentilationUseRhControl(enable)
}

/// Whether the ventilation is controlled by VOCs.
pub fn set_ventilation_use_vocs_control(enable: bool) -> (r: Command)
    ensures
        r == Command::VentilationUseVocsControl(enable),
{
    Command::VentilationUseVocsControl(enable)
}

/// Whether the ventilation is controlled by eCO2.
pub fn set_ventilation_use_eco2_control(enable: bool) -> (r: Command)
    ensures
        r == Command::VentilationUseEco2Control(enable),
{
    Command::VentilationUseEco2Control(enable)
}

/// Locks or unlocks the airflow settings.
pub fn set_airflow_lock(enable: bool) -> (r: Command)
    ensures
        r == Command::AirflowLock(enable),
{
    Command::AirflowLock(enable)
}

/// Locks or unlocks the minimum airflow settings.
pub fn set_airflow_min_lock(enable: bool) -> (r: Command)
    ensures
        r == Command::AirflowMinLock(enable),
{
    Command::AirflowMinLock(enable)
}

/// Whether the dampers open while the system is off.
pub fn set_open_dampers_when_off(enable: bool) -> (r: Command)
    ensures
        r == Command::OpenDampersWhenOff(enable),
{
    Command::OpenDampersWhenOff(enable)
}

/// Switches the scrooge mode on or off.
pub fn set_scrooge_mode(enable: bool) -> (r: Command)
    ensures
        r == Command::ScroogeMode(enable),
{
    Command::ScroogeMode(enable)
}

/// Whether the dampers run reversed.
pub fn set_reverse_dampers(enable: bool) -> (r: Command)
    ensures
        r == Command::ReverseDampers(enable),
{
    Command::ReverseDampers(enable)
}

/// What is sent to switch a feature and, where one is given, to set the
/// value that goes with it: the switch first.
pub open spec fn switch_and_value(switch: Command, value: Option<Command>) -> Seq<Command> {
    match value {
        Some(command) => seq![switch, command],
        None => seq![switch],
    }
}

fn switch_with(switch: Command, value: Option<Command>) -> (r: Vec<Command>)
    ensures
        r@ == switch_and_value(switch, value),
{
    let mut commands: Vec<Command> = Vec::new();
    commands.push(switch);
    match value {
        Some(command) => {
            commands.push(command);
        },
        None => {},
    }
    assert(commands@ =~= switch_and_value(switch, value));
    commands
}

/// Switches the cooler's prewash and, where a time is given, sets the
/// prewash time, in minutes. A time out of range is refused before
/// anything is sent.
pub fn set_coolbreeze_prewash(enable: bool, time_minutes: Option<u8>) -> (r: Result<
    Vec<Command>,
    InputError,
>)
    ensures
        match time_minutes {
            Some(time) => if valid_prewash_time(time) {
                r is Ok && r->Ok_0@ == seq![
                    Command::CoolbreezePrewEn(enable),
                    Command::CoolbreezePrewTime(time),
                ]
            } else {
                r == Err::<Vec<Command>, InputError>(InputError::PrewashTime)
            },
            None => r is Ok && r->Ok_0@ == seq![Command::CoolbreezePrewEn(enable)],
        },
{
    let value = match time_minutes {
        Some(time) => {
            if !(1 <= time && time <= 60) {
                return Err(InputError::PrewashTime);
            }
            Some(Command::CoolbreezePrewTime(time))
        },
        None => None,
    };
    Ok(switch_with(Command::CoolbreezePrewEn(enable), value))
}

/// Switches the cooler's postwash and, where a time is given, sets the
/// postwash time, in minutes. A time out of range is refused before
/// anything is sent.
pub fn set_coolbreeze_postwash(enable: bool, time_minutes: Option<u8>) -> (r: Result<
    Vec<Command>,
    InputError,
>)
    ensures
        match time_minutes {
            Some(time) => if valid_postwash_time(time) {
                r is Ok && r->Ok_0@ == seq![
                    Command::CoolbreezePostwEn(enable),
                    Command::CoolbreezePostwT(time),
                ]
            } else {
                r == Err::<Vec<Command>, InputError>(InputError::PostwashTime)
            },
            None => r is Ok && r->Ok_0@ == seq![Command::CoolbreezePostwEn(enable)],
        },
{
    let value = match time_minutes {
        Some(time) => {
            if !(5 <= time && time <= 30) {
                return Err(InputError::PostwashTime);
            }
            Some(Command::CoolbreezePostwT(time))
        },
        None => None,
    };
    Ok(switch_with(Command::CoolbreezePostwEn(enable), value))
}

/// Switches the cooler's drain cycle and, where a period is given in
/// hours, sets it; the controller takes the period in minutes. A period
/// out of range is refused before anything is sent.
pub fn set_coolbreeze_drain_cycle(enable: bool, period_hours: Option<u16>) -> (r: Result<
    Vec<Command>,
    InputError,
>)
    ensures
        match period_hours {
            Some(hours) => if valid_drain_period(hours) {
                r is Ok && r->Ok_0@ == seq![
                    Command::CoolbreezeDrCycEn(enable),
                    Command::CoolbreezeDrCycPer((hours * 60) as u16),
                ]
            } else {
                r == Err::<Vec<Command>, InputError>(InputError::DrainCyclePeriod)
            },
            None => r is Ok && r->Ok_0@ == seq![Command::CoolbreezeDrCycEn(enable)],
        },
{
    let value = match period_hours {
        Some(hours) => {
            if !(1 <= hours && hours <= 50) {
                return Err(InputError::DrainCyclePeriod);
            }
            Some(Command::CoolbreezeDrCycPer(hours * 60))
        },
        None => None,
    };
    Ok(switch_with(Command::CoolbreezeDrCycEn(enable), value))
}

/// Whether constant zones are controlled by area and, where one is
/// given, the area in square metres.
pub fn set_constant_control_by_area(enable: bool, area: Option<u16>) -> (r: Vec<Command>)
    ensures
        r@ == match area {
            Some(value) => seq![Command::CnstCtrlAreaEn(enable), Command::CnstCtrlArea(value)],
            None => seq![Command::CnstCtrlAreaEn(enable)],
        },
{
    let value = match area {
        Some(value) => Some(Command::CnstCtrlArea(value)),
        None => None,
    };
    switch_with(Command::CnstCtrlAreaEn(enable), value)
}

/// What is sent for the economy lock: the switch, then the bounds that
/// are given, the lower one first.
pub open spec fn economy_commands(enable: bool, min: Option<u32>, max: Option<u32>) -> Seq<
    Command,
> {
    let switch = seq![Command::EconomyLock(enable)];
    let lower = match min {
        Some(raw) => seq![Command::EconomyMin(raw)],
        None => Seq::<Command>::empty(),
    };
    let upper = match max {
        Some(raw) => seq![Command::EconomyMax(raw)],
        None => Seq::<Command>::empty(),
    };
    switch + lower + upper
}

/// Which bound of the economy lock is out of range, if one is: the lower
/// one is looked at first.
pub open spec fn economy_fault(min: Option<u32>, max: Option<u32>) -> Option<InputError> {
    if min matches Some(raw) && !valid_setpoint(raw) {
        Some(InputError::EconomyMin)
    } else if max matches Some(raw) && !valid_setpoint(raw) {
        Some(InputError::EconomyMax)
    } else {
        None
    }
}

/// Switches the economy lock and sets the bounds that are given, in
/// hundredths of a degree. A bound out of range is refused before
/// anything is sent.
pub fn set_economy_lock(enable: bool, min: Option<u32>, max: Option<u32>) -> (r: Result<
    Vec<Command>,
    InputError,
>)
    ensures
        match economy_fault(min, max) {
            Some(error) => r == Err::<Vec<Command>, InputError>(error),
            None => r is Ok && r->Ok_0@ == economy_commands(enable, min, max),
        },
{
    match min {
        Some(raw) => {
            if !(1500 <= raw && raw <= 3000) {
                return Err(InputError::EconomyMin);
            }
        },
        None => {},
    }
    match max {
        Some(raw) => {
            if !(1500 <= raw && raw <= 3000) {
                return Err(InputError::EconomyMax);
            }
        },
        None => {},
    }
    let mut commands: Vec<Command> = Vec::new();
    commands.push(Command::EconomyLock(enable));
    match min {
        Some(raw) => {
            commands.push(Command::EconomyMin(raw));
        },
        None => {},
    }
    match max {
        Some(raw) => {
            commands.push(Command::EconomyMax(raw));
        },
        None => {},
    }
    assert(commands@ =~= economy_commands(enable, min, max));
    Ok(commands)
}

} // verus!
