use colored::control::set_override;
use izone::commands::notices::{
    capitalise, control_zone, disable_schedule, enable_schedule, format_hundredths,
    format_signed_tenths, get_system_temperature, get_zone_temperature, reset_warning,
    set_airflow_lock, set_airflow_min_lock, set_auto_mode_deadband,
    set_constant_control_by_area, set_coolbreeze_auto_fan_max_time,
    set_coolbreeze_control_sensor, set_coolbreeze_drain_after_prewash,
    set_coolbreeze_drain_before_postwash, set_coolbreeze_drain_cycle,
    set_coolbreeze_exhaust_enable, set_coolbreeze_exhaust_max, set_coolbreeze_fan_max,
    set_coolbreeze_fan_max_auto, set_coolbreeze_fan_speed, set_coolbreeze_inverter,
    set_coolbreeze_postwash, set_coolbreeze_prewash, set_coolbreeze_resume_last,
    set_coolbreeze_rh_setpoint, set_coolbreeze_temp_calibration, set_coolbreeze_temp_deadband,
    set_damper_time, set_economy_lock, set_filter_warning, set_open_dampers_when_off,
    set_reverse_dampers, set_schedule_days, set_schedule_mode_fan, set_schedule_name,
    set_schedule_time, set_schedule_zones, set_scrooge_mode, set_sleep_timer,
    set_static_pressure, set_system_fan, set_system_mode, set_system_setpoint,
    set_ventilation_cycle_fan_off, set_ventilation_eco2_setpoint,
    set_ventilation_fan_stage_delay, set_ventilation_rh_setpoint,
    set_ventilation_use_eco2_control, set_ventilation_use_rh_control,
    set_ventilation_use_vocs_control, set_ventilation_vocs_setpoint, system_fan_set,
    system_mode_set, turn_off_ac, turn_on_ac, warning_reset,
};
use izone::notice::{Frame, Notice};

fn framed(title: &str, width: usize, text: &str) -> Notice {
    Notice { frame: Some(Frame { title: title.to_string(), width }), text: text.to_string() }
}

fn bare(text: &str) -> Notice {
    Notice { frame: None, text: text.to_string() }
}

#[test]
fn power_notices() {
    set_override(false);
    assert_eq!(turn_on_ac(), framed("System Control", 45, "AC system turned ON."));
    assert_eq!(turn_off_ac(), framed("System Control", 45, "AC system turned OFF."));
}

#[test]
fn mode_and_fan_notices() {
    set_override(false);
    assert_eq!(set_system_mode("cool"), framed("System Control", 45, "System mode set to Cool."));
    assert_eq!(set_system_mode("AUTO"), framed("System Control", 45, "System mode set to Auto."));
    assert_eq!(
        set_system_fan("medium"),
        framed("System Control", 45, "Aircon Fan Speed set to Medium.")
    );
    assert_eq!(
        system_mode_set("Heat"),
        framed("System Control", 45, "System mode set to Heat.")
    );
    assert_eq!(
        system_fan_set("High"),
        framed("System Control", 45, "Aircon Fan Speed set to High.")
    );
}

#[test]
fn warning_notices() {
    set_override(false);
    assert_eq!(reset_warning("filter"), framed("System Configuration", 50, "Filter warning reset."));
    assert_eq!(
        reset_warning("filter_clean"),
        framed("System Configuration", 50, "FilterClean warning reset.")
    );
    assert_eq!(warning_reset("Any"), framed("System Configuration", 50, "Any warning reset."));
}

#[test]
fn cooler_number_notices() {
    set_override(false);
    assert_eq!(
        set_coolbreeze_fan_speed(80),
        framed("Coolbreeze Control", 45, "Coolbreeze fan speed set to 80%.")
    );
    assert_eq!(
        set_coolbreeze_rh_setpoint(45),
        framed("Coolbreeze Control", 45, "Coolbreeze RH setpoint set to 45%.")
    );
    assert_eq!(
        set_coolbreeze_fan_max_auto(90),
        framed("Coolbreeze Control", 50, "Fan max auto speed set to 90%.")
    );
    assert_eq!(
        set_coolbreeze_fan_max(100),
        framed("Coolbreeze Control", 50, "Fan max speed set to 100%.")
    );
    assert_eq!(
        set_coolbreeze_exhaust_max(1),
        framed("Coolbreeze Control", 50, "Exhaust max speed set to 1%.")
    );
    assert_eq!(
        set_coolbreeze_auto_fan_max_time(30),
        framed("Coolbreeze Control", 55, "Auto fan max time set to 30 minutes.")
    );
}

#[test]
fn cooler_switch_notices() {
    set_override(false);
    assert_eq!(
        set_coolbreeze_prewash(true, None),
        framed("Coolbreeze Control", 45, "Coolbreeze prewash enabled.")
    );
    assert_eq!(
        set_coolbreeze_prewash(false, Some(10)),
        framed("Coolbreeze Control", 45, "Coolbreeze prewash disabled (10 min).")
    );
    assert_eq!(
        set_coolbreeze_drain_after_prewash(true),
        framed("Coolbreeze Control", 45, "Drain after prewash enabled.")
    );
    assert_eq!(
        set_coolbreeze_drain_cycle(true, Some(12)),
        framed("Coolbreeze Control", 55, "Drain cycle enabled (every 12 hrs).")
    );
    assert_eq!(
        set_coolbreeze_drain_cycle(false, None),
        framed("Coolbreeze Control", 55, "Drain cycle disabled.")
    );
    assert_eq!(
        set_coolbreeze_postwash(true, Some(5)),
        framed("Coolbreeze Control", 45, "Postwash enabled (5 min).")
    );
    assert_eq!(
        set_coolbreeze_postwash(false, None),
        framed("Coolbreeze Control", 45, "Postwash disabled.")
    );
    assert_eq!(
        set_coolbreeze_drain_before_postwash(false),
        framed("Coolbreeze Control", 45, "Drain before postwash disabled.")
    );
    assert_eq!(
        set_coolbreeze_inverter(true),
        framed("Coolbreeze Control", 45, "Coolbreeze inverter enabled.")
    );
    assert_eq!(
        set_coolbreeze_resume_last(true),
        framed("Coolbreeze Control", 45, "Resume last state enabled.")
    );
    assert_eq!(
        set_coolbreeze_exhaust_enable(false),
        framed("Coolbreeze Control", 45, "Exhaust mode disabled.")
    );
    assert_eq!(
        set_coolbreeze_control_sensor("remote"),
        framed("Coolbreeze Control", 50, "Control sensor set to remote.")
    );
}

#[test]
fn signed_tenths() {
    assert_eq!(format_signed_tenths(0), "+0.0");
    assert_eq!(format_signed_tenths(5), "+0.5");
    assert_eq!(format_signed_tenths(-5), "-0.5");
    assert_eq!(format_signed_tenths(25), "+2.5");
    assert_eq!(format_signed_tenths(-50), "-5.0");
    assert_eq!(format_signed_tenths(50), "+5.0");
    assert_eq!(format_signed_tenths(i16::MAX), "+3276.7");
    assert_eq!(format_signed_tenths(i16::MIN), "-3276.8");
}

#[test]
fn signed_tenths_agree_with_floating_point() {
    for tenths in -50i16..=50 {
        assert_eq!(format_signed_tenths(tenths), format!("{:+.1}", tenths as f32 / 10.0));
    }
}

#[test]
fn hundredths_with_two_places() {
    assert_eq!(format_hundredths(0), "0.00");
    assert_eq!(format_hundredths(5), "0.05");
    assert_eq!(format_hundredths(75), "0.75");
    assert_eq!(format_hundredths(150), "1.50");
    assert_eq!(format_hundredths(500), "5.00");
    assert_eq!(format_hundredths(12345), "123.45");
    assert_eq!(format_hundredths(u32::MAX), "42949672.95");
}

#[test]
fn cooler_temperature_notices() {
    set_override(false);
    assert_eq!(
        set_coolbreeze_temp_calibration(-25),
        framed("Coolbreeze Control", 55, "Temperature calibration set to -2.5°C.")
    );
    assert_eq!(
        set_coolbreeze_temp_calibration(10),
        framed("Coolbreeze Control", 55, "Temperature calibration set to +1.0°C.")
    );
    assert_eq!(
        set_coolbreeze_temp_deadband(250),
        framed("Coolbreeze Control", 55, "Temperature deadband set to 2.5°C.")
    );
}

#[test]
fn ventilation_notices() {
    set_override(false);
    let title = "Ventilation Control";
    assert_eq!(set_ventilation_rh_setpoint(60), framed(title, 50, "RH setpoint set to 60%."));
    assert_eq!(
        set_ventilation_vocs_setpoint(500),
        framed(title, 50, "VOCs setpoint set to 500 ppb.")
    );
    assert_eq!(
        set_ventilation_eco2_setpoint(900),
        framed(title, 50, "eCO2 setpoint set to 900 ppm.")
    );
    assert_eq!(
        set_ventilation_fan_stage_delay(30),
        framed(title, 50, "Fan stage delay set to 30 min.")
    );
    assert_eq!(set_ventilation_cycle_fan_off(true), framed(title, 50, "Cycle fan off enabled."));
    assert_eq!(
        set_ventilation_use_rh_control(false),
        framed(title, 50, "Use RH control disabled.")
    );
    assert_eq!(
        set_ventilation_use_vocs_control(true),
        framed(title, 50, "Use VOCs control enabled.")
    );
    assert_eq!(
        set_ventilation_use_eco2_control(true),
        framed(title, 50, "Use eCO2 control enabled.")
    );
}

#[test]
fn system_setting_notices() {
    set_override(false);
    assert_eq!(
        set_system_setpoint(2250),
        framed("System Control", 45, "System setpoint set to 22.5°C.")
    );
    assert_eq!(set_sleep_timer(0), framed("System Control", 45, "Sleep timer disabled."));
    assert_eq!(
        set_sleep_timer(90),
        framed("System Control", 45, "Sleep timer set to 90 minutes.")
    );
    assert_eq!(
        set_filter_warning(0),
        framed("System Configuration", 50, "Filter warning disabled.")
    );
    assert_eq!(
        set_filter_warning(6),
        framed("System Configuration", 50, "Filter warning set to 6 months.")
    );
    assert_eq!(
        set_damper_time(0),
        framed("System Configuration", 50, "Damper time set to automatic.")
    );
    assert_eq!(
        set_damper_time(45),
        framed("System Configuration", 50, "Damper time set to 45 seconds.")
    );
    assert_eq!(
        set_auto_mode_deadband(75),
        framed("System Configuration", 55, "Auto mode deadband set to 0.75°C.")
    );
    assert_eq!(
        set_auto_mode_deadband(150),
        framed("System Configuration", 55, "Auto mode deadband set to 1.50°C.")
    );
}

#[test]
fn economy_lock_notices() {
    set_override(false);
    let title = "System Configuration";
    assert_eq!(set_economy_lock(true, None, None), framed(title, 55, "Economy lock enabled."));
    assert_eq!(set_economy_lock(false, None, None), framed(title, 55, "Economy lock disabled."));
    assert_eq!(
        set_economy_lock(true, Some(1800), Some(2600)),
        framed(title, 55, "Economy lock enabled (18.0-26.0°C).")
    );
    assert_eq!(
        set_economy_lock(true, Some(1800), None),
        framed(title, 55, "Economy lock enabled (18.0-30.0°C).")
    );
    assert_eq!(
        set_economy_lock(false, None, Some(2600)),
        framed(title, 55, "Economy lock disabled (15.0-26.0°C).")
    );
}

#[test]
fn lock_and_caution_notices() {
    set_override(false);
    let title = "System Configuration";
    assert_eq!(set_airflow_lock(true), framed(title, 50, "Airflow adjustment locked."));
    assert_eq!(set_airflow_lock(false), framed(title, 50, "Airflow adjustment unlocked."));
    assert_eq!(set_airflow_min_lock(true), framed(title, 50, "Airflow min adjustment locked."));
    assert_eq!(
        set_open_dampers_when_off(true),
        framed(title, 55, "Open dampers when off enabled.")
    );
    assert_eq!(set_scrooge_mode(true), framed(title, 50, "Scrooge mode enabled."));
    assert_eq!(set_scrooge_mode(false), framed(title, 50, "Scrooge mode disabled."));
    assert_eq!(set_reverse_dampers(false), framed(title, 50, "Reverse dampers disabled."));
    assert_eq!(
        set_constant_control_by_area(true, Some(120)),
        framed(title, 60, "Constant control by area enabled (120 m²).")
    );
    assert_eq!(
        set_constant_control_by_area(false, None),
        framed(title, 60, "Constant control by area disabled.")
    );
}

#[test]
fn static_pressure_notices() {
    set_override(false);
    let title = "System Configuration";
    assert_eq!(
        set_static_pressure(0),
        framed(title, 50, "Static pressure set to level 0 (lowest).")
    );
    assert_eq!(
        set_static_pressure(2),
        framed(title, 50, "Static pressure set to level 2 (medium).")
    );
    assert_eq!(
        set_static_pressure(4),
        framed(title, 50, "Static pressure set to level 4 (highest).")
    );
}

#[test]
fn schedule_notices() {
    set_override(false);
    assert_eq!(set_schedule_name(3, "Weekend"), bare("Schedule 3 name set to 'Weekend'."));
    assert_eq!(
        set_schedule_time(2, 8, 5, 17, 0),
        bare("Schedule 2 time set to Start: 08:05, Stop: 17:00.")
    );
    assert_eq!(set_schedule_days(1), bare("Schedule 1 days set."));
    assert_eq!(set_schedule_mode_fan(0), bare("Schedule 0 mode/fan set."));
    assert_eq!(enable_schedule(7), bare("Schedule 7 enabled."));
    assert_eq!(disable_schedule(7), bare("Schedule 7 disabled."));
    assert_eq!(set_schedule_zones(4), bare("Schedule 4 zone settings updated."));
}

#[test]
fn capitals() {
    assert_eq!(capitalise("kitchen"), "Kitchen");
    assert_eq!(capitalise("Kitchen"), "Kitchen");
    assert_eq!(capitalise("k"), "K");
    assert_eq!(capitalise(""), "");
    assert_eq!(capitalise("1st floor"), "1st floor");
    assert_eq!(capitalise("living room"), "Living room");
    assert_eq!(capitalise("émile"), "émile");
}

#[test]
fn temperature_notices() {
    set_override(false);
    assert_eq!(
        get_system_temperature(2150),
        framed("Controller Temperature", 45, "Current Controller Temperature: 21.5°C")
    );
    assert_eq!(
        get_zone_temperature("kitchen", 1995),
        framed("Zone Temperature: Kitchen", 56, "Kitchen Room Temperature: 20.0°C")
    );
}

#[test]
fn zone_notices() {
    set_override(false);
    let title = "Zone Control: Living";
    assert_eq!(
        control_zone("living", "on", ""),
        framed(title, 70, "Zone 'Living' successfully set to Auto mode.")
    );
    assert_eq!(
        control_zone("living", "auto", ""),
        framed(title, 70, "Zone 'Living' successfully set to Auto mode.")
    );
    assert_eq!(
        control_zone("living", "off", ""),
        framed(title, 70, "Zone 'Living' successfully turned OFF.")
    );
    assert_eq!(
        control_zone("living", "open", ""),
        framed(title, 70, "Zone 'Living' successfully set to OPEN mode.")
    );
    assert_eq!(
        control_zone("living", "override", ""),
        framed(title, 70, "Zone 'Living' successfully set to Override mode.")
    );
    assert_eq!(
        control_zone("living", "constant", ""),
        framed(title, 70, "Zone 'Living' successfully set to Constant mode.")
    );
    assert_eq!(
        control_zone("living", "set_setpoint", "22.5"),
        framed(title, 70, "Setpoint for zone 'Living' successfully set to 22.5°C")
    );
    assert_eq!(
        control_zone("living", "set_max_air", "90"),
        framed(title, 70, "Max air for zone 'Living' successfully set to 90%.")
    );
    assert_eq!(
        control_zone("living", "set_min_air", "5"),
        framed(title, 70, "Min air for zone 'Living' successfully set to 5%.")
    );
    assert_eq!(
        control_zone("living", "set_name", "Lounge"),
        framed(title, 70, "Zone 'Living' successfully renamed to 'Lounge'.")
    );
    assert_eq!(
        control_zone("living", "dance", ""),
        framed(title, 70, "Action 'dance' for zone 'Living' successful.")
    );
}
