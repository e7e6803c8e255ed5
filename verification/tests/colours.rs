use colored::control::set_override;
use izone::helpers::{
    get_battery_level_text, get_colored_system_mode, get_colored_zone_mode,
    get_sensor_fault_text, get_visible_length,
};
use izone::status::ZoneAlert;

#[test]
fn system_modes_in_colour() {
    set_override(true);
    assert_eq!(get_colored_system_mode(1), "\x1b[34mCool\x1b[0m");
    assert_eq!(get_colored_system_mode(2), "\x1b[31mHeat\x1b[0m");
    assert_eq!(get_colored_system_mode(3), "\x1b[37mVent\x1b[0m");
    assert_eq!(get_colored_system_mode(4), "\x1b[33mDry\x1b[0m");
    assert_eq!(get_colored_system_mode(5), "\x1b[36mAuto\x1b[0m");
}

#[test]
fn unknown_system_modes_stay_plain() {
    set_override(true);
    assert_eq!(get_colored_system_mode(0), "Mode(0)");
    assert_eq!(get_colored_system_mode(99), "Mode(99)");
}

#[test]
fn zone_modes_in_colour() {
    set_override(true);
    assert_eq!(get_colored_zone_mode(1), "\x1b[33mOPEN\x1b[0m");
    assert_eq!(get_colored_zone_mode(2), "\x1b[31mOFF\x1b[0m");
    assert_eq!(get_colored_zone_mode(3), "\x1b[32mCLIMATE\x1b[0m");
    assert_eq!(get_colored_zone_mode(4), "\x1b[33mOVERRIDE\x1b[0m");
    assert_eq!(get_colored_zone_mode(5), "\x1b[33mCONSTANT\x1b[0m");
    assert_eq!(get_colored_zone_mode(7), "UNKNOWN (7)");
}

#[test]
fn battery_levels_in_colour() {
    set_override(true);
    assert_eq!(get_battery_level_text(0), "\x1b[31m0\x1b[0m");
    assert_eq!(get_battery_level_text(1), "1");
    assert_eq!(get_battery_level_text(255), "255");
}

#[test]
fn sensor_faults_in_colour() {
    set_override(true);
    assert_eq!(get_sensor_fault_text(0), "\x1b[32mOK\x1b[0m");
    assert_eq!(get_sensor_fault_text(1), "\x1b[31mFLT:1\x1b[0m");
    assert_eq!(get_sensor_fault_text(255), "\x1b[31mFLT:255\x1b[0m");
}

#[test]
fn zone_alerts_in_colour() {
    set_override(true);
    assert_eq!(ZoneAlert::DamperFault.text(), "\x1b[31mDmpFlt\x1b[0m");
    assert_eq!(ZoneAlert::SensorFault.text(), "\x1b[31mSensor Fault\x1b[0m");
    assert_eq!(ZoneAlert::LowBattery.text(), "\x1b[31mLowBatt\x1b[0m");
}

#[test]
fn colour_takes_no_room() {
    set_override(true);
    assert_eq!(get_visible_length(&get_colored_system_mode(1)), 4);
    assert_eq!(get_visible_length(&get_colored_system_mode(4)), 3);
    assert_eq!(get_visible_length(&get_colored_system_mode(9)), 7);
    assert_eq!(get_visible_length(&get_colored_zone_mode(3)), 7);
    assert_eq!(get_visible_length(&get_colored_zone_mode(4)), 8);
    assert_eq!(get_visible_length(&get_sensor_fault_text(0)), 2);
    assert_eq!(get_visible_length(&get_sensor_fault_text(12)), 6);
    assert_eq!(get_visible_length(&get_battery_level_text(0)), 1);
    assert_eq!(get_visible_length(&ZoneAlert::SensorFault.text()), 12);
}
