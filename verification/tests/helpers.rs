use colored::control::set_override;
use izone::helpers::{
    get_battery_level_text, get_colored_system_mode, get_colored_zone_mode, get_fan_speed_text,
    get_fan_speed_value, get_sensor_fault_text, get_system_mode_value, get_visible_length,
    get_zone_type_text,
};

#[test]
fn system_modes_without_colour() {
    set_override(false);
    assert_eq!(get_colored_system_mode(1), "Cool");
    assert_eq!(get_colored_system_mode(2), "Heat");
    assert_eq!(get_colored_system_mode(3), "Vent");
    assert_eq!(get_colored_system_mode(4), "Dry");
    assert_eq!(get_colored_system_mode(5), "Auto");
}

#[test]
fn unknown_system_modes_show_their_code() {
    set_override(false);
    assert_eq!(get_colored_system_mode(0), "Mode(0)");
    assert_eq!(get_colored_system_mode(6), "Mode(6)");
    assert_eq!(get_colored_system_mode(42), "Mode(42)");
    assert_eq!(get_colored_system_mode(255), "Mode(255)");
}

#[test]
fn system_mode_codes_by_name() {
    assert_eq!(get_system_mode_value("auto"), Some(5));
    assert_eq!(get_system_mode_value("cool"), Some(1));
    assert_eq!(get_system_mode_value("heat"), Some(2));
    assert_eq!(get_system_mode_value("vent"), Some(3));
    assert_eq!(get_system_mode_value("dry"), Some(4));
    assert_eq!(get_system_mode_value("Cool"), Some(1));
    assert_eq!(get_system_mode_value("HEAT"), Some(2));
    assert_eq!(get_system_mode_value("dRy"), Some(4));
}

#[test]
fn system_mode_codes_of_other_names() {
    assert_eq!(get_system_mode_value(""), None);
    assert_eq!(get_system_mode_value("exhaust"), None);
    assert_eq!(get_system_mode_value("cool "), None);
    assert_eq!(get_system_mode_value(" cool"), None);
    assert_eq!(get_system_mode_value("coo"), None);
    assert_eq!(get_system_mode_value("1"), None);
}

#[test]
fn mode_names_and_codes_agree() {
    set_override(false);
    for code in 1u8..=5 {
        let name = get_colored_system_mode(code);
        assert_eq!(get_system_mode_value(&name), Some(code));
    }
}

#[test]
fn fan_speed_names() {
    assert_eq!(get_fan_speed_text(1), "Low");
    assert_eq!(get_fan_speed_text(2), "Medium");
    assert_eq!(get_fan_speed_text(3), "High");
    assert_eq!(get_fan_speed_text(4), "Auto");
    assert_eq!(get_fan_speed_text(5), "Top");
    assert_eq!(get_fan_speed_text(99), "NonGasHeat");
    assert_eq!(get_fan_speed_text(0), "Fan(0)");
    assert_eq!(get_fan_speed_text(6), "Fan(6)");
    assert_eq!(get_fan_speed_text(98), "Fan(98)");
    assert_eq!(get_fan_speed_text(100), "Fan(100)");
    assert_eq!(get_fan_speed_text(255), "Fan(255)");
}

#[test]
fn fan_speed_codes_by_name() {
    assert_eq!(get_fan_speed_value("low"), Some(1));
    assert_eq!(get_fan_speed_value("medium"), Some(2));
    assert_eq!(get_fan_speed_value("high"), Some(3));
    assert_eq!(get_fan_speed_value("auto"), Some(4));
    assert_eq!(get_fan_speed_value("Medium"), Some(2));
    assert_eq!(get_fan_speed_value("AUTO"), Some(4));
    assert_eq!(get_fan_speed_value("top"), None);
    assert_eq!(get_fan_speed_value("nongasheat"), None);
    assert_eq!(get_fan_speed_value("med"), None);
    assert_eq!(get_fan_speed_value(""), None);
}

#[test]
fn fan_names_and_codes_agree() {
    for code in 1u8..=4 {
        assert_eq!(get_fan_speed_value(&get_fan_speed_text(code)), Some(code));
    }
}

#[test]
fn zone_type_names() {
    assert_eq!(get_zone_type_text(1), "Open/Close");
    assert_eq!(get_zone_type_text(2), "Constant");
    assert_eq!(get_zone_type_text(3), "Auto");
    assert_eq!(get_zone_type_text(0), "Type(0)");
    assert_eq!(get_zone_type_text(4), "Type(4)");
    assert_eq!(get_zone_type_text(255), "Type(255)");
}

#[test]
fn battery_levels_without_colour() {
    set_override(false);
    assert_eq!(get_battery_level_text(0), "0");
    assert_eq!(get_battery_level_text(1), "1");
    assert_eq!(get_battery_level_text(3), "3");
    assert_eq!(get_battery_level_text(100), "100");
    assert_eq!(get_battery_level_text(255), "255");
}

#[test]
fn sensor_faults_without_colour() {
    set_override(false);
    assert_eq!(get_sensor_fault_text(0), "OK");
    assert_eq!(get_sensor_fault_text(1), "FLT:1");
    assert_eq!(get_sensor_fault_text(17), "FLT:17");
    assert_eq!(get_sensor_fault_text(255), "FLT:255");
}

#[test]
fn zone_modes_without_colour() {
    set_override(false);
    assert_eq!(get_colored_zone_mode(1), "OPEN");
    assert_eq!(get_colored_zone_mode(2), "OFF");
    assert_eq!(get_colored_zone_mode(3), "CLIMATE");
    assert_eq!(get_colored_zone_mode(4), "OVERRIDE");
    assert_eq!(get_colored_zone_mode(5), "CONSTANT");
    assert_eq!(get_colored_zone_mode(0), "UNKNOWN (0)");
    assert_eq!(get_colored_zone_mode(6), "UNKNOWN (6)");
    assert_eq!(get_colored_zone_mode(200), "UNKNOWN (200)");
}

#[test]
fn visible_length_of_plain_text() {
    assert_eq!(get_visible_length(""), 0);
    assert_eq!(get_visible_length("Cool"), 4);
    assert_eq!(get_visible_length("21.5°C"), 6);
    assert_eq!(get_visible_length("medium"), 6);
    assert_eq!(get_visible_length("mmm"), 3);
}

#[test]
fn visible_length_leaves_out_colour_sequences() {
    assert_eq!(get_visible_length("\x1b[34mCool\x1b[0m"), 4);
    assert_eq!(get_visible_length("\x1b[31mOFF\x1b[0m"), 3);
    assert_eq!(get_visible_length("AC system turned \x1b[32mON\x1b[0m."), 20);
    assert_eq!(get_visible_length("\x1b[0m"), 0);
    assert_eq!(get_visible_length("\x1b[1;31mbold\x1b[0m"), 4);
    assert_eq!(get_visible_length("a\x1b[36mb\x1b[0mc\x1b[33md\x1b[0me"), 5);
}

#[test]
fn visible_length_of_an_open_sequence() {
    assert_eq!(get_visible_length("\x1b"), 0);
    assert_eq!(get_visible_length("ab\x1b[31"), 2);
    assert_eq!(get_visible_length("ab\x1b[31 and so on"), 2);
    assert_eq!(get_visible_length("ab\x1b[31 and more"), 5);
    assert_eq!(get_visible_length("\x1b\x1bm1"), 1);
    assert_eq!(get_visible_length("\x1bmm"), 1);
}
