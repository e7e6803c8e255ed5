use colored::control::set_override;
use izone::commands::notices::{
    control_zone, disable_schedule, get_zone_temperature, set_airflow_lock,
    set_coolbreeze_prewash, set_scrooge_mode, set_static_pressure, set_system_mode, turn_on_ac,
};
use izone::helpers::get_visible_length;

#[test]
fn notices_in_colour() {
    set_override(true);
    assert_eq!(turn_on_ac().text, "AC system turned \x1b[32mON\x1b[0m.");
    assert_eq!(set_system_mode("cool").text, "System mode set to \x1b[36mCool\x1b[0m.");
    assert_eq!(
        set_coolbreeze_prewash(false, Some(10)).text,
        "Coolbreeze prewash \x1b[31mdisabled\x1b[0m (\x1b[36m10\x1b[0m min)."
    );
    assert_eq!(
        set_static_pressure(4).text,
        "Static pressure set to level \x1b[32m4\x1b[0m (\x1b[36mhighest\x1b[0m)."
    );
    assert_eq!(set_airflow_lock(true).text, "Airflow adjustment \x1b[31mlocked\x1b[0m.");
    assert_eq!(set_airflow_lock(false).text, "Airflow adjustment \x1b[32munlocked\x1b[0m.");
    assert_eq!(set_scrooge_mode(true).text, "Scrooge mode \x1b[33menabled\x1b[0m.");
    assert_eq!(set_scrooge_mode(false).text, "Scrooge mode \x1b[32mdisabled\x1b[0m.");
    assert_eq!(disable_schedule(2).text, "Schedule \x1b[31m2\x1b[0m disabled.");
    assert_eq!(
        get_zone_temperature("work", 2245).text,
        "Work Room Temperature: \x1b[36m22.4\x1b[0m°C"
    );
    assert_eq!(
        control_zone("work", "off", "").text,
        "Zone '\x1b[32mWork\x1b[0m' successfully turned \x1b[31mOFF\x1b[0m."
    );
}

#[test]
fn boxes_in_colour_are_as_wide_as_plain_ones() {
    set_override(true);
    for line in turn_on_ac().lines() {
        assert_eq!(get_visible_length(&line), 47);
    }
    for line in control_zone("work", "set_name", "Study").lines() {
        assert_eq!(get_visible_length(&line), 72);
    }
}
