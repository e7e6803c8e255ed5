use izone::commands::schedules::{
    check_zone_request, disable_schedule, enable_schedule, get_all_schedules_summary,
    get_schedule_fan_value, get_schedule_status, parse_time, parse_weekday,
    parse_zone_request, set_schedule_days,
    set_schedule_mode_fan, set_schedule_name, set_schedule_time, set_schedule_zones, Weekday,
    ZoneRequest, UNSET_HOUR, UNSET_MINUTE,
};
use izone::models::DaysEnabled;
use izone::payload::{Command, Dialect, QueryRequest, ZoneSetting};
use izone::validation::InputError;

const NO_DAYS: DaysEnabled = DaysEnabled {
    monday: false,
    tuesday: false,
    wednesday: false,
    thursday: false,
    friday: false,
    saturday: false,
    sunday: false,
};

fn names(days: &[&str]) -> Vec<String> {
    days.iter().map(|day| day.to_string()).collect()
}

fn zones_error(index: u8, requests: Vec<ZoneRequest>) -> InputError {
    set_schedule_zones(index, &requests).unwrap_err().error
}

fn request(zone: &str, mode: u8, setpoint: u32) -> ZoneRequest {
    ZoneRequest { zone_name: zone.to_string(), mode, setpoint }
}

#[test]
fn schedule_index_seven_is_valid_and_eight_is_not() {
    let dialect = Dialect::current();
    assert_eq!(
        get_schedule_status(&dialect, 7),
        Ok(QueryRequest { kind: 3, index: 7, secondary: 0 })
    );
    assert_eq!(get_schedule_status(&dialect, 8), Err(InputError::ScheduleIndexOutOfRange));
    assert_eq!(enable_schedule(7), Ok(Command::SchedEnable { index: 7, enabled: true }));
    assert_eq!(enable_schedule(8), Err(InputError::ScheduleIndexOutOfRange));
    assert_eq!(disable_schedule(7), Ok(Command::SchedEnable { index: 7, enabled: false }));
    assert_eq!(disable_schedule(8), Err(InputError::ScheduleIndexOutOfRange));
    assert_eq!(set_schedule_name(8, "x"), Err(InputError::ScheduleIndexOutOfRange));
    assert_eq!(set_schedule_time(8, 1, 2, 3, 4), Err(InputError::ScheduleIndexOutOfRange));
    assert_eq!(set_schedule_days(8, &names(&["mon"])), Err(InputError::ScheduleIndexOutOfRange));
    assert_eq!(
        set_schedule_mode_fan(8, Some("cool"), None),
        Err(InputError::ScheduleIndexOutOfRange)
    );
    assert_eq!(
        zones_error(8, vec![request("kitchen", 3, 2200)]),
        InputError::ScheduleIndexOutOfRange
    );
}

#[test]
fn schedule_queries() {
    let dialect = Dialect::current();
    assert_eq!(
        get_schedule_status(&dialect, 0),
        Ok(QueryRequest { kind: 3, index: 0, secondary: 0 })
    );
    assert_eq!(get_schedule_status(&dialect, 255), Err(InputError::ScheduleIndexOutOfRange));
    let older = Dialect { system_kind: 1, zone_kind: 3, schedule_kind: 2 };
    assert_eq!(
        get_schedule_status(&older, 4),
        Ok(QueryRequest { kind: 2, index: 4, secondary: 0 })
    );
    let queries = get_all_schedules_summary(&dialect);
    assert_eq!(queries.len(), 8);
    for (index, query) in queries.iter().enumerate() {
        assert_eq!(*query, QueryRequest { kind: 3, index: index as u8, secondary: 0 });
    }
}

#[test]
fn schedule_name() {
    assert_eq!(
        set_schedule_name(0, "Weekdays"),
        Ok(Command::SchedName { index: 0, name: "Weekdays".to_string() })
    );
    assert_eq!(
        set_schedule_name(7, "123456789012345"),
        Ok(Command::SchedName { index: 7, name: "123456789012345".to_string() })
    );
    assert_eq!(set_schedule_name(7, "1234567890123456"), Err(InputError::ScheduleNameTooLong));
    assert_eq!(
        set_schedule_name(9, "1234567890123456"),
        Err(InputError::ScheduleIndexOutOfRange)
    );
}

#[test]
fn schedule_time_resets_the_days() {
    assert_eq!(
        set_schedule_time(2, 8, 30, 17, 0),
        Ok(Command::SchedSettings {
            index: 2,
            start_h: 8,
            start_m: 30,
            stop_h: 17,
            stop_m: 0,
            days: NO_DAYS,
        })
    );
    assert_eq!(
        set_schedule_time(0, 0, 0, 23, 59),
        Ok(Command::SchedSettings {
            index: 0,
            start_h: 0,
            start_m: 0,
            stop_h: 23,
            stop_m: 59,
            days: NO_DAYS,
        })
    );
}

#[test]
fn schedule_time_out_of_range() {
    assert_eq!(set_schedule_time(2, 24, 0, 17, 0), Err(InputError::InvalidTime));
    assert_eq!(set_schedule_time(2, 8, 60, 17, 0), Err(InputError::InvalidTime));
    assert_eq!(set_schedule_time(2, 8, 0, 24, 0), Err(InputError::InvalidTime));
    assert_eq!(set_schedule_time(2, 8, 0, 17, 60), Err(InputError::InvalidTime));
    assert_eq!(set_schedule_time(2, 31, 63, 31, 63), Err(InputError::InvalidTime));
}

#[test]
fn weekdays_by_name() {
    assert_eq!(parse_weekday("m"), Some(Weekday::Monday));
    assert_eq!(parse_weekday("mon"), Some(Weekday::Monday));
    assert_eq!(parse_weekday("Mon"), Some(Weekday::Monday));
    assert_eq!(parse_weekday("tu"), Some(Weekday::Tuesday));
    assert_eq!(parse_weekday("TUE"), Some(Weekday::Tuesday));
    assert_eq!(parse_weekday("w"), Some(Weekday::Wednesday));
    assert_eq!(parse_weekday("wed"), Some(Weekday::Wednesday));
    assert_eq!(parse_weekday("Th"), Some(Weekday::Thursday));
    assert_eq!(parse_weekday("thu"), Some(Weekday::Thursday));
    assert_eq!(parse_weekday("F"), Some(Weekday::Friday));
    assert_eq!(parse_weekday("fri"), Some(Weekday::Friday));
    assert_eq!(parse_weekday("sa"), Some(Weekday::Saturday));
    assert_eq!(parse_weekday("Sat"), Some(Weekday::Saturday));
    assert_eq!(parse_weekday("su"), Some(Weekday::Sunday));
    assert_eq!(parse_weekday("sun"), Some(Weekday::Sunday));
    assert_eq!(parse_weekday("monday"), None);
    assert_eq!(parse_weekday("t"), None);
    assert_eq!(parse_weekday("s"), None);
    assert_eq!(parse_weekday(""), None);
}

#[test]
fn schedule_days_leave_the_times_unset() {
    assert_eq!(UNSET_HOUR, 31);
    assert_eq!(UNSET_MINUTE, 63);
    assert_eq!(
        set_schedule_days(1, &names(&["Mon", "wed", "FRI"])),
        Ok(Command::SchedSettings {
            index: 1,
            start_h: 31,
            start_m: 63,
            stop_h: 31,
            stop_m: 63,
            days: DaysEnabled { monday: true, wednesday: true, friday: true, ..NO_DAYS },
        })
    );
}

#[test]
fn schedule_days_pass_over_unknown_names() {
    assert_eq!(
        set_schedule_days(1, &names(&["someday", "sa", "", "su", "sa"])),
        Ok(Command::SchedSettings {
            index: 1,
            start_h: 31,
            start_m: 63,
            stop_h: 31,
            stop_m: 63,
            days: DaysEnabled { saturday: true, sunday: true, ..NO_DAYS },
        })
    );
    assert_eq!(
        set_schedule_days(1, &names(&[])),
        Ok(Command::SchedSettings {
            index: 1,
            start_h: 31,
            start_m: 63,
            stop_h: 31,
            stop_m: 63,
            days: NO_DAYS,
        })
    );
    assert_eq!(
        set_schedule_days(0, &names(&["m", "tu", "w", "th", "f", "sa", "su"])),
        Ok(Command::SchedSettings {
            index: 0,
            start_h: 31,
            start_m: 63,
            stop_h: 31,
            stop_m: 63,
            days: DaysEnabled {
                monday: true,
                tuesday: true,
                wednesday: true,
                thursday: true,
                friday: true,
                saturday: true,
                sunday: true,
            },
        })
    );
}

#[test]
fn schedule_fan_codes() {
    assert_eq!(get_schedule_fan_value("low"), Some(1));
    assert_eq!(get_schedule_fan_value("medium"), Some(2));
    assert_eq!(get_schedule_fan_value("high"), Some(3));
    assert_eq!(get_schedule_fan_value("auto"), Some(4));
    assert_eq!(get_schedule_fan_value("top"), Some(5));
    assert_eq!(get_schedule_fan_value("nongasheat"), Some(99));
    assert_eq!(get_schedule_fan_value("NonGasHeat"), Some(99));
    assert_eq!(get_schedule_fan_value("fast"), None);
}

#[test]
fn schedule_mode_and_fan() {
    assert_eq!(
        set_schedule_mode_fan(3, Some("cool"), Some("top")),
        Ok(vec![
            Command::SchedAcMode { index: 3, mode: 1 },
            Command::SchedAcFan { index: 3, fan: 5 },
        ])
    );
    assert_eq!(
        set_schedule_mode_fan(3, Some("Auto"), None),
        Ok(vec![Command::SchedAcMode { index: 3, mode: 5 }])
    );
    assert_eq!(
        set_schedule_mode_fan(3, None, Some("nongasheat")),
        Ok(vec![Command::SchedAcFan { index: 3, fan: 99 }])
    );
}

#[test]
fn schedule_mode_and_fan_faults() {
    assert_eq!(set_schedule_mode_fan(3, None, None), Err(InputError::NothingToSet));
    assert_eq!(set_schedule_mode_fan(3, Some("warm"), None), Err(InputError::UnknownMode));
    assert_eq!(set_schedule_mode_fan(3, Some("warm"), Some("fast")), Err(InputError::UnknownMode));
    assert_eq!(
        set_schedule_mode_fan(3, Some("cool"), Some("fast")),
        Err(InputError::UnknownScheduleFan)
    );
    assert_eq!(set_schedule_mode_fan(3, None, Some("fast")), Err(InputError::UnknownScheduleFan));
    assert_eq!(set_schedule_mode_fan(9, None, None), Err(InputError::ScheduleIndexOutOfRange));
}

#[test]
fn zone_requests() {
    assert_eq!(
        check_zone_request(&request("kitchen", 3, 2250)),
        Ok(ZoneSetting { index: 0, mode: 3, setpoint: 2250 })
    );
    assert_eq!(
        check_zone_request(&request("rumpus", 200, 1500)),
        Ok(ZoneSetting { index: 7, mode: 200, setpoint: 1500 })
    );
    assert_eq!(check_zone_request(&request("attic", 3, 2250)), Err(InputError::UnknownZone));
    assert_eq!(
        check_zone_request(&request("kitchen", 3, 1499)),
        Err(InputError::SetpointOutOfRange)
    );
    assert_eq!(
        check_zone_request(&request("kitchen", 3, 3001)),
        Err(InputError::SetpointOutOfRange)
    );
    assert_eq!(check_zone_request(&request("attic", 3, 1)), Err(InputError::UnknownZone));
}

#[test]
fn schedule_zones() {
    assert_eq!(
        set_schedule_zones(
            2,
            &vec![request("kitchen", 3, 2250), request("work", 1, 3000), request("guest", 2, 1500)]
        ),
        Ok(Command::SchedZones {
            index: 2,
            zones: vec![
                ZoneSetting { index: 0, mode: 3, setpoint: 2250 },
                ZoneSetting { index: 4, mode: 1, setpoint: 3000 },
                ZoneSetting { index: 5, mode: 2, setpoint: 1500 },
            ],
        })
    );
}

#[test]
fn schedule_zones_with_an_unknown_zone_are_refused() {
    let refusal =
        set_schedule_zones(0, &vec![request("attic", 3, 2200), request("kitchen", 3, 2200)])
            .unwrap_err();
    assert_eq!(refusal.error, InputError::UnknownZone);
    assert_eq!(
        refusal.message,
        "Unknown zone 'attic'.\nAvailable zones: kitchen, theatre, living, master, work, guest, rayden, rumpus"
    );
    assert_eq!(
        zones_error(0, vec![request("kitchen", 3, 2200), request("attic", 3, 2200)]),
        InputError::UnknownZone
    );
    assert_eq!(zones_error(7, vec![request("Kitchen", 3, 2200)]), InputError::UnknownZone);
}

#[test]
fn schedule_zones_with_a_setpoint_out_of_range_are_refused() {
    let refusal =
        set_schedule_zones(0, &vec![request("kitchen", 3, 1499), request("living", 3, 2200)])
            .unwrap_err();
    assert_eq!(refusal.error, InputError::SetpointOutOfRange);
    assert_eq!(refusal.message, InputError::SetpointOutOfRange.message());
    assert_eq!(
        zones_error(0, vec![request("living", 3, 2200), request("kitchen", 3, 3001)]),
        InputError::SetpointOutOfRange
    );
}

#[test]
fn the_first_refused_request_decides_the_error() {
    assert_eq!(
        zones_error(2, vec![request("work", 1, 3001), request("attic", 3, 2250)]),
        InputError::SetpointOutOfRange
    );
    assert_eq!(
        zones_error(2, vec![request("attic", 3, 2250), request("work", 1, 3001)]),
        InputError::UnknownZone
    );
    assert_eq!(
        zones_error(2, vec![request("guest", 2, 1500), request("attic", 3, 1)]),
        InputError::UnknownZone
    );
    let named = set_schedule_zones(
        2,
        &vec![request("guest", 2, 1500), request("cellar", 3, 2000), request("attic", 3, 2000)],
    )
    .unwrap_err();
    assert!(named.message.starts_with("Unknown zone 'cellar'."));
}

#[test]
fn the_schedule_index_is_looked_at_before_the_zones() {
    assert_eq!(
        zones_error(8, vec![request("attic", 3, 1)]),
        InputError::ScheduleIndexOutOfRange
    );
    assert_eq!(zones_error(8, vec![]), InputError::ScheduleIndexOutOfRange);
}

#[test]
fn schedule_zones_with_nothing_to_set() {
    let refusal = set_schedule_zones(2, &vec![]).unwrap_err();
    assert_eq!(refusal.error, InputError::NoZoneSettings);
    assert_eq!(refusal.message, InputError::NoZoneSettings.message());
}

#[test]
fn schedule_zones_may_name_a_zone_twice() {
    assert_eq!(
        set_schedule_zones(2, &vec![request("guest", 2, 1500), request("guest", 4, 2000)]),
        Ok(Command::SchedZones {
            index: 2,
            zones: vec![
                ZoneSetting { index: 5, mode: 2, setpoint: 1500 },
                ZoneSetting { index: 5, mode: 4, setpoint: 2000 },
            ],
        })
    );
}

#[test]
fn times_from_text() {
    assert_eq!(parse_time("08:30"), Ok((8, 30)));
    assert_eq!(parse_time("0:0"), Ok((0, 0)));
    assert_eq!(parse_time("23:59"), Ok((23, 59)));
    assert_eq!(parse_time("+7:+5"), Ok((7, 5)));
    assert_eq!(parse_time("007:005"), Ok((7, 5)));
}

#[test]
fn times_from_text_that_is_none() {
    assert_eq!(parse_time(""), Err(InputError::TimeFormat));
    assert_eq!(parse_time("0830"), Err(InputError::TimeFormat));
    assert_eq!(parse_time("08:30:00"), Err(InputError::TimeFormat));
    assert_eq!(parse_time(":"), Err(InputError::InvalidHour));
    assert_eq!(parse_time(":30"), Err(InputError::InvalidHour));
    assert_eq!(parse_time("8h:30"), Err(InputError::InvalidHour));
    assert_eq!(parse_time("256:30"), Err(InputError::InvalidHour));
    assert_eq!(parse_time("-1:30"), Err(InputError::InvalidHour));
    assert_eq!(parse_time("x:y"), Err(InputError::InvalidHour));
    assert_eq!(parse_time("08:"), Err(InputError::InvalidMinute));
    assert_eq!(parse_time("08:3o"), Err(InputError::InvalidMinute));
    assert_eq!(parse_time("08:256"), Err(InputError::InvalidMinute));
    assert_eq!(parse_time("24:00"), Err(InputError::TimeOutOfRange));
    assert_eq!(parse_time("23:60"), Err(InputError::TimeOutOfRange));
    assert_eq!(parse_time("255:255"), Err(InputError::TimeOutOfRange));
    assert_eq!(parse_time("31:63"), Err(InputError::TimeOutOfRange));
}

#[test]
fn zone_requests_from_text() {
    let request = parse_zone_request("kitchen:3:2250").unwrap();
    assert_eq!(request.zone_name, "kitchen");
    assert_eq!(request.mode, 3);
    assert_eq!(request.setpoint, 2250);
    let request = parse_zone_request(":255:4294967295").unwrap();
    assert_eq!(request.zone_name, "");
    assert_eq!(request.mode, 255);
    assert_eq!(request.setpoint, u32::MAX);
    let request = parse_zone_request("Living Room:0:0").unwrap();
    assert_eq!(request.zone_name, "Living Room");
    assert_eq!(request.mode, 0);
    assert_eq!(request.setpoint, 0);
}

#[test]
fn zone_requests_from_text_that_is_none() {
    assert_eq!(parse_zone_request("").unwrap_err(), InputError::ZoneSettingFormat);
    assert_eq!(parse_zone_request("kitchen").unwrap_err(), InputError::ZoneSettingFormat);
    assert_eq!(parse_zone_request("kitchen:3").unwrap_err(), InputError::ZoneSettingFormat);
    assert_eq!(parse_zone_request("kitchen:3:2250:1").unwrap_err(), InputError::ZoneSettingFormat);
    assert_eq!(parse_zone_request("kitchen:auto:2250").unwrap_err(), InputError::InvalidModeValue);
    assert_eq!(parse_zone_request("kitchen:256:2250").unwrap_err(), InputError::InvalidModeValue);
    assert_eq!(parse_zone_request("kitchen::2250").unwrap_err(), InputError::InvalidModeValue);
    assert_eq!(parse_zone_request("kitchen:3:22.5").unwrap_err(), InputError::InvalidSetpointValue);
    assert_eq!(parse_zone_request("kitchen:3:").unwrap_err(), InputError::InvalidSetpointValue);
    assert_eq!(
        parse_zone_request("kitchen:3:4294967296").unwrap_err(),
        InputError::InvalidSetpointValue
    );
}
