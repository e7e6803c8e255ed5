use izone::commands::zones::{
    control_zone, get_all_zones_summary, get_zone_status, get_zone_temperature, ZoneAction,
};
use izone::payload::{Command, Dialect, QueryRequest};
use izone::validation::InputError;

fn act(zone: &str, action: &str, value: Option<&str>) -> Result<ZoneAction, InputError> {
    control_zone(&Dialect::current(), zone, action, value).map_err(|refusal| refusal.error)
}

const ALL_ZONES: &str = "kitchen, theatre, living, master, work, guest, rayden, rumpus";

fn sent(command: Command) -> Result<ZoneAction, InputError> {
    Ok(ZoneAction::Send { command, repeat: false })
}

#[test]
fn unknown_zone_is_refused_whatever_the_action() {
    for action in ["status", "temp", "on", "off", "set_setpoint", "set_name", "summary", "fly"] {
        assert_eq!(act("attic", action, Some("22")), Err(InputError::UnknownZone));
        assert_eq!(act("attic", action, None), Err(InputError::UnknownZone));
    }
    assert_eq!(act("", "status", None), Err(InputError::UnknownZone));
    assert_eq!(act("Kitchen", "status", None), Err(InputError::UnknownZone));
}

#[test]
fn unknown_zone_error_names_the_zone_and_lists_the_zones() {
    let refusal = control_zone(&Dialect::current(), "attic", "status", None).unwrap_err();
    assert_eq!(refusal.error, InputError::UnknownZone);
    assert_eq!(
        refusal.message,
        format!("Unknown zone 'attic'.\nAvailable zones: {}", ALL_ZONES)
    );
    assert!(refusal.message.contains("'attic'"));
    for name in ["kitchen", "theatre", "living", "master", "work", "guest", "rayden", "rumpus"] {
        assert_eq!(refusal.message.matches(name).count(), 1, "{} is not listed once", name);
    }
}

#[test]
fn unknown_zone_error_names_whatever_was_asked_for() {
    for asked in ["", "Kitchen", "loft conversion", "kitchen "] {
        for action in ["status", "set_setpoint", "fly"] {
            let refusal = control_zone(&Dialect::current(), asked, action, Some("22")).unwrap_err();
            assert_eq!(refusal.error, InputError::UnknownZone);
            assert_eq!(
                refusal.message,
                format!("Unknown zone '{}'.\nAvailable zones: {}", asked, ALL_ZONES)
            );
        }
    }
}

#[test]
fn unknown_action_error_names_the_action() {
    let refusal = control_zone(&Dialect::current(), "kitchen", "fly", None).unwrap_err();
    assert_eq!(refusal.error, InputError::UnknownZoneAction);
    assert_eq!(
        refusal.message,
        "Unknown zone action 'fly'.\nAvailable actions for zones: status, temp, on, off, open, auto, override, constant, set-setpoint, set-max-air, set-min-air, set-name, summary."
    );
}

#[test]
fn other_zone_errors_say_what_is_accepted() {
    let dialect = Dialect::current();
    let cases = [
        ("set_setpoint", Some("31"), InputError::SetpointOutOfRange),
        ("set_setpoint", None, InputError::MissingValue),
        ("set_setpoint", Some("warm"), InputError::InvalidNumber),
        ("set_max_air", Some("101"), InputError::MaxAirOutOfRange),
        ("set_min_air", Some("101"), InputError::MinAirOutOfRange),
        ("set_name", Some("1234567890123456"), InputError::ZoneNameTooLong),
    ];
    for (action, value, error) in cases {
        let refusal = control_zone(&dialect, "work", action, value).unwrap_err();
        assert_eq!(refusal.error, error);
        assert_eq!(refusal.message, error.message());
    }
}

#[test]
fn zone_status_and_temperature() {
    assert_eq!(
        act("living", "status", None),
        Ok(ZoneAction::ShowStatus(QueryRequest { kind: 2, index: 2, secondary: 0 }))
    );
    assert_eq!(
        act("living", "stat", None),
        Ok(ZoneAction::ShowStatus(QueryRequest { kind: 2, index: 2, secondary: 0 }))
    );
    assert_eq!(
        act("rumpus", "temp", None),
        Ok(ZoneAction::ShowTemperature(QueryRequest { kind: 2, index: 7, secondary: 0 }))
    );
}

#[test]
fn zone_mode_switches() {
    assert_eq!(act("kitchen", "open", None), sent(Command::ZoneMode { index: 0, mode: 1 }));
    assert_eq!(act("theatre", "off", None), sent(Command::ZoneMode { index: 1, mode: 2 }));
    assert_eq!(act("living", "on", None), sent(Command::ZoneMode { index: 2, mode: 3 }));
    assert_eq!(act("master", "auto", None), sent(Command::ZoneMode { index: 3, mode: 3 }));
    assert_eq!(act("work", "override", None), sent(Command::ZoneMode { index: 4, mode: 4 }));
    assert_eq!(act("guest", "constant", None), sent(Command::ZoneMode { index: 5, mode: 5 }));
}

#[test]
fn zone_setpoint_is_sent_twice() {
    assert_eq!(
        act("living", "set_setpoint", Some("21")),
        Ok(ZoneAction::Send {
            command: Command::ZoneSetpoint { index: 2, setpoint: 2100 },
            repeat: true,
        })
    );
    assert_eq!(
        act("rayden", "set_setpoint", Some("22.5")),
        Ok(ZoneAction::Send {
            command: Command::ZoneSetpoint { index: 6, setpoint: 2250 },
            repeat: true,
        })
    );
}

#[test]
fn zone_setpoint_boundaries() {
    assert_eq!(act("work", "set_setpoint", Some("14.99")), Err(InputError::SetpointOutOfRange));
    assert_eq!(
        act("work", "set_setpoint", Some("15.00")),
        Ok(ZoneAction::Send {
            command: Command::ZoneSetpoint { index: 4, setpoint: 1500 },
            repeat: true,
        })
    );
    assert_eq!(
        act("work", "set_setpoint", Some("30")),
        Ok(ZoneAction::Send {
            command: Command::ZoneSetpoint { index: 4, setpoint: 3000 },
            repeat: true,
        })
    );
    assert_eq!(act("work", "set_setpoint", Some("30.01")), Err(InputError::SetpointOutOfRange));
    assert_eq!(act("work", "set_setpoint", Some("0")), Err(InputError::SetpointOutOfRange));
    assert_eq!(
        act("work", "set_setpoint", Some("99999999999999999999")),
        Err(InputError::SetpointOutOfRange)
    );
}

#[test]
fn zone_setpoint_needs_a_number() {
    assert_eq!(act("work", "set_setpoint", None), Err(InputError::MissingValue));
    assert_eq!(act("work", "set_setpoint", Some("warm")), Err(InputError::InvalidNumber));
    assert_eq!(act("work", "set_setpoint", Some("")), Err(InputError::InvalidNumber));
    assert_eq!(act("work", "set_setpoint", Some("-20")), Err(InputError::InvalidNumber));
}

#[test]
fn zone_airflow() {
    assert_eq!(
        act("kitchen", "set_max_air", Some("90")),
        sent(Command::ZoneMaxAir { index: 0, max_air: 90 })
    );
    assert_eq!(
        act("kitchen", "set_max_air", Some("100")),
        sent(Command::ZoneMaxAir { index: 0, max_air: 100 })
    );
    assert_eq!(
        act("kitchen", "set_max_air", Some("0")),
        sent(Command::ZoneMaxAir { index: 0, max_air: 0 })
    );
    assert_eq!(act("kitchen", "set_max_air", Some("101")), Err(InputError::MaxAirOutOfRange));
    assert_eq!(act("kitchen", "set_max_air", Some("255")), Err(InputError::MaxAirOutOfRange));
    assert_eq!(act("kitchen", "set_max_air", Some("256")), Err(InputError::InvalidNumber));
    assert_eq!(act("kitchen", "set_max_air", Some("ten")), Err(InputError::InvalidNumber));
    assert_eq!(act("kitchen", "set_max_air", None), Err(InputError::MissingValue));
    assert_eq!(
        act("guest", "set_min_air", Some("5")),
        sent(Command::ZoneMinAir { index: 5, min_air: 5 })
    );
    assert_eq!(act("guest", "set_min_air", Some("101")), Err(InputError::MinAirOutOfRange));
    assert_eq!(act("guest", "set_min_air", Some("5.5")), Err(InputError::InvalidNumber));
    assert_eq!(act("guest", "set_min_air", None), Err(InputError::MissingValue));
}

#[test]
fn zone_name() {
    assert_eq!(
        act("work", "set_name", Some("Study")),
        sent(Command::ZoneName { index: 4, name: "Study".to_string() })
    );
    assert_eq!(
        act("work", "set_name", Some("123456789012345")),
        sent(Command::ZoneName { index: 4, name: "123456789012345".to_string() })
    );
    assert_eq!(
        act("work", "set_name", Some("1234567890123456")),
        Err(InputError::ZoneNameTooLong)
    );
    assert_eq!(
        act("work", "set_name", Some("")),
        sent(Command::ZoneName { index: 4, name: String::new() })
    );
    assert_eq!(act("work", "set_name", None), Err(InputError::MissingValue));
}

#[test]
fn zone_summary_sends_nothing() {
    assert_eq!(act("kitchen", "summary", None), Ok(ZoneAction::Nothing));
}

#[test]
fn unknown_zone_action() {
    assert_eq!(act("kitchen", "fly", None), Err(InputError::UnknownZoneAction));
    assert_eq!(act("kitchen", "", None), Err(InputError::UnknownZoneAction));
    assert_eq!(act("kitchen", "ON", None), Err(InputError::UnknownZoneAction));
    assert_eq!(act("kitchen", "set-setpoint", Some("22")), Err(InputError::UnknownZoneAction));
}

#[test]
fn zone_queries() {
    let dialect = Dialect::current();
    assert_eq!(
        get_zone_status(&dialect, "master"),
        Ok(QueryRequest { kind: 2, index: 3, secondary: 0 })
    );
    assert_eq!(
        get_zone_temperature(&dialect, "guest"),
        Ok(QueryRequest { kind: 2, index: 5, secondary: 0 })
    );
    for refusal in [
        get_zone_status(&dialect, "attic").unwrap_err(),
        get_zone_temperature(&dialect, "attic").unwrap_err(),
    ] {
        assert_eq!(refusal.error, InputError::UnknownZone);
        assert_eq!(
            refusal.message,
            format!("Unknown zone 'attic'.\nAvailable zones: {}", ALL_ZONES)
        );
    }
}

#[test]
fn zone_queries_follow_the_dialect() {
    let older = Dialect { system_kind: 1, zone_kind: 3, schedule_kind: 2 };
    assert_eq!(
        get_zone_status(&older, "master"),
        Ok(QueryRequest { kind: 3, index: 3, secondary: 0 })
    );
    assert_eq!(
        control_zone(&older, "work", "temp", None),
        Ok(ZoneAction::ShowTemperature(QueryRequest { kind: 3, index: 4, secondary: 0 }))
    );
}

#[test]
fn summary_queries_every_zone() {
    let queries = get_all_zones_summary(&Dialect::current());
    assert_eq!(queries.len(), 8);
    for (index, query) in queries.iter().enumerate() {
        assert_eq!(*query, QueryRequest { kind: 2, index: index as u8, secondary: 0 });
    }
}
