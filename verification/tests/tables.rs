use colored::control::set_override;
use izone::models::{
    DaysEnabled, ScheduleCoolbreezeSettings, ScheduleZoneSettings, SchedulesV2, ZonesV2,
};
use izone::json::{Json, Member};
use izone::status::{schedule_status, show_system_status, zone_status};
use izone::tables::{
    labelled_text, number_with_unit, row, schedule_summary_line, schedule_table,
    schedules_summary_table, system_table, with_unit, zone_error_line, zone_summary_line,
    zone_table, zones_summary_table, Entry, Table,
};

fn object(members: Vec<(&str, Json)>) -> Json {
    Json::Object(
        members
            .into_iter()
            .map(|(key, value)| Member { key: key.to_string(), value })
            .collect(),
    )
}

fn system() -> Json {
    object(vec![(
        "SystemV2",
        object(vec![
            ("SysOn", Json::Int(1)),
            ("SysMode", Json::Int(1)),
            ("Temp", Json::Int(2150)),
            ("Setpoint", Json::Int(2200)),
            ("SysFan", Json::Int(2)),
            ("ACError", Json::Str("OK".to_string())),
        ]),
    )])
}

fn zone(name: &str) -> ZonesV2 {
    ZonesV2 {
        name: name.to_string(),
        mode: 3,
        setpoint: 2300,
        temp: 2245,
        damper_pos: 60,
        zone_type: 3,
        sens_type: 9,
        max_air: 100,
        min_air: 10,
        constant: 0,
        constant_a: 1,
        master: 0,
        damper_fault: 1,
        sensor_fault: 0,
        damper_skip: 0,
        isense: 0,
        calibration: 2,
        rf_signal: 80,
        batt_volt: 0,
        area: 25,
        bypass: 0,
        balance_max: 100,
        balance_min: 5,
    }
}

fn schedule() -> SchedulesV2 {
    SchedulesV2 {
        airstream_device_uid: None,
        index: 2,
        name: "Weekdays".to_string(),
        active: true,
        mode: Some(1),
        fan: Some(4),
        start_h: Some(8),
        start_m: Some(5),
        stop_h: Some(31),
        stop_m: Some(63),
        days_enabled: DaysEnabled {
            monday: true,
            tuesday: false,
            wednesday: false,
            thursday: false,
            friday: true,
            saturday: false,
            sunday: false,
        },
        coolbreeze: None,
        zones: None,
    }
}

#[test]
fn entries() {
    assert_eq!(
        row("Mode:", "Cool"),
        Entry::Row { label: "Mode:".to_string(), value: "Cool".to_string() }
    );
    assert_eq!(labelled_text("Mode:", 8, "Cool"), Entry::Text("Mode:    Cool".to_string()));
    assert_eq!(labelled_text("A long label", 4, "x"), Entry::Text("A long label x".to_string()));
    assert_eq!(with_unit("21.5", "°C"), "21.5°C");
    assert_eq!(number_with_unit(60, "%"), "60%");
    assert_eq!(number_with_unit(0, ""), "0");
    assert_eq!(number_with_unit(u32::MAX, " m²"), "4294967295 m²");
}

#[test]
fn lines_of_a_table() {
    let table = Table {
        title: "T".to_string(),
        width: 12,
        label_width: 4,
        entries: vec![
            row("A:", "1"),
            Entry::Rule,
            Entry::Heading("MORE".to_string()),
            Entry::Text("text".to_string()),
        ],
    };
    assert_eq!(
        table.lines(),
        vec![
            "╔════════════╗",
            "║     T      ║",
            "╠════════════╣",
            "║ A:       1 ║",
            "╠════════════╣",
            "║    MORE    ║",
            "║ text       ║",
            "╚════════════╝",
        ]
    );
    let empty = Table { title: String::new(), width: 2, label_width: 0, entries: vec![] };
    assert_eq!(empty.lines(), vec!["╔══╗", "║  ║", "╠══╣", "╚══╝"]);
}

#[test]
fn system_status_table() {
    set_override(false);
    let (_, status) = show_system_status(&system()).unwrap();
    assert_eq!(
        system_table(&status).lines(),
        vec![
            "╔═════════════════════════════════════════════╗",
            "║                AIRCON STATUS                ║",
            "╠═════════════════════════════════════════════╣",
            "║ Aircon Power:            ON                 ║",
            "║ Mode:                    Cool               ║",
            "║ Fan Speed:               Medium             ║",
            "║ Target Setpoint:         22.0°C             ║",
            "║ Controller Temperature:  21.5°C             ║",
            "║ System Check Status:    OK                  ║",
            "╚═════════════════════════════════════════════╝",
        ]
    );
}

fn expected_row(label: &str, value: &str) -> String {
    format!("║ {:<20}{:>38} ║", label, value)
}

#[test]
fn zone_status_table() {
    set_override(false);
    let record = zone("Living Room");
    let table = zone_table("LIVING", &record, &zone_status(&record));
    assert_eq!(table.title, "ZONE STATUS: LIVING");
    assert_eq!(table.width, 60);
    assert_eq!(table.label_width, 20);
    let lines = table.lines();
    assert_eq!(lines.len(), 27);
    assert_eq!(lines[3], expected_row("Name:", "Living Room"));
    assert_eq!(lines[4], expected_row("Mode:", "CLIMATE"));
    assert_eq!(lines[5], expected_row("Current Temperature:", "22.4°C"));
    assert_eq!(lines[6], expected_row("Setpoint:", "23.0°C"));
    assert_eq!(lines[7], expected_row("Damper Position:", "60%"));
    assert_eq!(lines[8], expected_row("Zone Type:", "Auto"));
    assert_eq!(lines[9], expected_row("Sensor Type:", "9"));
    assert_eq!(lines[10], expected_row("Max Air:", "100%"));
    assert_eq!(lines[11], expected_row("Min Air:", "10%"));
    assert_eq!(lines[12], expected_row("Constant:", "0"));
    assert_eq!(lines[13], expected_row("Constant Air:", "1"));
    assert_eq!(lines[14], expected_row("Master:", "0"));
    assert_eq!(lines[15], expected_row("Damper Fault:", "1"));
    assert_eq!(lines[16], expected_row("Sensor Fault:", "OK"));
    assert_eq!(lines[17], expected_row("Damper Skip:", "0"));
    assert_eq!(lines[18], expected_row("Isense:", "0"));
    assert_eq!(lines[19], expected_row("Calibration:", "2"));
    assert_eq!(lines[20], expected_row("RF Signal:", "80%"));
    assert_eq!(lines[21], expected_row("Battery Voltage:", "0V"));
    assert_eq!(lines[22], expected_row("Area:", "25"));
    assert_eq!(lines[23], expected_row("Bypass:", "0"));
    assert_eq!(lines[24], expected_row("Balance Max:", "100%"));
    assert_eq!(lines[25], expected_row("Balance Min:", "5%"));
    for line in &lines {
        assert_eq!(line.chars().count(), 62);
    }
}

#[test]
fn schedule_status_table() {
    set_override(false);
    let record = schedule();
    let table = schedule_table(&record, &schedule_status(&record));
    assert_eq!(table.title, "SCHEDULE STATUS: 2");
    let lines = table.lines();
    assert_eq!(lines.len(), 12);
    assert!(lines[3].starts_with("║ Name:"));
    assert!(lines[3].ends_with("Weekdays ║"));
    assert!(lines[4].ends_with(" 2 ║"));
    assert!(lines[5].ends_with(" Yes ║"));
    assert!(lines[6].ends_with(" Cool ║"));
    assert!(lines[7].ends_with(" Auto ║"));
    assert!(lines[8].ends_with(" 08:05 ║"));
    assert!(lines[9].ends_with(" N/A ║"));
    assert!(lines[10].ends_with(" M:✓ Tu:x W:x Th:x F:✓ Sa:x Su:x ║"));
    for line in &lines {
        assert_eq!(line.chars().count(), 77);
    }
}

#[test]
fn schedule_status_table_with_sections() {
    set_override(false);
    let mut record = schedule();
    record.coolbreeze =
        Some(ScheduleCoolbreezeSettings { unit_setpoint: 2400, fan_speed: 70, rh_setpoint: 50 });
    record.zones = Some(vec![
        ScheduleZoneSettings { mode: 3, setpoint: 2250 },
        ScheduleZoneSettings { mode: 9, setpoint: 1500 },
    ]);
    let lines = schedule_table(&record, &schedule_status(&record)).lines();
    assert_eq!(lines.len(), 23);
    assert!(lines[11].starts_with("╠"));
    assert_eq!(lines[12].trim_matches(|c| c == '║' || c == ' '), "COOLBREEZE SETTINGS");
    assert!(lines[13].starts_with("╠"));
    assert!(lines[14].starts_with("║ Unit Setpoint:"));
    assert!(lines[14].ends_with(" 24.0 ║"));
    assert!(lines[15].ends_with(" 70% ║"));
    assert!(lines[16].ends_with(" 50% ║"));
    assert_eq!(lines[18].trim_matches(|c| c == '║' || c == ' '), "ZONE SETTINGS");
    assert!(lines[20].starts_with("║ Zone 0:"));
    assert!(lines[20].ends_with(" Mode:Vent Setpoint:22.5°C ║"));
    assert!(lines[21].starts_with("║ Zone 1:"));
    assert!(lines[21].ends_with(" Mode:Mode(9) Setpoint:15.0°C ║"));
    assert!(lines[22].starts_with("╚"));
}

#[test]
fn schedule_with_an_empty_list_of_zones_has_the_section() {
    set_override(false);
    let mut record = schedule();
    record.zones = Some(vec![]);
    let lines = schedule_table(&record, &schedule_status(&record)).lines();
    assert_eq!(lines.len(), 15);
    assert_eq!(lines[12].trim_matches(|c| c == '║' || c == ' '), "ZONE SETTINGS");
}

#[test]
fn zone_summary() {
    set_override(false);
    let record = zone("Living Room");
    assert_eq!(
        zone_summary_line(&record, &zone_status(&record)),
        format!(
            "{:<15} {:<10} {:<10} {:<10} {:<10} {:<10} {:<25}",
            "Living_Room", "CLIMATE", "22.4°C", "23.0°C", "60%", "100%", "DmpFlt LowBatt"
        )
    );
    let table = zones_summary_table(&vec!["one".to_string(), "two".to_string()]);
    assert_eq!(table.title, "ZONE SUMMARY");
    assert_eq!(table.width, 98);
    let lines = table.lines();
    assert_eq!(lines.len(), 8);
    assert_eq!(
        lines[3],
        format!(
            "║ {:<15} {:<10} {:<10} {:<10} {:<10} {:<10} {:<25} ║",
            "ZONE", "MODE", "TEMP", "SETPOINT", "DAMPER", "MAX AIR", "STATUS"
        )
    );
    assert!(lines[4].starts_with("╠"));
    assert!(lines[5].starts_with("║ one "));
    assert!(lines[6].starts_with("║ two "));
    for line in &lines {
        assert_eq!(line.chars().count(), 100);
    }
    assert_eq!(zones_summary_table(&vec![]).lines().len(), 6);
}

#[test]
fn zone_summary_of_a_healthy_zone() {
    set_override(false);
    let mut record = zone("Work");
    record.damper_fault = 0;
    record.batt_volt = 3;
    assert!(zone_summary_line(&record, &zone_status(&record)).trim_end().ends_with(" Ok"));
}

#[test]
fn schedule_summary() {
    set_override(false);
    let record = schedule();
    assert_eq!(
        schedule_summary_line(&record, &schedule_status(&record)),
        format!(
            "{:<5} {:<15} {:<8} {:<10} {:<10} {:<41}",
            "2", "Weekdays", "ON", "08:05", "N/A", "Mon, Fri"
        )
    );
    let lines = schedules_summary_table(&vec!["row".to_string()]).lines();
    assert_eq!(lines.len(), 7);
    assert_eq!(
        lines[3],
        format!(
            "║ {:<5} {:<15} {:<8} {:<10} {:<10} {:<41} ║",
            "Idx", "Name", "Active", "Start", "Stop", "Days"
        )
    );
    for line in &lines {
        assert_eq!(line.chars().count(), 98);
    }
}

#[test]
fn schedule_summary_without_schedules() {
    let lines = schedules_summary_table(&vec![]).lines();
    assert_eq!(lines.len(), 5);
    assert_eq!(lines[3].trim_matches(|c| c == '║' || c == ' '), "No schedules configured.");
}

#[test]
fn zone_error_lines() {
    set_override(false);
    assert_eq!(
        zone_error_line("kitchen", "no answer"),
        format!("{:<15} ERROR: {}", "kitchen", "no answer")
    );
    assert_eq!(zone_error_line("a zone with a long name", ""), "a zone with a long name ERROR: ");
    assert_eq!(zone_error_line("", "x"), format!("{:<15} ERROR: x", ""));
}
