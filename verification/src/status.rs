//! What is shown of the records that the controller reports: the texts
//! that stand for codes, flags, temperatures and times.

use crate::codec::{
    format_schedule_time, format_temp, lemma_temp_text_chars, temp_text, time_text,
};
use crate::helpers::{
    battery_tint, escape_free, fan_speed_label, get_battery_level_text, get_colored_system_mode,
    get_colored_zone_mode, get_fan_speed_text, get_sensor_fault_text, get_zone_type_text,
    lemma_fan_speed_label_escape_free, paint, sensor_fault_label, sensor_fault_tint, shows,
    shows_in, system_mode_label, system_mode_tint, zone_mode_label, zone_mode_tint,
    zone_type_label, Tint, ESCAPE,
};
use crate::commands::notices::{
    capitalised, get_system_temperature, get_zone_temperature, zone_title,
};
use crate::json::{child_or_empty, int_value, DecodeError, Json};
use crate::models::{
    DaysEnabled, ScheduleZoneSettings, SchedulesResponseWrapper, SchedulesV2, SystemV2,
    SystemV2Response, ZonesV2, ZonesV2Response,
};
use crate::notice::{renders, tinted, words, Line, Notice, Piece};
use crate::text::{chars_of, decimal_text, is_digit, push_char, same_text};
use vstd::prelude::*;
use vstd::string::StringExecFns;

verus! {

/// A text without the white space at its two ends, as `str::trim` gives it.
pub uninterp spec fn trimmed(s: Seq<char>) -> Seq<char>;

/// Removes the white space at both ends of a text with `str::trim`, which
/// takes white space as Unicode defines it.
#[verifier::external_body]
fn trim(s: &str) -> (r: String)
    ensures
        r@ == trimmed(s@),
{
    s.trim().to_string()
}

/// The colour for the system's own check, given what it reports: green for
/// "OK", red for anything else.
pub open spec fn check_tint_of(report: Seq<char>) -> Tint {
    if report == "OK"@ {
        Tint::Green
    } else {
        Tint::Red
    }
}

/// The colour for the system's own check, given what it reports with the
/// white space at its ends removed.
pub fn check_tint(report: &str) -> (r: Tint)
    ensures
        r == check_tint_of(report@),
{
    if same_text(report, "OK") {
        Tint::Green
    } else {
        Tint::Red
    }
}

/// The colour for what the system's own check reports: green where the
/// report is "OK", as it stands or once the white space at its ends is
/// removed, and red for anything else.
pub open spec fn report_tint(report: Seq<char>) -> Tint {
    if report == "OK"@ {
        Tint::Green
    } else {
        check_tint_of(trimmed(report))
    }
}

/// The colour for what the system's own check reports.
pub fn tint_of_report(report: &str) -> (r: Tint)
    ensures
        r == report_tint(report@),
{
    if same_text(report, "OK") {
        Tint::Green
    } else {
        let bare = trim(report);
        check_tint(bare.as_str())
    }
}

/// What is shown of the system's state.
#[derive(Debug)]
pub struct SystemStatus {
    /// "ON" in green or "OFF" in red.
    pub power: String,
    /// The name of the mode, in its colour.
    pub mode: String,
    /// The name of the fan speed, in cyan.
    pub fan: String,
    /// The setpoint, in degrees.
    pub setpoint: String,
    /// The temperature at the controller, in degrees, in cyan.
    pub temperature: String,
    /// What the system's own check reports: in green where it is "OK", else
    /// in red.
    pub check: String,
}

/// What is shown for the power of the system.
pub open spec fn power_label(on: bool) -> Seq<char> {
    if on {
        "ON"@
    } else {
        "OFF"@
    }
}

/// The colour that the power of the system is shown in.
pub open spec fn power_tint(on: bool) -> Tint {
    if on {
        Tint::Green
    } else {
        Tint::Red
    }
}

impl SystemStatus {
    /// Every text shows what `system` holds.
    pub open spec fn describes(self, system: SystemV2) -> bool {
        &&& shows(self.power@, power_tint(system.sys_on), power_label(system.sys_on))
        &&& shows_in(
            self.mode@,
            system_mode_tint(system.sys_mode),
            system_mode_label(system.sys_mode),
        )
        &&& shows(self.fan@, Tint::Cyan, fan_speed_label(system.sys_fan))
        &&& self.setpoint@ == temp_text(system.setpoint as nat)
        &&& shows(self.temperature@, Tint::Cyan, temp_text(system.temp as nat))
        &&& escape_free(system.ac_error@) ==> shows(
            self.check@,
            report_tint(system.ac_error@),
            system.ac_error@,
        )
    }
}

/// A displayed temperature holds no escape character.
pub proof fn lemma_temp_text_escape_free(raw: nat)
    ensures
        escape_free(temp_text(raw)),
{
    lemma_temp_text_chars(raw);
    let text = temp_text(raw);
    assert forall|i: int| 0 <= i < text.len() implies #[trigger] text[i] != ESCAPE by {
        assert(is_digit(text[i]) || text[i] == '.');
    }
}

/// A temperature in degrees, in the given colour.
pub fn coloured_temp(raw: u32, tint: Tint) -> (r: String)
    ensures
        shows(r@, tint, temp_text(raw as nat)),
{
    let plain = format_temp(raw);
    proof {
        lemma_temp_text_escape_free(raw as nat);
    }
    paint(plain.as_str(), tint)
}

/// The texts that are shown of the system's state.
pub fn system_status(system: &SystemV2) -> (r: SystemStatus)
    ensures
        r.describes(*system),
{
    proof {
        reveal_strlit("ON");
        reveal_strlit("OFF");
        lemma_fan_speed_label_escape_free(system.sys_fan);
    }
    let power = if system.sys_on {
        paint("ON", Tint::Green)
    } else {
        paint("OFF", Tint::Red)
    };
    let fan_name = get_fan_speed_text(system.sys_fan);
    let tint = tint_of_report(system.ac_error.as_str());
    SystemStatus {
        power,
        mode: get_colored_system_mode(system.sys_mode),
        fan: paint(fan_name.as_str(), Tint::Cyan),
        setpoint: format_temp(system.setpoint),
        temperature: coloured_temp(system.temp, Tint::Cyan),
        check: paint(system.ac_error.as_str(), tint),
    }
}

/// Decodes the answer to a query for the system and gives what is shown
/// of it.
pub fn show_system_status(response: &Json) -> (r: Result<(SystemV2Response, SystemStatus), DecodeError>)
    ensures
        match SystemV2Response::fault(response@) {
            Some(e) => r == Err::<(SystemV2Response, SystemStatus), DecodeError>(e),
            None => r is Ok && r->Ok_0.0.reflects(response@) && r->Ok_0.1.describes(
                r->Ok_0.0.system_v2,
            ),
        },
{
    let decoded = SystemV2Response::decode(response)?;
    let status = system_status(&decoded.system_v2);
    Ok((decoded, status))
}

/// Decodes the answer to a query for the system and gives what is shown of
/// the temperature at the controller.
pub fn show_system_temperature(response: &Json) -> (r: Result<Notice, DecodeError>)
    ensures
        match SystemV2Response::fault(response@) {
            Some(e) => r == Err::<Notice, DecodeError>(e),
            None => r is Ok && r->Ok_0.says(
                Some(("Controller Temperature"@, 45usize)),
                seq![
                    words("Current Controller Temperature: "@),
                    tinted(
                        temp_text(int_value(child_or_empty(response@, "SystemV2"@), "Temp"@) as nat),
                        Tint::Cyan,
                    ),
                    words("°C"@),
                ],
            ),
        },
{
    let decoded = SystemV2Response::decode(response)?;
    Ok(get_system_temperature(decoded.system_v2.temp))
}

/// What is shown of a zone's state, besides its plain numbers.
#[derive(Debug)]
pub struct ZoneStatus {
    /// The name of the mode, in its colour.
    pub mode: String,
    /// The temperature in the zone, in degrees.
    pub temperature: String,
    /// The setpoint, in degrees.
    pub setpoint: String,
    /// The name of the zone's type.
    pub zone_type: String,
    /// The battery level, in red where it is low.
    pub battery: String,
    /// "OK" in green, or the sensor's fault in red.
    pub sensor_fault: String,
    /// The temperature in the zone with its unit, in cyan.
    pub temperature_shown: String,
    /// What needs attention in the zone, in red, or "Ok" in green.
    pub state: String,
}

/// How what needs attention is said: every alert in red, with a space
/// between two of them.
pub open spec fn alerts_said(alerts: Seq<ZoneAlert>) -> Seq<Piece>
    decreases alerts.len(),
{
    if alerts.len() == 0 {
        Seq::empty()
    } else if alerts.len() == 1 {
        seq![tinted(alerts[0].label(), Tint::Red)]
    } else {
        alerts_said(alerts.drop_last()).push(words(" "@)).push(
            tinted(alerts.last().label(), Tint::Red),
        )
    }
}

/// How the state of a zone is said in a summary: what needs attention,
/// or a green "Ok" where nothing does.
pub open spec fn state_said(zone: ZonesV2) -> Seq<Piece> {
    if alerts_of(zone).len() == 0 {
        seq![tinted("Ok"@, Tint::Green)]
    } else {
        alerts_said(alerts_of(zone))
    }
}

impl ZoneStatus {
    /// Every text shows what `zone` holds.
    pub open spec fn describes(self, zone: ZonesV2) -> bool {
        &&& shows_in(self.mode@, zone_mode_tint(zone.mode), zone_mode_label(zone.mode))
        &&& renders(
            self.temperature_shown@,
            seq![tinted(temp_text(zone.temp as nat) + "°C"@, Tint::Cyan)],
        )
        &&& renders(self.state@, state_said(zone))
        &&& self.temperature@ == temp_text(zone.temp as nat)
        &&& self.setpoint@ == temp_text(zone.setpoint as nat)
        &&& self.zone_type@ == zone_type_label(zone.zone_type)
        &&& shows_in(
            self.battery@,
            battery_tint(zone.batt_volt),
            decimal_text(zone.batt_volt as nat),
        )
        &&& shows(
            self.sensor_fault@,
            sensor_fault_tint(zone.sensor_fault),
            sensor_fault_label(zone.sensor_fault),
        )
    }
}

/// The texts that are shown of a zone's state.
pub fn zone_status(zone: &ZonesV2) -> (r: ZoneStatus)
    ensures
        r.describes(*zone),
{
    let mut with_unit = format_temp(zone.temp);
    with_unit.append("°C");
    let mut shown = Line::new();
    shown.say_in(with_unit.as_str(), Tint::Cyan);
    assert(shown.pieces@ =~= seq![tinted(temp_text(zone.temp as nat) + "°C"@, Tint::Cyan)]);
    ZoneStatus {
        mode: get_colored_zone_mode(zone.mode),
        temperature: format_temp(zone.temp),
        setpoint: format_temp(zone.setpoint),
        zone_type: get_zone_type_text(zone.zone_type),
        battery: get_battery_level_text(zone.batt_volt),
        sensor_fault: get_sensor_fault_text(zone.sensor_fault),
        temperature_shown: shown.text,
        state: zone_state(zone),
    }
}

/// What is shown for the state of a zone in a summary.
pub fn zone_state(zone: &ZonesV2) -> (r: String)
    ensures
        renders(r@, state_said(*zone)),
{
    let alerts = zone_alerts(zone);
    let mut line = Line::new();
    if alerts.len() == 0 {
        line.say_in("Ok", Tint::Green);
        assert(line.pieces@ =~= state_said(*zone));
        return line.text;
    }
    say_alert(&mut line, &alerts[0]);
    assert(alerts@.take(1).len() == 1 && alerts@.take(1)[0] == alerts@[0]);
    assert(line.pieces@ =~= alerts_said(alerts@.take(1)));
    let mut i: usize = 1;
    while i < alerts.len()
        invariant
            1 <= i <= alerts.len(),
            line.wf(),
            line.pieces@ == alerts_said(alerts@.take(i as int)),
        decreases alerts.len() - i,
    {
        line.say(" ");
        say_alert(&mut line, &alerts[i]);
        proof {
            let next = alerts@.take(i + 1);
            assert(next.drop_last() == alerts@.take(i as int));
            assert(next.last() == alerts@[i as int]);
        }
        i += 1;
    }
    assert(alerts@.take(i as int) == alerts@);
    line.text
}

fn say_alert(line: &mut Line, alert: &ZoneAlert)
    requires
        old(line).wf(),
    ensures
        final(line).wf(),
        final(line).pieces@ == old(line).pieces@.push(tinted(alert.label(), Tint::Red)),
{
    match alert {
        ZoneAlert::DamperFault => line.say_in("DmpFlt", Tint::Red),
        ZoneAlert::SensorFault => line.say_in("Sensor Fault", Tint::Red),
        ZoneAlert::LowBattery => line.say_in("LowBatt", Tint::Red),
    }
}

/// Decodes the answer to a query for a zone and gives what is shown of it.
pub fn show_zone_status(response: &Json) -> (r: Result<(ZonesV2Response, ZoneStatus), DecodeError>)
    ensures
        match ZonesV2Response::fault(response@) {
            Some(e) => r == Err::<(ZonesV2Response, ZoneStatus), DecodeError>(e),
            None => r is Ok && r->Ok_0.0.reflects(response@) && r->Ok_0.1.describes(
                r->Ok_0.0.zones_v2,
            ),
        },
{
    let decoded = ZonesV2Response::decode(response)?;
    let status = zone_status(&decoded.zones_v2);
    Ok((decoded, status))
}

/// Decodes the answer to a query for a zone and gives what is shown of the
/// temperature in the zone; `zone_name` is the name by which the zone was
/// asked for.
pub fn show_zone_temperature(response: &Json, zone_name: &str) -> (r: Result<Notice, DecodeError>)
    ensures
        match ZonesV2Response::fault(response@) {
            Some(e) => r == Err::<Notice, DecodeError>(e),
            None => r is Ok && r->Ok_0.says(
                Some((zone_title("Zone Temperature: "@, zone_name@), 56usize)),
                seq![
                    words(capitalised(zone_name@)),
                    words(" Room Temperature: "@),
                    tinted(
                        temp_text(int_value(child_or_empty(response@, "ZonesV2"@), "Temp"@) as nat),
                        Tint::Cyan,
                    ),
                    words("°C"@),
                ],
            ),
        },
{
    let decoded = ZonesV2Response::decode(response)?;
    Ok(get_zone_temperature(zone_name, decoded.zones_v2.temp))
}

/// Something about a zone that needs attention.
#[derive(Clone, Copy, Debug, PartialEq, Eq, Structural)]
pub enum ZoneAlert {
    /// The damper reports a fault.
    DamperFault,
    /// The sensor reports a fault.
    SensorFault,
    /// The battery of a wireless sensor is low.
    LowBattery,
}

/// The code of the sensor type that runs on a battery.
pub const WIRELESS_SENSOR: u8 = 9;

/// What needs attention in a zone: a damper fault first, then a sensor
/// fault, then a low battery, which counts only for a wireless sensor.
pub open spec fn alerts_of(zone: ZonesV2) -> Seq<ZoneAlert> {
    let damper = if zone.damper_fault == 1 {
        seq![ZoneAlert::DamperFault]
    } else {
        Seq::<ZoneAlert>::empty()
    };
    let sensor = if zone.sensor_fault == 1 {
        seq![ZoneAlert::SensorFault]
    } else {
        Seq::<ZoneAlert>::empty()
    };
    let battery = if zone.batt_volt == 0 && zone.sens_type == WIRELESS_SENSOR {
        seq![ZoneAlert::LowBattery]
    } else {
        Seq::<ZoneAlert>::empty()
    };
    damper + sensor + battery
}

/// What needs attention in a zone.
pub fn zone_alerts(zone: &ZonesV2) -> (r: Vec<ZoneAlert>)
    ensures
        r@ == alerts_of(*zone),
{
    let mut alerts: Vec<ZoneAlert> = Vec::new();
    if zone.damper_fault == 1 {
        alerts.push(ZoneAlert::DamperFault);
    }
    if zone.sensor_fault == 1 {
        alerts.push(ZoneAlert::SensorFault);
    }
    if zone.batt_volt == 0 && zone.sens_type == WIRELESS_SENSOR {
        alerts.push(ZoneAlert::LowBattery);
    }
    assert(alerts@ =~= alerts_of(*zone));
    alerts
}

impl ZoneAlert {
    /// What is shown for this alert.
    pub open spec fn label(self) -> Seq<char> {
        match self {
            ZoneAlert::DamperFault => "DmpFlt"@,
            ZoneAlert::SensorFault => "Sensor Fault"@,
            ZoneAlert::LowBattery => "LowBatt"@,
        }
    }

    /// What is shown for this alert, in red.
    pub fn text(&self) -> (r: String)
        ensures
            shows(r@, Tint::Red, self.label()),
    {
        proof {
            reveal_strlit("DmpFlt");
            reveal_strlit("Sensor Fault");
            reveal_strlit("LowBatt");
        }
        match self {
            ZoneAlert::DamperFault => paint("DmpFlt", Tint::Red),
            ZoneAlert::SensorFault => paint("Sensor Fault", Tint::Red),
            ZoneAlert::LowBattery => paint("LowBatt", Tint::Red),
        }
    }
}

/// A name with an underscore in the place of every space, so that it
/// stays one word in a table.
pub open spec fn underscored(name: Seq<char>) -> Seq<char> {
    Seq::new(
        name.len(),
        |i: int|
            if name[i] == ' ' {
                '_'
            } else {
                name[i]
            },
    )
}

/// A name with an underscore in the place of every space.
pub fn name_for_table(name: &str) -> (r: String)
    ensures
        r@ == underscored(name@),
{
    let chars = chars_of(name);
    let mut out = String::new();
    let mut i: usize = 0;
    while i < chars.len()
        invariant
            chars@ == name@,
            i <= chars.len(),
            out@ == underscored(name@).take(i as int),
        decreases chars.len() - i,
    {
        let c = if chars[i] == ' ' {
            '_'
        } else {
            chars[i]
        };
        push_char(&mut out, c);
        assert(out@ =~= underscored(name@).take(i + 1));
        i += 1;
    }
    assert(underscored(name@).take(i as int) == underscored(name@));
    out
}

/// `names`, and after them `name` where the day is set.
pub open spec fn with_day(names: Seq<Seq<char>>, set: bool, name: Seq<char>) -> Seq<Seq<char>> {
    if set {
        names.push(name)
    } else {
        names
    }
}

/// The short names of the days that are set, in the order of the week.
pub open spec fn day_names(days: DaysEnabled) -> Seq<Seq<char>> {
    let names = Seq::<Seq<char>>::empty();
    let names = with_day(names, days.monday, "Mon"@);
    let names = with_day(names, days.tuesday, "Tue"@);
    let names = with_day(names, days.wednesday, "Wed"@);
    let names = with_day(names, days.thursday, "Thu"@);
    let names = with_day(names, days.friday, "Fri"@);
    let names = with_day(names, days.saturday, "Sat"@);
    let names = with_day(names, days.sunday, "Sun"@);
    names
}

/// The texts, separated by `", "`.
pub open spec fn listed(parts: Seq<Seq<char>>) -> Seq<char>
    decreases parts.len(),
{
    if parts.len() == 0 {
        Seq::empty()
    } else if parts.len() == 1 {
        parts[0]
    } else {
        listed(parts.drop_last()) + ", "@ + parts.last()
    }
}

/// How the days of a schedule are listed: by their short names, or
/// "None" where no day is set.
pub open spec fn days_text(days: DaysEnabled) -> Seq<char> {
    if day_names(days).len() == 0 {
        "None"@
    } else {
        listed(day_names(days))
    }
}

/// Adds the name of a day to a list that holds `count` names so far, where
/// the day is set.
fn list_day(out: &mut String, count: &mut u8, set: bool, name: &str, Ghost(names): Ghost<
    Seq<Seq<char>>,
>)
    requires
        old(out)@ == listed(names),
        *old(count) == names.len(),
        names.len() < 7,
    ensures
        final(out)@ == listed(with_day(names, set, name@)),
        *final(count) == with_day(names, set, name@).len(),
{
    if set {
        if *count > 0 {
            out.append(", ");
        }
        out.append(name);
        *count = *count + 1;
        proof {
            let next = names.push(name@);
            assert(next.drop_last() == names);
            assert(next.last() == name@);
            if names.len() == 0 {
                assert(out@ =~= name@);
            }
        }
    }
}

/// Lists the days on which a schedule runs, e.g. "Mon, Wed, Fri".
pub fn format_days(days: &DaysEnabled) -> (r: String)
    ensures
        r@ == days_text(*days),
{
    let mut out = String::new();
    let mut count: u8 = 0;
    let ghost names = Seq::<Seq<char>>::empty();
    list_day(&mut out, &mut count, days.monday, "Mon", Ghost(names));
    let ghost names = with_day(names, days.monday, "Mon"@);
    list_day(&mut out, &mut count, days.tuesday, "Tue", Ghost(names));
    let ghost names = with_day(names, days.tuesday, "Tue"@);
    list_day(&mut out, &mut count, days.wednesday, "Wed", Ghost(names));
    let ghost names = with_day(names, days.wednesday, "Wed"@);
    list_day(&mut out, &mut count, days.thursday, "Thu", Ghost(names));
    let ghost names = with_day(names, days.thursday, "Thu"@);
    list_day(&mut out, &mut count, days.friday, "Fri", Ghost(names));
    let ghost names = with_day(names, days.friday, "Fri"@);
    list_day(&mut out, &mut count, days.saturday, "Sat", Ghost(names));
    let ghost names = with_day(names, days.saturday, "Sat"@);
    list_day(&mut out, &mut count, days.sunday, "Sun", Ghost(names));
    if count == 0 {
        String::from_str("None")
    } else {
        out
    }
}

/// What is shown of a schedule's state, besides its plain fields.
#[derive(Debug)]
pub struct ScheduleStatus {
    /// "Yes" in green or "No" in red.
    pub active: String,
    /// The name of the system mode, in its colour; a schedule without a
    /// mode shows the mode of code 0.
    pub mode: String,
    /// The name of the fan speed; a schedule without one shows the speed
    /// of code 0.
    pub fan: String,
    /// The time at which the schedule starts, or "N/A".
    pub start: String,
    /// The time at which the schedule stops, or "N/A".
    pub stop: String,
    /// The days on which the schedule runs.
    pub days: String,
    /// The days on which the schedule runs, in cyan.
    pub days_shown: String,
    /// Every day of the week with a mark: a green tick where the schedule
    /// runs, a red cross where it does not.
    pub day_marks: String,
    /// "ON" in green or "OFF" in red.
    pub switch: String,
    /// What the schedule sets for each zone: the mode in its colour, and
    /// the setpoint in degrees.
    pub zones: Vec<String>,
}

/// The mark for a day: a green tick or a red cross.
pub open spec fn day_mark(set: bool) -> Piece {
    if set {
        tinted("✓"@, Tint::Green)
    } else {
        tinted("x"@, Tint::Red)
    }
}

/// How the days of a week are shown with their marks.
pub open spec fn marks_said(days: DaysEnabled) -> Seq<Piece> {
    seq![
        words("M:"@),
        day_mark(days.monday),
        words(" Tu:"@),
        day_mark(days.tuesday),
        words(" W:"@),
        day_mark(days.wednesday),
        words(" Th:"@),
        day_mark(days.thursday),
        words(" F:"@),
        day_mark(days.friday),
        words(" Sa:"@),
        day_mark(days.saturday),
        words(" Su:"@),
        day_mark(days.sunday),
    ]
}

/// How what a schedule sets for a zone is shown: the name of the mode, in
/// the words and colours of the system modes, and the setpoint.
pub open spec fn setting_said(setting: ScheduleZoneSettings) -> Seq<Piece> {
    seq![
        words("Mode:"@),
        Piece { text: system_mode_label(setting.mode), tint: system_mode_tint(setting.mode) },
        words(" Setpoint:"@),
        words(temp_text(setting.setpoint as nat)),
        words("°C"@),
    ]
}

/// The settings for the zones that a schedule holds; none where it holds no list.
pub open spec fn settings_of(schedule: SchedulesV2) -> Seq<ScheduleZoneSettings> {
    match schedule.zones {
        Some(list) => list@,
        None => Seq::empty(),
    }
}

/// The value of a field that may be missing, 0 standing for a missing one.
pub open spec fn or_zero(field: Option<u8>) -> u8 {
    match field {
        Some(v) => v,
        None => 0u8,
    }
}

/// What is shown for whether a schedule is switched on.
pub open spec fn active_label(active: bool) -> Seq<char> {
    if active {
        "Yes"@
    } else {
        "No"@
    }
}

impl ScheduleStatus {
    /// Every text shows what `schedule` holds.
    pub open spec fn describes(self, schedule: SchedulesV2) -> bool {
        &&& shows(self.active@, power_tint(schedule.active), active_label(schedule.active))
        &&& shows_in(
            self.mode@,
            system_mode_tint(or_zero(schedule.mode)),
            system_mode_label(or_zero(schedule.mode)),
        )
        &&& self.fan@ == fan_speed_label(or_zero(schedule.fan))
        &&& self.start@ == time_text(or_zero(schedule.start_h), or_zero(schedule.start_m))
        &&& self.stop@ == time_text(or_zero(schedule.stop_h), or_zero(schedule.stop_m))
        &&& self.days@ == days_text(schedule.days_enabled)
        &&& renders(self.days_shown@, seq![tinted(days_text(schedule.days_enabled), Tint::Cyan)])
        &&& renders(self.day_marks@, marks_said(schedule.days_enabled))
        &&& shows(self.switch@, power_tint(schedule.active), power_label(schedule.active))
        &&& self.zones@.len() == settings_of(schedule).len()
        &&& forall|i: int|
            0 <= i < self.zones@.len() ==> renders(
                (#[trigger] self.zones@[i])@,
                setting_said(settings_of(schedule)[i]),
            )
    }
}

fn say_mark(line: &mut Line, set: bool)
    requires
        old(line).wf(),
    ensures
        final(line).wf(),
        final(line).pieces@ == old(line).pieces@.push(day_mark(set)),
{
    if set {
        line.say_in("✓", Tint::Green);
    } else {
        line.say_in("x", Tint::Red);
    }
}

/// The days of a week with their marks.
pub fn format_day_marks(days: &DaysEnabled) -> (r: String)
    ensures
        renders(r@, marks_said(*days)),
{
    let mut line = Line::new();
    line.say("M:");
    say_mark(&mut line, days.monday);
    line.say(" Tu:");
    say_mark(&mut line, days.tuesday);
    line.say(" W:");
    say_mark(&mut line, days.wednesday);
    line.say(" Th:");
    say_mark(&mut line, days.thursday);
    line.say(" F:");
    say_mark(&mut line, days.friday);
    line.say(" Sa:");
    say_mark(&mut line, days.saturday);
    line.say(" Su:");
    say_mark(&mut line, days.sunday);
    assert(line.pieces@ =~= marks_said(*days));
    line.text
}

fn say_system_mode(line: &mut Line, mode: u8)
    requires
        old(line).wf(),
    ensures
        final(line).wf(),
        final(line).pieces@ == old(line).pieces@.push(
            Piece { text: system_mode_label(mode), tint: system_mode_tint(mode) },
        ),
{
    match mode {
        1 => line.say_in("Cool", Tint::Blue),
        2 => line.say_in("Heat", Tint::Red),
        3 => line.say_in("Vent", Tint::White),
        4 => line.say_in("Dry", Tint::Yellow),
        5 => line.say_in("Auto", Tint::Cyan),
        _ => {
            let plain = get_colored_system_mode(mode);
            line.say(plain.as_str());
        },
    }
}

/// What a schedule sets for a zone, as it is shown.
pub fn format_zone_setting(setting: &ScheduleZoneSettings) -> (r: String)
    ensures
        renders(r@, setting_said(*setting)),
{
    let mut line = Line::new();
    line.say("Mode:");
    say_system_mode(&mut line, setting.mode);
    line.say(" Setpoint:");
    let temp = format_temp(setting.setpoint);
    line.say(temp.as_str());
    line.say("°C");
    assert(line.pieces@ =~= setting_said(*setting));
    line.text
}

fn format_zone_settings(schedule: &SchedulesV2) -> (r: Vec<String>)
    ensures
        r@.len() == settings_of(*schedule).len(),
        forall|i: int|
            0 <= i < r@.len() ==> renders(
                (#[trigger] r@[i])@,
                setting_said(settings_of(*schedule)[i]),
            ),
{
    let mut shown: Vec<String> = Vec::new();
    match &schedule.zones {
        Some(list) => {
            let mut i: usize = 0;
            while i < list.len()
                invariant
                    i <= list.len(),
                    shown@.len() == i,
                    forall|k: int|
                        0 <= k < i ==> renders((#[trigger] shown@[k])@, setting_said(list@[k])),
                decreases list.len() - i,
            {
                shown.push(format_zone_setting(&list[i]));
                i += 1;
            }
        },
        None => {},
    }
    shown
}

fn zero_for_none(field: Option<u8>) -> (r: u8)
    ensures
        r == or_zero(field),
{
    match field {
        Some(v) => v,
        None => 0,
    }
}

/// The texts that are shown of a schedule's state.
pub fn schedule_status(schedule: &SchedulesV2) -> (r: ScheduleStatus)
    ensures
        r.describes(*schedule),
{
    proof {
        reveal_strlit("Yes");
        reveal_strlit("No");
        reveal_strlit("ON");
        reveal_strlit("OFF");
    }
    let active = if schedule.active {
        paint("Yes", Tint::Green)
    } else {
        paint("No", Tint::Red)
    };
    let switch = if schedule.active {
        paint("ON", Tint::Green)
    } else {
        paint("OFF", Tint::Red)
    };
    let days = format_days(&schedule.days_enabled);
    let mut days_shown = Line::new();
    days_shown.say_in(days.as_str(), Tint::Cyan);
    assert(days_shown.pieces@ =~= seq![tinted(days_text(schedule.days_enabled), Tint::Cyan)]);
    ScheduleStatus {
        active,
        days_shown: days_shown.text,
        day_marks: format_day_marks(&schedule.days_enabled),
        switch,
        zones: format_zone_settings(schedule),
        mode: get_colored_system_mode(zero_for_none(schedule.mode)),
        fan: get_fan_speed_text(zero_for_none(schedule.fan)),
        start: format_schedule_time(
            zero_for_none(schedule.start_h),
            zero_for_none(schedule.start_m),
        ),
        stop: format_schedule_time(zero_for_none(schedule.stop_h), zero_for_none(schedule.stop_m)),
        days,
    }
}

/// Decodes the answer to a query for a schedule and gives what is shown
/// of it.
pub fn show_schedule_status(response: &Json) -> (r: Result<
    (SchedulesResponseWrapper, ScheduleStatus),
    DecodeError,
>)
    ensures
        match SchedulesResponseWrapper::fault(response@) {
            Some(e) => r == Err::<(SchedulesResponseWrapper, ScheduleStatus), DecodeError>(e),
            None => r is Ok && r->Ok_0.0.reflects(response@) && r->Ok_0.1.describes(
                r->Ok_0.0.schedules_v2,
            ),
        },
{
    let decoded = SchedulesResponseWrapper::decode(response)?;
    let status = schedule_status(&decoded.schedules_v2);
    Ok((decoded, status))
}

} // verus!
