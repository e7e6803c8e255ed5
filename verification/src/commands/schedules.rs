//! What a schedule ("favourite") can be asked and told. A schedule is
//! addressed by its index, which is checked before anything else is done.

use crate::constants::{zone_index, zone_index_of, MAX_SCHEDULES};
use crate::helpers::{get_system_mode_value, system_mode_code};
use crate::models::DaysEnabled;
use crate::payload::{Command, Dialect, QueryRequest, ZoneSetting};
use crate::text::{
    eq_ignore_case, parse_bounded, same_ignoring_case, split, split_text,
    unsigned_value, views,
};
use crate::validation::{
    check_name, check_schedule_index, check_setpoint, refuse, refused, valid_name,
    valid_schedule_index, valid_setpoint, valid_time, InputError, Refusal,
};
use vstd::prelude::*;
use vstd::string::StringExecFns;

verus! {

/// The hour that is sent where a schedule's time is to stay unset.
pub const UNSET_HOUR: u8 = 31;

/// The minute that is sent where a schedule's time is to stay unset.
pub const UNSET_MINUTE: u8 = 63;

/// The query for the schedule with the given index.
pub open spec fn schedule_query(dialect: Dialect, index: u8) -> QueryRequest {
    QueryRequest { kind: dialect.schedule_kind, index, secondary: 0 }
}

/// The query for a schedule's state.
pub fn get_schedule_status(dialect: &Dialect, schedule_index: u8) -> (r: Result<
    QueryRequest,
    InputError,
>)
    ensures
        r == if valid_schedule_index(schedule_index) {
            Ok::<QueryRequest, InputError>(schedule_query(*dialect, schedule_index))
        } else {
            Err(InputError::ScheduleIndexOutOfRange)
        },
{
    check_schedule_index(schedule_index)?;
    Ok(QueryRequest { kind: dialect.schedule_kind, index: schedule_index, secondary: 0 })
}

/// The queries for a summary of all schedules: one for each schedule, in
/// the order of their indices.
pub fn get_all_schedules_summary(dialect: &Dialect) -> (r: Vec<QueryRequest>)
    ensures
        r.len() == MAX_SCHEDULES,
        forall|i: int|
            0 <= i < MAX_SCHEDULES ==> #[trigger] r[i] == schedule_query(*dialect, i as u8),
{
    let mut queries: Vec<QueryRequest> = Vec::new();
    let mut index: u8 = 0;
    while index < MAX_SCHEDULES
        invariant
            index <= MAX_SCHEDULES,
            queries.len() == index,
            forall|i: int|
                0 <= i < index ==> #[trigger] queries[i] == schedule_query(*dialect, i as u8),
        decreases MAX_SCHEDULES - index,
    {
        queries.push(QueryRequest { kind: dialect.schedule_kind, index, secondary: 0 });
        index += 1;
    }
    queries
}

/// Names a schedule; the name has at most 15 characters.
pub fn set_schedule_name(schedule_index: u8, new_name: &str) -> (r: Result<Command, InputError>)
    ensures
        if !valid_schedule_index(schedule_index) {
            r == Err::<Command, InputError>(InputError::ScheduleIndexOutOfRange)
        } else if !valid_name(new_name@) {
            r == Err::<Command, InputError>(InputError::ScheduleNameTooLong)
        } else {
            r matches Ok(Command::SchedName { index, name }) && index == schedule_index && name@
                == new_name@
        },
{
    check_schedule_index(schedule_index)?;
    check_name(new_name, InputError::ScheduleNameTooLong)?;
    Ok(Command::SchedName { index: schedule_index, name: String::from_str(new_name) })
}

/// No day of the week.
pub open spec fn no_days() -> DaysEnabled {
    DaysEnabled {
        monday: false,
        tuesday: false,
        wednesday: false,
        thursday: false,
        friday: false,
        saturday: false,
        sunday: false,
    }
}

/// Sets the times at which a schedule starts and stops. The controller
/// takes the days together with the times, and no day is sent: setting
/// the times leaves the schedule without days.
pub fn set_schedule_time(schedule_index: u8, start_h: u8, start_m: u8, stop_h: u8, stop_m: u8) -> (r:
    Result<Command, InputError>)
    ensures
        r == if !valid_schedule_index(schedule_index) {
            Err::<Command, InputError>(InputError::ScheduleIndexOutOfRange)
        } else if !(valid_time(start_h, start_m) && valid_time(stop_h, stop_m)) {
            Err(InputError::InvalidTime)
        } else {
            Ok(
                Command::SchedSettings {
                    index: schedule_index,
                    start_h,
                    start_m,
                    stop_h,
                    stop_m,
                    days: no_days(),
                },
            )
        },
{
    check_schedule_index(schedule_index)?;
    if start_h > 23 || start_m > 59 || stop_h > 23 || stop_m > 59 {
        return Err(InputError::InvalidTime);
    }
    Ok(
        Command::SchedSettings {
            index: schedule_index,
            start_h,
            start_m,
            stop_h,
            stop_m,
            days: DaysEnabled {
                monday: false,
                tuesday: false,
                wednesday: false,
                thursday: false,
                friday: false,
                saturday: false,
                sunday: false,
            },
        },
    )
}

/// The number of 8 bits that a numeral denotes, if it denotes one.
pub open spec fn byte_of(numeral: Seq<char>) -> Option<u8> {
    match unsigned_value(numeral) {
        Some(v) => if v <= u8::MAX {
            Some(v as u8)
        } else {
            None
        },
        None => None,
    }
}

/// The time of day that a text like `08:30` denotes: hours, a colon and
/// minutes.
pub open spec fn time_of(text: Seq<char>) -> Result<(u8, u8), InputError> {
    let parts = split_text(text, ':');
    if parts.len() != 2 {
        Err(InputError::TimeFormat)
    } else if byte_of(parts[0]) is None {
        Err(InputError::InvalidHour)
    } else if byte_of(parts[1]) is None {
        Err(InputError::InvalidMinute)
    } else if !valid_time(byte_of(parts[0])->0, byte_of(parts[1])->0) {
        Err(InputError::TimeOutOfRange)
    } else {
        Ok((byte_of(parts[0])->0, byte_of(parts[1])->0))
    }
}

fn parse_byte(numeral: &str) -> (r: Option<u8>)
    ensures
        r == byte_of(numeral@),
{
    match parse_bounded(numeral, 255) {
        Some(v) => Some(v as u8),
        None => None,
    }
}

/// Reads a time of day written as hours, a colon and minutes, e.g. `08:30`.
pub fn parse_time(text: &str) -> (r: Result<(u8, u8), InputError>)
    ensures
        r == time_of(text@),
{
    let parts = split(text, ':');
    if parts.len() != 2 {
        return Err(InputError::TimeFormat);
    }
    assert(parts@[0]@ == views(parts@)[0]);
    assert(parts@[1]@ == views(parts@)[1]);
    let hour = match parse_byte(parts[0].as_str()) {
        Some(hour) => hour,
        None => {
            return Err(InputError::InvalidHour);
        },
    };
    let minute = match parse_byte(parts[1].as_str()) {
        Some(minute) => minute,
        None => {
            return Err(InputError::InvalidMinute);
        },
    };
    if hour > 23 || minute > 59 {
        return Err(InputError::TimeOutOfRange);
    }
    Ok((hour, minute))
}

/// A day of the week.
#[derive(Clone, Copy, Debug, PartialEq, Eq, Structural)]
pub enum Weekday {
    Monday,
    Tuesday,
    Wednesday,
    Thursday,
    Friday,
    Saturday,
    Sunday,
}

/// The day that a name stands for: the controller's abbreviation or the
/// first three letters of the English name, in any case.
pub open spec fn weekday_of(name: Seq<char>) -> Option<Weekday> {
    if same_ignoring_case(name, "m"@) || same_ignoring_case(name, "mon"@) {
        Some(Weekday::Monday)
    } else if same_ignoring_case(name, "tu"@) || same_ignoring_case(name, "tue"@) {
        Some(Weekday::Tuesday)
    } else if same_ignoring_case(name, "w"@) || same_ignoring_case(name, "wed"@) {
        Some(Weekday::Wednesday)
    } else if same_ignoring_case(name, "th"@) || same_ignoring_case(name, "thu"@) {
        Some(Weekday::Thursday)
    } else if same_ignoring_case(name, "f"@) || same_ignoring_case(name, "fri"@) {
        Some(Weekday::Friday)
    } else if same_ignoring_case(name, "sa"@) || same_ignoring_case(name, "sat"@) {
        Some(Weekday::Saturday)
    } else if same_ignoring_case(name, "su"@) || same_ignoring_case(name, "sun"@) {
        Some(Weekday::Sunday)
    } else {
        None
    }
}

/// Reads the name of a day of the week.
pub fn parse_weekday(name: &str) -> (r: Option<Weekday>)
    ensures
        r == weekday_of(name@),
{
    if eq_ignore_case(name, "m") || eq_ignore_case(name, "mon") {
        Some(Weekday::Monday)
    } else if eq_ignore_case(name, "tu") || eq_ignore_case(name, "tue") {
        Some(Weekday::Tuesday)
    } else if eq_ignore_case(name, "w") || eq_ignore_case(name, "wed") {
        Some(Weekday::Wednesday)
    } else if eq_ignore_case(name, "th") || eq_ignore_case(name, "thu") {
        Some(Weekday::Thursday)
    } else if eq_ignore_case(name, "f") || eq_ignore_case(name, "fri") {
        Some(Weekday::Friday)
    } else if eq_ignore_case(name, "sa") || eq_ignore_case(name, "sat") {
        Some(Weekday::Saturday)
    } else if eq_ignore_case(name, "su") || eq_ignore_case(name, "sun") {
        Some(Weekday::Sunday)
    } else {
        None
    }
}

/// One of the first `count` names stands for `day`.
pub open spec fn is_named(names: Seq<String>, count: int, day: Weekday) -> bool {
    exists|i: int| 0 <= i < count && weekday_of(#[trigger] names[i]@) == Some(day)
}

/// The days that the first `count` names stand for.
pub open spec fn named_days(names: Seq<String>, count: int) -> DaysEnabled {
    DaysEnabled {
        monday: is_named(names, count, Weekday::Monday),
        tuesday: is_named(names, count, Weekday::Tuesday),
        wednesday: is_named(names, count, Weekday::Wednesday),
        thursday: is_named(names, count, Weekday::Thursday),
        friday: is_named(names, count, Weekday::Friday),
        saturday: is_named(names, count, Weekday::Saturday),
        sunday: is_named(names, count, Weekday::Sunday),
    }
}

/// Sets the days on which a schedule runs: those that are named, and no
/// others. A name that is no day is passed over. The times are sent as
/// unset, which leaves them as they are.
pub fn set_schedule_days(schedule_index: u8, days: &Vec<String>) -> (r: Result<
    Command,
    InputError,
>)
    ensures
        r == if !valid_schedule_index(schedule_index) {
            Err::<Command, InputError>(InputError::ScheduleIndexOutOfRange)
        } else {
            Ok(
                Command::SchedSettings {
                    index: schedule_index,
                    start_h: UNSET_HOUR,
                    start_m: UNSET_MINUTE,
                    stop_h: UNSET_HOUR,
                    stop_m: UNSET_MINUTE,
                    days: named_days(days@, days.len() as int),
                },
            )
        },
{
    check_schedule_index(schedule_index)?;
    let mut set = DaysEnabled {
        monday: false,
        tuesday: false,
        wednesday: false,
        thursday: false,
        friday: false,
        saturday: false,
        sunday: false,
    };
    let mut i: usize = 0;
    while i < days.len()
        invariant
            i <= days.len(),
            set == named_days(days@, i as int),
        decreases days.len() - i,
    {
        let ghost before = set;
        let day = parse_weekday(days[i].as_str());
        match day {
            Some(Weekday::Monday) => {
                set.monday = true;
            },
            Some(Weekday::Tuesday) => {
                set.tuesday = true;
            },
            Some(Weekday::Wednesday) => {
                set.wednesday = true;
            },
            Some(Weekday::Thursday) => {
                set.thursday = true;
            },
            Some(Weekday::Friday) => {
                set.friday = true;
            },
            Some(Weekday::Saturday) => {
                set.saturday = true;
            },
            Some(Weekday::Sunday) => {
                set.sunday = true;
            },
            None => {},
        }
        proof {
            assert forall|d: Weekday|
                is_named(days@, i + 1, d) == (is_named(days@, i as int, d) || day == Some(
                    d,
                )) by {
                if is_named(days@, i as int, d) {
                    let k = choose|k: int| 0 <= k < i && weekday_of(#[trigger] days@[k]@) == Some(d);
                    assert(0 <= k < i + 1 && weekday_of(days@[k]@) == Some(d));
                }
                if day == Some(d) {
                    assert(weekday_of(days@[i as int]@) == Some(d));
                }
            }
        }
        i += 1;
    }
    Ok(
        Command::SchedSettings {
            index: schedule_index,
            start_h: UNSET_HOUR,
            start_m: UNSET_MINUTE,
            stop_h: UNSET_HOUR,
            stop_m: UNSET_MINUTE,
            days: set,
        },
    )
}

/// The code of a fan speed that a schedule can hold, given by its name.
pub open spec fn schedule_fan_code(name: Seq<char>) -> Option<u8> {
    if same_ignoring_case(name, "low"@) {
        Some(1u8)
    } else if same_ignoring_case(name, "medium"@) {
        Some(2u8)
    } else if same_ignoring_case(name, "high"@) {
        Some(3u8)
    } else if same_ignoring_case(name, "auto"@) {
        Some(4u8)
    } else if same_ignoring_case(name, "top"@) {
        Some(5u8)
    } else if same_ignoring_case(name, "nongasheat"@) {
        Some(99u8)
    } else {
        None
    }
}

/// Looks up the code of a fan speed that a schedule can hold.
pub fn get_schedule_fan_value(name: &str) -> (r: Option<u8>)
    ensures
        r == schedule_fan_code(name@),
{
    if eq_ignore_case(name, "low") {
        Some(1)
    } else if eq_ignore_case(name, "medium") {
        Some(2)
    } else if eq_ignore_case(name, "high") {
        Some(3)
    } else if eq_ignore_case(name, "auto") {
        Some(4)
    } else if eq_ignore_case(name, "top") {
        Some(5)
    } else if eq_ignore_case(name, "nongasheat") {
        Some(99)
    } else {
        None
    }
}

/// The view of a name that may be missing.
pub open spec fn name_view(name: Option<&str>) -> Option<Seq<char>> {
    match name {
        Some(text) => Some(text@),
        None => None,
    }
}

/// Why a schedule's mode and fan speed cannot be set as asked, if they
/// cannot: the index is looked at first, then the mode, then the fan speed.
pub open spec fn mode_fan_fault(index: u8, mode: Option<Seq<char>>, fan: Option<Seq<char>>) -> Option<
    InputError,
> {
    if !valid_schedule_index(index) {
        Some(InputError::ScheduleIndexOutOfRange)
    } else if mode matches Some(name) && system_mode_code(name) is None {
        Some(InputError::UnknownMode)
    } else if fan matches Some(name) && schedule_fan_code(name) is None {
        Some(InputError::UnknownScheduleFan)
    } else if mode is None && fan is None {
        Some(InputError::NothingToSet)
    } else {
        None
    }
}

/// What is sent to set a schedule's mode and fan speed: the mode first.
pub open spec fn mode_fan_commands(index: u8, mode: Option<Seq<char>>, fan: Option<Seq<char>>) -> Seq<
    Command,
> {
    let first = match mode {
        Some(name) => seq![Command::SchedAcMode { index, mode: system_mode_code(name)->0 }],
        None => Seq::<Command>::empty(),
    };
    let second = match fan {
        Some(name) => seq![Command::SchedAcFan { index, fan: schedule_fan_code(name)->0 }],
        None => Seq::<Command>::empty(),
    };
    first + second
}

/// Sets the system mode and the fan speed that a schedule switches to,
/// each given by its name; at least one of the two must be given.
pub fn set_schedule_mode_fan(schedule_index: u8, mode: Option<&str>, fan: Option<&str>) -> (r:
    Result<Vec<Command>, InputError>)
    ensures
        match mode_fan_fault(schedule_index, name_view(mode), name_view(fan)) {
            Some(error) => r == Err::<Vec<Command>, InputError>(error),
            None => r is Ok && r->Ok_0@ == mode_fan_commands(
                schedule_index,
                name_view(mode),
                name_view(fan),
            ),
        },
{
    check_schedule_index(schedule_index)?;
    let mut commands: Vec<Command> = Vec::new();
    match mode {
        Some(name) => match get_system_mode_value(name) {
            Some(code) => {
                commands.push(Command::SchedAcMode { index: schedule_index, mode: code });
            },
            None => {
                return Err(InputError::UnknownMode);
            },
        },
        None => {},
    }
    match fan {
        Some(name) => match get_schedule_fan_value(name) {
            Some(code) => {
                commands.push(Command::SchedAcFan { index: schedule_index, fan: code });
            },
            None => {
                return Err(InputError::UnknownScheduleFan);
            },
        },
        None => {},
    }
    if commands.len() == 0 {
        return Err(InputError::NothingToSet);
    }
    assert(commands@ =~= mode_fan_commands(schedule_index, name_view(mode), name_view(fan)));
    Ok(commands)
}

/// Switches a schedule on.
pub fn enable_schedule(schedule_index: u8) -> (r: Result<Command, InputError>)
    ensures
        r == if valid_schedule_index(schedule_index) {
            Ok::<Command, InputError>(Command::SchedEnable { index: schedule_index, enabled: true })
        } else {
            Err(InputError::ScheduleIndexOutOfRange)
        },
{
    check_schedule_index(schedule_index)?;
    Ok(Command::SchedEnable { index: schedule_index, enabled: true })
}

/// Switches a schedule off.
pub fn disable_schedule(schedule_index: u8) -> (r: Result<Command, InputError>)
    ensures
        r == if valid_schedule_index(schedule_index) {
            Ok::<Command, InputError>(
                Command::SchedEnable { index: schedule_index, enabled: false },
            )
        } else {
            Err(InputError::ScheduleIndexOutOfRange)
        },
{
    check_schedule_index(schedule_index)?;
    Ok(Command::SchedEnable { index: schedule_index, enabled: false })
}

/// What a schedule is to set for a zone, as it is asked for: the zone's
/// name, the code of its mode and its setpoint in hundredths of a degree.
#[derive(Debug)]
pub struct ZoneRequest {
    pub zone_name: String,
    pub mode: u8,
    pub setpoint: u32,
}

/// The number of 32 bits that a numeral denotes, if it denotes one.
pub open spec fn word_of(numeral: Seq<char>) -> Option<u32> {
    match unsigned_value(numeral) {
        Some(v) => if v <= u32::MAX {
            Some(v as u32)
        } else {
            None
        },
        None => None,
    }
}

/// Why a text like `kitchen:3:2250` is no request for a zone, if it is none.
pub open spec fn request_text_fault(text: Seq<char>) -> Option<InputError> {
    let parts = split_text(text, ':');
    if parts.len() != 3 {
        Some(InputError::ZoneSettingFormat)
    } else if byte_of(parts[1]) is None {
        Some(InputError::InvalidModeValue)
    } else if word_of(parts[2]) is None {
        Some(InputError::InvalidSetpointValue)
    } else {
        None
    }
}

/// Reads a request for a zone written as the zone's name, the code of its
/// mode and its setpoint in hundredths of a degree, with colons between
/// them, e.g. `kitchen:3:2250`.
pub fn parse_zone_request(text: &str) -> (r: Result<ZoneRequest, InputError>)
    ensures
        match request_text_fault(text@) {
            Some(error) => r == Err::<ZoneRequest, InputError>(error),
            None => r is Ok && r->Ok_0.zone_name@ == split_text(text@, ':')[0] && Some(
                r->Ok_0.mode,
            ) == byte_of(split_text(text@, ':')[1]) && Some(r->Ok_0.setpoint) == word_of(
                split_text(text@, ':')[2],
            ),
        },
{
    let parts = split(text, ':');
    if parts.len() != 3 {
        return Err(InputError::ZoneSettingFormat);
    }
    assert(parts@[0]@ == views(parts@)[0]);
    assert(parts@[1]@ == views(parts@)[1]);
    assert(parts@[2]@ == views(parts@)[2]);
    let mode = match parse_byte(parts[1].as_str()) {
        Some(mode) => mode,
        None => {
            return Err(InputError::InvalidModeValue);
        },
    };
    let setpoint = match parse_bounded(parts[2].as_str(), 4294967295) {
        Some(setpoint) => setpoint as u32,
        None => {
            return Err(InputError::InvalidSetpointValue);
        },
    };
    Ok(ZoneRequest { zone_name: parts[0].clone(), mode, setpoint })
}

/// Why a request for a zone is refused, if it is: the zone is looked at
/// first, then the setpoint.
pub open spec fn request_fault(request: ZoneRequest) -> Option<InputError> {
    if zone_index_of(request.zone_name@) is None {
        Some(InputError::UnknownZone)
    } else if !valid_setpoint(request.setpoint) {
        Some(InputError::SetpointOutOfRange)
    } else {
        None
    }
}

/// The setting that a request comes to.
pub open spec fn setting_of(request: ZoneRequest) -> ZoneSetting {
    ZoneSetting {
        index: zone_index_of(request.zone_name@)->0,
        mode: request.mode,
        setpoint: request.setpoint,
    }
}

/// `i` is the first request that is refused.
pub open spec fn is_first_refused(requests: Seq<ZoneRequest>, i: int) -> bool {
    &&& 0 <= i < requests.len()
    &&& request_fault(requests[i]) is Some
    &&& forall|k: int| 0 <= k < i ==> request_fault(#[trigger] requests[k]) is None
}

/// At most one request is the first that is refused.
pub proof fn lemma_first_refused_unique(requests: Seq<ZoneRequest>, i: int, j: int)
    requires
        is_first_refused(requests, i),
        is_first_refused(requests, j),
    ensures
        i == j,
{
    if i < j {
        assert(request_fault(requests[i]) is None);
    } else if j < i {
        assert(request_fault(requests[j]) is None);
    }
}

/// Checks one request for a zone: the zone must be known, and the
/// setpoint one that a zone takes.
pub fn check_zone_request(request: &ZoneRequest) -> (r: Result<ZoneSetting, InputError>)
    ensures
        r == match request_fault(*request) {
            Some(error) => Err::<ZoneSetting, InputError>(error),
            None => Ok(setting_of(*request)),
        },
{
    let index = match zone_index(request.zone_name.as_str()) {
        Some(index) => index,
        None => {
            return Err(InputError::UnknownZone);
        },
    };
    check_setpoint(request.setpoint)?;
    Ok(ZoneSetting { index, mode: request.mode, setpoint: request.setpoint })
}

/// `r` is what setting the zones of a schedule comes to. The index is
/// looked at first. Then every request must stand: the first one for an
/// unknown zone, or with a setpoint out of range, is the error, and the
/// refusal of an unknown zone names the zone that was asked for. Without
/// any request nothing is set.
pub open spec fn is_zones_outcome(
    r: Result<Command, Refusal>,
    schedule_index: u8,
    requests: Seq<ZoneRequest>,
) -> bool {
    if !valid_schedule_index(schedule_index) {
        refused(r, InputError::ScheduleIndexOutOfRange, Seq::empty())
    } else if exists|i: int| is_first_refused(requests, i) {
        let first = choose|i: int| is_first_refused(requests, i);
        refused(r, request_fault(requests[first])->0, requests[first].zone_name@)
    } else if requests.len() == 0 {
        refused(r, InputError::NoZoneSettings, Seq::empty())
    } else {
        r matches Ok(Command::SchedZones { index, zones }) && index == schedule_index
            && zones@.len() == requests.len() && forall|k: int|
            0 <= k < requests.len() ==> #[trigger] zones@[k] == setting_of(requests[k])
    }
}

/// Sets what a schedule does to the zones: one setting for each request,
/// in their order. A request for an unknown zone or with a setpoint out
/// of range is an error, and then nothing is set.
pub fn set_schedule_zones(schedule_index: u8, zone_settings: &Vec<ZoneRequest>) -> (r: Result<
    Command,
    Refusal,
>)
    ensures
        is_zones_outcome(r, schedule_index, zone_settings@),
{
    if schedule_index >= MAX_SCHEDULES {
        return Err(refuse(InputError::ScheduleIndexOutOfRange, ""));
    }
    let mut zones: Vec<ZoneSetting> = Vec::new();
    let mut i: usize = 0;
    while i < zone_settings.len()
        invariant
            i <= zone_settings.len(),
            valid_schedule_index(schedule_index),
            zones@.len() == i,
            forall|k: int| 0 <= k < i ==> request_fault(#[trigger] zone_settings@[k]) is None,
            forall|k: int| 0 <= k < i ==> #[trigger] zones@[k] == setting_of(zone_settings@[k]),
        decreases zone_settings.len() - i,
    {
        match check_zone_request(&zone_settings[i]) {
            Ok(setting) => {
                zones.push(setting);
            },
            Err(error) => {
                proof {
                    assert(is_first_refused(zone_settings@, i as int));
                    let first = choose|k: int| is_first_refused(zone_settings@, k);
                    lemma_first_refused_unique(zone_settings@, first, i as int);
                }
                return Err(refuse(error, zone_settings[i].zone_name.as_str()));
            },
        }
        i += 1;
    }
    assert forall|k: int| !is_first_refused(zone_settings@, k) by {}
    if zones.len() == 0 {
        return Err(refuse(InputError::NoZoneSettings, ""));
    }
    Ok(Command::SchedZones { index: schedule_index, zones })
}

} // verus!
