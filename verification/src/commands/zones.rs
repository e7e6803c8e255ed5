//! What a zone can be asked and told. A zone is addressed by its name,
//! which is looked up in the table of zones before anything else is done.

use crate::codec::{celsius_hundredths, parse_celsius_wide};
use crate::constants::{zone_index, zone_index_of, ZONE_COUNT};
use crate::payload::{Command, Dialect, QueryRequest};
use crate::text::{parse_bounded, same_text, unsigned_value};
use crate::validation::{
    check_name, refuse, refused, valid_airflow, valid_name, valid_setpoint, InputError, Refusal,
};
use vstd::prelude::*;
use vstd::string::StringExecFns;

verus! {

/// What is to be done for a zone.
#[derive(Debug, PartialEq)]
pub enum ZoneAction {
    /// Query the zone and show all of its state.
    ShowStatus(QueryRequest),
    /// Query the zone and show its temperature.
    ShowTemperature(QueryRequest),
    /// Send a command; where `repeat` is set, send it a second time after
    /// a tenth of a second, which the controller needs for a setpoint to
    /// take effect.
    Send { command: Command, repeat: bool },
    /// Nothing is to be sent.
    Nothing,
}

/// The query for the state of the zone with the given index.
pub open spec fn zone_query(dialect: Dialect, index: u8) -> QueryRequest {
    QueryRequest { kind: dialect.zone_kind, index, secondary: 0 }
}

/// The mode that an action switches a zone to, for the actions that
/// switch the mode.
pub open spec fn mode_of_action(action: Seq<char>) -> Option<u8> {
    if action == "open"@ {
        Some(1u8)
    } else if action == "off"@ {
        Some(2u8)
    } else if action == "on"@ || action == "auto"@ {
        Some(3u8)
    } else if action == "override"@ {
        Some(4u8)
    } else if action == "constant"@ {
        Some(5u8)
    } else {
        None
    }
}

/// What setting a zone's setpoint to `value` degrees comes to.
pub open spec fn setpoint_outcome(index: u8, value: Option<Seq<char>>) -> Result<
    ZoneAction,
    InputError,
> {
    match value {
        None => Err(InputError::MissingValue),
        Some(text) => match celsius_hundredths(text) {
            None => Err(InputError::InvalidNumber),
            Some(v) => if 1500 <= v <= 3000 {
                Ok(
                    ZoneAction::Send {
                        command: Command::ZoneSetpoint { index, setpoint: v as u32 },
                        repeat: true,
                    },
                )
            } else {
                Err(InputError::SetpointOutOfRange)
            },
        },
    }
}

/// What setting a zone's maximum (`upper`) or minimum airflow to `value`
/// percent comes to.
pub open spec fn airflow_outcome(index: u8, value: Option<Seq<char>>, upper: bool) -> Result<
    ZoneAction,
    InputError,
> {
    match value {
        None => Err(InputError::MissingValue),
        Some(text) => match unsigned_value(text) {
            Some(v) => if v > u8::MAX {
                Err(InputError::InvalidNumber)
            } else if !valid_airflow(v as u8) {
                Err(
                    if upper {
                        InputError::MaxAirOutOfRange
                    } else {
                        InputError::MinAirOutOfRange
                    },
                )
            } else {
                Ok(
                    ZoneAction::Send {
                        command: if upper {
                            Command::ZoneMaxAir { index, max_air: v as u8 }
                        } else {
                            Command::ZoneMinAir { index, min_air: v as u8 }
                        },
                        repeat: false,
                    },
                )
            },
            None => Err(InputError::InvalidNumber),
        },
    }
}

/// `r` is what naming a zone `value` comes to.
pub open spec fn is_naming_outcome(
    r: Result<ZoneAction, InputError>,
    index: u8,
    value: Option<Seq<char>>,
) -> bool {
    match value {
        None => r == Err::<ZoneAction, InputError>(InputError::MissingValue),
        Some(text) => if valid_name(text) {
            r matches Ok(ZoneAction::Send { command: Command::ZoneName { index: i, name }, repeat })
                && i == index && name@ == text && !repeat
        } else {
            r == Err::<ZoneAction, InputError>(InputError::ZoneNameTooLong)
        },
    }
}

/// `r` is what the action `action` with the value `value` comes to for the
/// zone with the given index.
pub open spec fn is_zone_outcome(
    r: Result<ZoneAction, InputError>,
    dialect: Dialect,
    index: u8,
    action: Seq<char>,
    value: Option<Seq<char>>,
) -> bool {
    if action == "status"@ || action == "stat"@ {
        r == Ok::<ZoneAction, InputError>(ZoneAction::ShowStatus(zone_query(dialect, index)))
    } else if action == "temp"@ {
        r == Ok::<ZoneAction, InputError>(ZoneAction::ShowTemperature(zone_query(dialect, index)))
    } else if mode_of_action(action) is Some {
        r == Ok::<ZoneAction, InputError>(
            ZoneAction::Send {
                command: Command::ZoneMode { index, mode: mode_of_action(action)->0 },
                repeat: false,
            },
        )
    } else if action == "set_setpoint"@ {
        r == setpoint_outcome(index, value)
    } else if action == "set_max_air"@ {
        r == airflow_outcome(index, value, true)
    } else if action == "set_min_air"@ {
        r == airflow_outcome(index, value, false)
    } else if action == "set_name"@ {
        is_naming_outcome(r, index, value)
    } else if action == "summary"@ {
        r == Ok::<ZoneAction, InputError>(ZoneAction::Nothing)
    } else {
        r == Err::<ZoneAction, InputError>(InputError::UnknownZoneAction)
    }
}

/// Whatever is asked for, no setpoint outside the range that a zone takes
/// is ever sent, and a setpoint is sent twice.
pub proof fn lemma_zone_setpoint_in_range(
    r: Result<ZoneAction, InputError>,
    dialect: Dialect,
    zone: u8,
    action: Seq<char>,
    value: Option<Seq<char>>,
)
    requires
        is_zone_outcome(r, dialect, zone, action, value),
        r matches Ok(ZoneAction::Send { command: Command::ZoneSetpoint { .. }, .. }),
    ensures
        r matches Ok(ZoneAction::Send { command: Command::ZoneSetpoint { index, setpoint }, repeat })
            && valid_setpoint(setpoint) && index == zone && repeat,
{
}

/// The view of a value that may be missing.
pub open spec fn view_of(value: Option<&str>) -> Option<Seq<char>> {
    match value {
        Some(text) => Some(text@),
        None => None,
    }
}

fn set_setpoint(index: u8, value: Option<&str>) -> (r: Result<ZoneAction, InputError>)
    ensures
        r == setpoint_outcome(index, view_of(value)),
{
    match value {
        None => Err(InputError::MissingValue),
        Some(text) => match parse_celsius_wide(text) {
            None => Err(InputError::InvalidNumber),
            Some(v) => if 1500 <= v && v <= 3000 {
                Ok(
                    ZoneAction::Send {
                        command: Command::ZoneSetpoint { index, setpoint: v as u32 },
                        repeat: true,
                    },
                )
            } else {
                Err(InputError::SetpointOutOfRange)
            },
        },
    }
}

fn set_airflow(index: u8, value: Option<&str>, upper: bool) -> (r: Result<ZoneAction, InputError>)
    ensures
        r == airflow_outcome(index, view_of(value), upper),
{
    match value {
        None => Err(InputError::MissingValue),
        Some(text) => match parse_bounded(text, 255) {
            None => Err(InputError::InvalidNumber),
            Some(v) => if v > 100 {
                Err(
                    if upper {
                        InputError::MaxAirOutOfRange
                    } else {
                        InputError::MinAirOutOfRange
                    },
                )
            } else {
                Ok(
                    ZoneAction::Send {
                        command: if upper {
                            Command::ZoneMaxAir { index, max_air: v as u8 }
                        } else {
                            Command::ZoneMinAir { index, min_air: v as u8 }
                        },
                        repeat: false,
                    },
                )
            },
        },
    }
}

fn set_name(index: u8, value: Option<&str>) -> (r: Result<ZoneAction, InputError>)
    ensures
        is_naming_outcome(r, index, view_of(value)),
{
    match value {
        None => Err(InputError::MissingValue),
        Some(text) => {
            check_name(text, InputError::ZoneNameTooLong)?;
            Ok(
                ZoneAction::Send {
                    command: Command::ZoneName { index, name: String::from_str(text) },
                    repeat: false,
                },
            )
        },
    }
}

fn switch_mode(index: u8, mode: u8) -> (r: Result<ZoneAction, InputError>)
    ensures
        r == Ok::<ZoneAction, InputError>(
            ZoneAction::Send { command: Command::ZoneMode { index, mode }, repeat: false },
        ),
{
    Ok(ZoneAction::Send { command: Command::ZoneMode { index, mode }, repeat: false })
}

/// What is to be done for the zone with the given index.
fn decide(dialect: &Dialect, index: u8, action: &str, value: Option<&str>) -> (r: Result<
    ZoneAction,
    InputError,
>)
    ensures
        is_zone_outcome(r, *dialect, index, action@, view_of(value)),
{
    let query = QueryRequest { kind: dialect.zone_kind, index, secondary: 0 };
    if same_text(action, "status") || same_text(action, "stat") {
        Ok(ZoneAction::ShowStatus(query))
    } else if same_text(action, "temp") {
        Ok(ZoneAction::ShowTemperature(query))
    } else if same_text(action, "open") {
        switch_mode(index, 1)
    } else if same_text(action, "off") {
        switch_mode(index, 2)
    } else if same_text(action, "on") || same_text(action, "auto") {
        switch_mode(index, 3)
    } else if same_text(action, "override") {
        switch_mode(index, 4)
    } else if same_text(action, "constant") {
        switch_mode(index, 5)
    } else if same_text(action, "set_setpoint") {
        set_setpoint(index, value)
    } else if same_text(action, "set_max_air") {
        set_airflow(index, value, true)
    } else if same_text(action, "set_min_air") {
        set_airflow(index, value, false)
    } else if same_text(action, "set_name") {
        set_name(index, value)
    } else if same_text(action, "summary") {
        Ok(ZoneAction::Nothing)
    } else {
        Err(InputError::UnknownZoneAction)
    }
}

/// What is to be done, or the error for which nothing is to be done,
/// without what is said about the error.
pub open spec fn without_message(r: Result<ZoneAction, Refusal>) -> Result<ZoneAction, InputError> {
    match r {
        Ok(action) => Ok(action),
        Err(refusal) => Err(refusal.error),
    }
}

/// Decides what is to be done for a zone. The zone's name is looked up
/// first: a name that is no zone is refused whatever the action, and the
/// refusal names the zone that was asked for and the zones that there
/// are. The actions are `status` (or `stat`), `temp`, `open`, `off`, `on`
/// (or `auto`), `override`, `constant`, `set_setpoint`, `set_max_air`,
/// `set_min_air`, `set_name` and `summary`; the `set_` actions need a
/// value. The refusal of an unknown action names the action.
pub fn control_zone(dialect: &Dialect, zone_name: &str, action: &str, value: Option<&str>) -> (r:
    Result<ZoneAction, Refusal>)
    ensures
        match zone_index_of(zone_name@) {
            None => refused(r, InputError::UnknownZone, zone_name@),
            Some(index) => {
                &&& is_zone_outcome(without_message(r), *dialect, index, action@, view_of(value))
                &&& r matches Err(refusal) ==> refusal.tells(refusal.error, action@)
            },
        },
{
    let index = match zone_index(zone_name) {
        Some(index) => index,
        None => {
            return Err(refuse(InputError::UnknownZone, zone_name));
        },
    };
    match decide(dialect, index, action, value) {
        Ok(plan) => Ok(plan),
        Err(error) => Err(refuse(error, action)),
    }
}

/// The query for all of a zone's state, for the zone of the given name; a
/// name that is no zone is refused, and the refusal names the zone that
/// was asked for and the zones that there are.
pub fn get_zone_status(dialect: &Dialect, zone_name: &str) -> (r: Result<QueryRequest, Refusal>)
    ensures
        match zone_index_of(zone_name@) {
            Some(index) => r == Ok::<QueryRequest, Refusal>(zone_query(*dialect, index)),
            None => refused(r, InputError::UnknownZone, zone_name@),
        },
{
    match zone_index(zone_name) {
        Some(index) => Ok(QueryRequest { kind: dialect.zone_kind, index, secondary: 0 }),
        None => Err(refuse(InputError::UnknownZone, zone_name)),
    }
}

/// The query for a zone's temperature, for the zone of the given name; a
/// name that is no zone is refused as for the zone's status.
pub fn get_zone_temperature(dialect: &Dialect, zone_name: &str) -> (r: Result<
    QueryRequest,
    Refusal,
>)
    ensures
        match zone_index_of(zone_name@) {
            Some(index) => r == Ok::<QueryRequest, Refusal>(zone_query(*dialect, index)),
            None => refused(r, InputError::UnknownZone, zone_name@),
        },
{
    get_zone_status(dialect, zone_name)
}

/// The queries for a summary of all zones: one for each zone, in the
/// order of their indices.
pub fn get_all_zones_summary(dialect: &Dialect) -> (r: Vec<QueryRequest>)
    ensures
        r.len() == ZONE_COUNT,
        forall|i: int| 0 <= i < ZONE_COUNT ==> #[trigger] r[i] == zone_query(*dialect, i as u8),
{
    let mut queries: Vec<QueryRequest> = Vec::new();
    let mut index: u8 = 0;
    while index < ZONE_COUNT
        invariant
            index <= ZONE_COUNT,
            queries.len() == index,
            forall|i: int| 0 <= i < index ==> #[trigger] queries[i] == zone_query(*dialect, i as u8),
        decreases ZONE_COUNT - index,
    {
        queries.push(QueryRequest { kind: dialect.zone_kind, index, secondary: 0 });
        index += 1;
    }
    queries
}

} // verus!
