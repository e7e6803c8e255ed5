//! What is said once an operation was carried out: one function for each
//! operation, which gives the message and the box that it is shown in.

use crate::codec::{format_temp, temp_text};
use crate::notice::{number, tinted, words, Line, Notice, Piece};
use crate::helpers::Tint;
use crate::text::{
    chars_of, decimal_text, digit_char, push_char, push_decimal, push_two_digits, same_text,
    two_digit_text,
};
use vstd::prelude::*;
use vstd::string::StringExecFns;

verus! {

/// A name in Pascal case, as `stringcase::pascal_case` gives it.
pub uninterp spec fn pascal_case_of(input: Seq<char>) -> Seq<char>;

/// Gives what `stringcase::pascal_case` returns a name: the crate works on
/// its argument alone, so the same text always comes back for the same
/// input. Nothing more is claimed of it.
pub assume_specification[ stringcase::pascal_case ](input: &str) -> (r: String)
    ensures
        r@ == pascal_case_of(input@),
;

/// Whether a feature was switched on or off.
pub open spec fn switch_piece(enable: bool) -> Piece {
    if enable {
        tinted("enabled"@, Tint::Green)
    } else {
        tinted("disabled"@, Tint::Red)
    }
}

/// Whether a setting was locked or unlocked.
pub open spec fn lock_piece(enable: bool) -> Piece {
    if enable {
        tinted("locked"@, Tint::Red)
    } else {
        tinted("unlocked"@, Tint::Green)
    }
}

/// Whether a feature that calls for care was switched on or off.
pub open spec fn caution_piece(enable: bool) -> Piece {
    if enable {
        tinted("enabled"@, Tint::Yellow)
    } else {
        tinted("disabled"@, Tint::Green)
    }
}

fn say_switch(line: &mut Line, enable: bool)
    requires
        old(line).wf(),
    ensures
        final(line).wf(),
        final(line).pieces@ == old(line).pieces@.push(switch_piece(enable)),
{
    if enable {
        line.say_in("enabled", Tint::Green);
    } else {
        line.say_in("disabled", Tint::Red);
    }
}

fn say_lock(line: &mut Line, enable: bool)
    requires
        old(line).wf(),
    ensures
        final(line).wf(),
        final(line).pieces@ == old(line).pieces@.push(lock_piece(enable)),
{
    if enable {
        line.say_in("locked", Tint::Red);
    } else {
        line.say_in("unlocked", Tint::Green);
    }
}

fn say_caution(line: &mut Line, enable: bool)
    requires
        old(line).wf(),
    ensures
        final(line).wf(),
        final(line).pieces@ == old(line).pieces@.push(caution_piece(enable)),
{
    if enable {
        line.say_in("enabled", Tint::Yellow);
    } else {
        line.say_in("disabled", Tint::Green);
    }
}

fn say_temp_in(line: &mut Line, raw: u32, tint: Tint)
    requires
        old(line).wf(),
    ensures
        final(line).wf(),
        final(line).pieces@ == old(line).pieces@.push(tinted(temp_text(raw as nat), tint)),
{
    let text = format_temp(raw);
    line.say_in(text.as_str(), tint);
}

fn say_temp(line: &mut Line, raw: u32)
    requires
        old(line).wf(),
    ensures
        final(line).wf(),
        final(line).pieces@ == old(line).pieces@.push(words(temp_text(raw as nat))),
{
    let text = format_temp(raw);
    line.say(text.as_str());
}

/// What is said once the system was switched on.
pub fn turn_on_ac() -> (r: Notice)
    ensures
        r.says(
            Some(("System Control"@, 45usize)),
            seq![
                words("AC system turned "@),
                tinted("ON"@, Tint::Green),
                words("."@),
            ],
        ),
{
    let mut line = Line::new();
    line.say("AC system turned ");
    line.say_in("ON", Tint::Green);
    line.say(".");
    assert(line.pieces@ =~= seq![
        words("AC system turned "@),
        tinted("ON"@, Tint::Green),
        words("."@),
    ]);
    line.framed("System Control", 45)
}

/// What is said once the system was switched off.
pub fn turn_off_ac() -> (r: Notice)
    ensures
        r.says(
            Some(("System Control"@, 45usize)),
            seq![
                words("AC system turned "@),
                tinted("OFF"@, Tint::Red),
                words("."@),
            ],
        ),
{
    let mut line = Line::new();
    line.say("AC system turned ");
    line.say_in("OFF", Tint::Red);
    line.say(".");
    assert(line.pieces@ =~= seq![
        words("AC system turned "@),
        tinted("OFF"@, Tint::Red),
        words("."@),
    ]);
    line.framed("System Control", 45)
}

/// What is said once the system mode was set; `shown_name` is the mode's name as it is shown.
pub fn system_mode_set(shown_name: &str) -> (r: Notice)
    ensures
        r.says(
            Some(("System Control"@, 45usize)),
            seq![
                words("System mode set to "@),
                tinted(shown_name@, Tint::Cyan),
                words("."@),
            ],
        ),
{
    let mut line = Line::new();
    line.say("System mode set to ");
    line.say_in(shown_name, Tint::Cyan);
    line.say(".");
    assert(line.pieces@ =~= seq![
        words("System mode set to "@),
        tinted(shown_name@, Tint::Cyan),
        words("."@),
    ]);
    line.framed("System Control", 45)
}

/// What is said once the fan speed was set; `shown_name` is the speed's name as it is shown.
pub fn system_fan_set(shown_name: &str) -> (r: Notice)
    ensures
        r.says(
            Some(("System Control"@, 45usize)),
            seq![
                words("Aircon Fan Speed set to "@),
                tinted(shown_name@, Tint::Cyan),
                words("."@),
            ],
        ),
{
    let mut line = Line::new();
    line.say("Aircon Fan Speed set to ");
    line.say_in(shown_name, Tint::Cyan);
    line.say(".");
    assert(line.pieces@ =~= seq![
        words("Aircon Fan Speed set to "@),
        tinted(shown_name@, Tint::Cyan),
        words("."@),
    ]);
    line.framed("System Control", 45)
}

/// What is said once a warning was reset; `shown_name` is the warning's name as it is shown.
pub fn warning_reset(shown_name: &str) -> (r: Notice)
    ensures
        r.says(
            Some(("System Configuration"@, 50usize)),
            seq![
                tinted(shown_name@, Tint::Green),
                words(" warning reset."@),
            ],
        ),
{
    let mut line = Line::new();
    line.say_in(shown_name, Tint::Green);
    line.say(" warning reset.");
    assert(line.pieces@ =~= seq![
        tinted(shown_name@, Tint::Green),
        words(" warning reset."@),
    ]);
    line.framed("System Configuration", 50)
}

/// What is said once the system mode was set to the mode of the given
/// name, which is shown in Pascal case.
pub fn set_system_mode(mode_name: &str) -> (r: Notice)
    ensures
        r.says(
            Some(("System Control"@, 45usize)),
            seq![
                words("System mode set to "@),
                tinted(pascal_case_of(mode_name@), Tint::Cyan),
                words("."@),
            ],
        ),
{
    let shown = stringcase::pascal_case(mode_name);
    system_mode_set(shown.as_str())
}

/// What is said once the fan speed was set to the speed of the given
/// name, which is shown in Pascal case.
pub fn set_system_fan(fan_speed_name: &str) -> (r: Notice)
    ensures
        r.says(
            Some(("System Control"@, 45usize)),
            seq![
                words("Aircon Fan Speed set to "@),
                tinted(pascal_case_of(fan_speed_name@), Tint::Cyan),
                words("."@),
            ],
        ),
{
    let shown = stringcase::pascal_case(fan_speed_name);
    system_fan_set(shown.as_str())
}

/// What is said once the warning of the given name was reset; the name is
/// shown in Pascal case.
pub fn reset_warning(warning_type: &str) -> (r: Notice)
    ensures
        r.says(
            Some(("System Configuration"@, 50usize)),
            seq![tinted(pascal_case_of(warning_type@), Tint::Green), words(" warning reset."@)],
        ),
{
    let shown = stringcase::pascal_case(warning_type);
    warning_reset(shown.as_str())
}

/// What is said once the cooler's fan speed was set.
pub fn set_coolbreeze_fan_speed(speed: u8) -> (r: Notice)
    ensures
        r.says(
            Some(("Coolbreeze Control"@, 45usize)),
            seq![
                words("Coolbreeze fan speed set to "@),
                number(speed as nat, Tint::Green),
                words("%."@),
            ],
        ),
{
    let mut line = Line::new();
    line.say("Coolbreeze fan speed set to ");
    line.say_number(speed as u64, Tint::Green);
    line.say("%.");
    assert(line.pieces@ =~= seq![
        words("Coolbreeze fan speed set to "@),
        number(speed as nat, Tint::Green),
        words("%."@),
    ]);
    line.framed("Coolbreeze Control", 45)
}

/// What is said once the cooler's humidity setpoint was set.
pub fn set_coolbreeze_rh_setpoint(rh: u8) -> (r: Notice)
    ensures
        r.says(
            Some(("Coolbreeze Control"@, 45usize)),
            seq![
                words("Coolbreeze RH setpoint set to "@),
                number(rh as nat, Tint::Green),
                words("%."@),
            ],
        ),
{
    let mut line = Line::new();
    line.say("Coolbreeze RH setpoint set to ");
    line.say_number(rh as u64, Tint::Green);
    line.say("%.");
    assert(line.pieces@ =~= seq![
        words("Coolbreeze RH setpoint set to "@),
        number(rh as nat, Tint::Green),
        words("%."@),
    ]);
    line.framed("Coolbreeze Control", 45)
}

/// What is said once the cooler's prewash was set.
pub fn set_coolbreeze_prewash(enable: bool, time_minutes: Option<u8>) -> (r: Notice)
    ensures
        r.says(
            Some(("Coolbreeze Control"@, 45usize)),
            match time_minutes {
                Some(time) => seq![
                    words("Coolbreeze prewash "@),
                    switch_piece(enable),
                    words(" ("@),
                    number(time as nat, Tint::Cyan),
                    words(" min)."@),
                ],
                None => seq![
                    words("Coolbreeze prewash "@),
                    switch_piece(enable),
                    words("."@),
                ],
            },
        ),
{
    let mut line = Line::new();
    match time_minutes {
        Some(time) => {
            line.say("Coolbreeze prewash ");
            say_switch(&mut line, enable);
            line.say(" (");
            line.say_number(time as u64, Tint::Cyan);
            line.say(" min).");
            assert(line.pieces@ =~= seq![
                words("Coolbreeze prewash "@),
                switch_piece(enable),
                words(" ("@),
                number(time as nat, Tint::Cyan),
                words(" min)."@),
            ]);
        },
        None => {
            line.say("Coolbreeze prewash ");
            say_switch(&mut line, enable);
            line.say(".");
            assert(line.pieces@ =~= seq![
                words("Coolbreeze prewash "@),
                switch_piece(enable),
                words("."@),
            ]);
        },
    }
    line.framed("Coolbreeze Control", 45)
}

/// What is said once draining after the prewash was set.
pub fn set_coolbreeze_drain_after_prewash(enable: bool) -> (r: Notice)
    ensures
        r.says(
            Some(("Coolbreeze Control"@, 45usize)),
            seq![
                words("Drain after prewash "@),
                switch_piece(enable),
                words("."@),
            ],
        ),
{
    let mut line = Line::new();
    line.say("Drain after prewash ");
    say_switch(&mut line, enable);
    line.say(".");
    assert(line.pieces@ =~= seq![
        words("Drain after prewash "@),
        switch_piece(enable),
        words("."@),
    ]);
    line.framed("Coolbreeze Control", 45)
}

/// What is said once the cooler's drain cycle was set.
pub fn set_coolbreeze_drain_cycle(enable: bool, period_hours: Option<u16>) -> (r: Notice)
    ensures
        r.says(
            Some(("Coolbreeze Control"@, 55usize)),
            match period_hours {
                Some(hours) => seq![
                    words("Drain cycle "@),
                    switch_piece(enable),
                    words(" (every "@),
                    number(hours as nat, Tint::Cyan),
                    words(" hrs)."@),
                ],
                None => seq![
                    words("Drain cycle "@),
                    switch_piece(enable),
                    words("."@),
                ],
            },
        ),
{
    let mut line = Line::new();
    match period_hours {
        Some(hours) => {
            line.say("Drain cycle ");
            say_switch(&mut line, enable);
            line.say(" (every ");
            line.say_number(hours as u64, Tint::Cyan);
            line.say(" hrs).");
            assert(line.pieces@ =~= seq![
                words("Drain cycle "@),
                switch_piece(enable),
                words(" (every "@),
                number(hours as nat, Tint::Cyan),
                words(" hrs)."@),
            ]);
        },
        None => {
            line.say("Drain cycle ");
            say_switch(&mut line, enable);
            line.say(".");
            assert(line.pieces@ =~= seq![
                words("Drain cycle "@),
                switch_piece(enable),
                words("."@),
            ]);
        },
    }
    line.framed("Coolbreeze Control", 55)
}

/// What is said once the cooler's postwash was set.
pub fn set_coolbreeze_postwash(enable: bool, time_minutes: Option<u8>) -> (r: Notice)
    ensures
        r.says(
            Some(("Coolbreeze Control"@, 45usize)),
            match time_minutes {
                Some(time) => seq![
                    words("Postwash "@),
                    switch_piece(enable),
                    words(" ("@),
                    number(time as nat, Tint::Cyan),
                    words(" min)."@),
                ],
                None => seq![
                    words("Postwash "@),
                    switch_piece(enable),
                    words("."@),
                ],
            },
        ),
{
    let mut line = Line::new();
    match time_minutes {
        Some(time) => {
            line.say("Postwash ");
            say_switch(&mut line, enable);
            line.say(" (");
            line.say_number(time as u64, Tint::Cyan);
            line.say(" min).");
            assert(line.pieces@ =~= seq![
                words("Postwash "@),
                switch_piece(enable),
                words(" ("@),
                number(time as nat, Tint::Cyan),
                words(" min)."@),
            ]);
        },
        None => {
            line.say("Postwash ");
            say_switch(&mut line, enable);
            line.say(".");
            assert(line.pieces@ =~= seq![
                words("Postwash "@),
                switch_piece(enable),
                words("."@),
            ]);
        },
    }
    line.framed("Coolbreeze Control", 45)
}

/// What is said once draining before the postwash was set.
pub fn set_coolbreeze_drain_before_postwash(enable: bool) -> (r: Notice)
    ensures
        r.says(
            Some(("Coolbreeze Control"@, 45usize)),
            seq![
                words("Drain before postwash "@),
                switch_piece(enable),
                words("."@),
            ],
        ),
{
    let mut line = Line::new();
    line.say("Drain before postwash ");
    say_switch(&mut line, enable);
    line.say(".");
    assert(line.pieces@ =~= seq![
        words("Drain before postwash "@),
        switch_piece(enable),
        words("."@),
    ]);
    line.framed("Coolbreeze Control", 45)
}

/// What is said once the cooler's inverter was set.
pub fn set_coolbreeze_inverter(enable: bool) -> (r: Notice)
    ensures
        r.says(
            Some(("Coolbreeze Control"@, 45usize)),
            seq![
                words("Coolbreeze inverter "@),
                switch_piece(enable),
                words("."@),
            ],
        ),
{
    let mut line = Line::new();
    line.say("Coolbreeze inverter ");
    say_switch(&mut line, enable);
    line.say(".");
    assert(line.pieces@ =~= seq![
        words("Coolbreeze inverter "@),
        switch_piece(enable),
        words("."@),
    ]);
    line.framed("Coolbreeze Control", 45)
}

/// What is said once resuming the last state was set.
pub fn set_coolbreeze_resume_last(enable: bool) -> (r: Notice)
    ensures
        r.says(
            Some(("Coolbreeze Control"@, 45usize)),
            seq![
                words("Resume last state "@),
                switch_piece(enable),
                words("."@),
            ],
        ),
{
    let mut line = Line::new();
    line.say("Resume last state ");
    say_switch(&mut line, enable);
    line.say(".");
    assert(line.pieces@ =~= seq![
        words("Resume last state "@),
        switch_piece(enable),
        words("."@),
    ]);
    line.framed("Coolbreeze Control", 45)
}

/// What is said once the cooler's maximum fan speed in automatic mode was set.
pub fn set_coolbreeze_fan_max_auto(speed: u8) -> (r: Notice)
    ensures
        r.says(
            Some(("Coolbreeze Control"@, 50usize)),
            seq![
                words("Fan max auto speed set to "@),
                number(speed as nat, Tint::Green),
                words("%."@),
            ],
        ),
{
    let mut line = Line::new();
    line.say("Fan max auto speed set to ");
    line.say_number(speed as u64, Tint::Green);
    line.say("%.");
    assert(line.pieces@ =~= seq![
        words("Fan max auto speed set to "@),
        number(speed as nat, Tint::Green),
        words("%."@),
    ]);
    line.framed("Coolbreeze Control", 50)
}

/// What is said once the cooler's maximum fan speed was set.
pub fn set_coolbreeze_fan_max(speed: u8) -> (r: Notice)
    ensures
        r.says(
            Some(("Coolbreeze Control"@, 50usize)),
            seq![
                words("Fan max speed set to "@),
                number(speed as nat, Tint::Green),
                words("%."@),
            ],
        ),
{
    let mut line = Line::new();
    line.say("Fan max speed set to ");
    line.say_number(speed as u64, Tint::Green);
    line.say("%.");
    assert(line.pieces@ =~= seq![
        words("Fan max speed set to "@),
        number(speed as nat, Tint::Green),
        words("%."@),
    ]);
    line.framed("Coolbreeze Control", 50)
}

/// What is said once the cooler's maximum exhaust speed was set.
pub fn set_coolbreeze_exhaust_max(speed: u8) -> (r: Notice)
    ensures
        r.says(
            Some(("Coolbreeze Control"@, 50usize)),
            seq![
                words("Exhaust max speed set to "@),
                number(speed as nat, Tint::Green),
                words("%."@),
            ],
        ),
{
    let mut line = Line::new();
    line.say("Exhaust max speed set to ");
    line.say_number(speed as u64, Tint::Green);
    line.say("%.");
    assert(line.pieces@ =~= seq![
        words("Exhaust max speed set to "@),
        number(speed as nat, Tint::Green),
        words("%."@),
    ]);
    line.framed("Coolbreeze Control", 50)
}

/// What is said once the cooler's exhaust mode was set.
pub fn set_coolbreeze_exhaust_enable(enable: bool) -> (r: Notice)
    ensures
        r.says(
            Some(("Coolbreeze Control"@, 45usize)),
            seq![
                words("Exhaust mode "@),
                switch_piece(enable),
                words("."@),
            ],
        ),
{
    let mut line = Line::new();
    line.say("Exhaust mode ");
    say_switch(&mut line, enable);
    line.say(".");
    assert(line.pieces@ =~= seq![
        words("Exhaust mode "@),
        switch_piece(enable),
        words("."@),
    ]);
    line.framed("Coolbreeze Control", 45)
}

/// What is said once the sensor that controls the cooler was chosen.
pub fn set_coolbreeze_control_sensor(sensor_type: &str) -> (r: Notice)
    ensures
        r.says(
            Some(("Coolbreeze Control"@, 50usize)),
            seq![
                words("Control sensor set to "@),
                tinted(sensor_type@, Tint::Cyan),
                words("."@),
            ],
        ),
{
    let mut line = Line::new();
    line.say("Control sensor set to ");
    line.say_in(sensor_type, Tint::Cyan);
    line.say(".");
    assert(line.pieces@ =~= seq![
        words("Control sensor set to "@),
        tinted(sensor_type@, Tint::Cyan),
        words("."@),
    ]);
    line.framed("Coolbreeze Control", 50)
}

/// A number of tenths with its sign and one decimal place, e.g. `+2.5`.
pub open spec fn signed_tenths_text(tenths: int) -> Seq<char> {
    let size = if tenths < 0 {
        (-tenths) as nat
    } else {
        tenths as nat
    };
    seq![if tenths < 0 {
        '-'
    } else {
        '+'
    }] + decimal_text(size / 10) + seq!['.'] + seq![digit_char(size % 10)]
}

/// A number of tenths with its sign and one decimal place.
pub fn format_signed_tenths(tenths: i16) -> (r: String)
    ensures
        r@ == signed_tenths_text(tenths as int),
{
    let size: u64 = if tenths < 0 {
        (-(tenths as i32)) as u64
    } else {
        tenths as u64
    };
    let mut out = String::new();
    push_char(
        &mut out,
        if tenths < 0 {
            '-'
        } else {
            '+'
        },
    );
    push_decimal(&mut out, size / 10);
    push_char(&mut out, '.');
    push_char(&mut out, (48u8 + (size % 10) as u8) as char);
    assert(out@ =~= signed_tenths_text(tenths as int));
    out
}

/// What is said once the cooler's temperature calibration was set, which
/// is given in tenths of a degree and shown in degrees.
pub fn set_coolbreeze_temp_calibration(calibration: i16) -> (r: Notice)
    ensures
        r.says(
            Some(("Coolbreeze Control"@, 55usize)),
            seq![
                words("Temperature calibration set to "@),
                tinted(signed_tenths_text(calibration as int), Tint::Green),
                words("°C."@),
            ],
        ),
{
    let mut line = Line::new();
    line.say("Temperature calibration set to ");
    let shown = format_signed_tenths(calibration);
    line.say_in(shown.as_str(), Tint::Green);
    line.say("°C.");
    assert(line.pieces@ =~= seq![
        words("Temperature calibration set to "@),
        tinted(signed_tenths_text(calibration as int), Tint::Green),
        words("°C."@),
    ]);
    line.framed("Coolbreeze Control", 55)
}

/// What is said once the cooler's deadband was set, which is given in
/// hundredths of a degree and shown in degrees.
pub fn set_coolbreeze_temp_deadband(deadband: u16) -> (r: Notice)
    ensures
        r.says(
            Some(("Coolbreeze Control"@, 55usize)),
            seq![
                words("Temperature deadband set to "@),
                tinted(temp_text(deadband as nat), Tint::Green),
                words("°C."@),
            ],
        ),
{
    let mut line = Line::new();
    line.say("Temperature deadband set to ");
    let shown = format_temp(deadband as u32);
    line.say_in(shown.as_str(), Tint::Green);
    line.say("°C.");
    assert(line.pieces@ =~= seq![
        words("Temperature deadband set to "@),
        tinted(temp_text(deadband as nat), Tint::Green),
        words("°C."@),
    ]);
    line.framed("Coolbreeze Control", 55)
}

/// What is said once the time of the cooler's fan at its maximum was set.
pub fn set_coolbreeze_auto_fan_max_time(time_minutes: u8) -> (r: Notice)
    ensures
        r.says(
            Some(("Coolbreeze Control"@, 55usize)),
            seq![
                words("Auto fan max time set to "@),
                number(time_minutes as nat, Tint::Green),
                words(" minutes."@),
            ],
        ),
{
    let mut line = Line::new();
    line.say("Auto fan max time set to ");
    line.say_number(time_minutes as u64, Tint::Green);
    line.say(" minutes.");
    assert(line.pieces@ =~= seq![
        words("Auto fan max time set to "@),
        number(time_minutes as nat, Tint::Green),
        words(" minutes."@),
    ]);
    line.framed("Coolbreeze Control", 55)
}

/// What is said once the ventilation's humidity setpoint was set.
pub fn set_ventilation_rh_setpoint(rh: u8) -> (r: Notice)
    ensures
        r.says(
            Some(("Ventilation Control"@, 50usize)),
            seq![
                words("RH setpoint set to "@),
                number(rh as nat, Tint::Green),
                words("%."@),
            ],
        ),
{
    let mut line = Line::new();
    line.say("RH setpoint set to ");
    line.say_number(rh as u64, Tint::Green);
    line.say("%.");
    assert(line.pieces@ =~= seq![
        words("RH setpoint set to "@),
        number(rh as nat, Tint::Green),
        words("%."@),
    ]);
    line.framed("Ventilation Control", 50)
}

/// What is said once the ventilation's VOCs setpoint was set.
pub fn set_ventilation_vocs_setpoint(vocs: u16) -> (r: Notice)
    ensures
        r.says(
            Some(("Ventilation Control"@, 50usize)),
            seq![
                words("VOCs setpoint set to "@),
                number(vocs as nat, Tint::Green),
                words(" ppb."@),
            ],
        ),
{
    let mut line = Line::new();
    line.say("VOCs setpoint set to ");
    line.say_number(vocs as u64, Tint::Green);
    line.say(" ppb.");
    assert(line.pieces@ =~= seq![
        words("VOCs setpoint set to "@),
        number(vocs as nat, Tint::Green),
        words(" ppb."@),
    ]);
    line.framed("Ventilation Control", 50)
}

/// What is said once the ventilation's eCO2 setpoint was set.
pub fn set_ventilation_eco2_setpoint(eco2: u16) -> (r: Notice)
    ensures
        r.says(
            Some(("Ventilation Control"@, 50usize)),
            seq![
                words("eCO2 setpoint set to "@),
                number(eco2 as nat, Tint::Green),
                words(" ppm."@),
            ],
        ),
{
    let mut line = Line::new();
    line.say("eCO2 setpoint set to ");
    line.say_number(eco2 as u64, Tint::Green);
    line.say(" ppm.");
    assert(line.pieces@ =~= seq![
        words("eCO2 setpoint set to "@),
        number(eco2 as nat, Tint::Green),
        words(" ppm."@),
    ]);
    line.framed("Ventilation Control", 50)
}

/// What is said once the ventilation's fan stage delay was set.
pub fn set_ventilation_fan_stage_delay(delay_minutes: u8) -> (r: Notice)
    ensures
        r.says(
            Some(("Ventilation Control"@, 50usize)),
            seq![
                words("Fan stage delay set to "@),
                number(delay_minutes as nat, Tint::Green),
                words(" min."@),
            ],
        ),
{
    let mut line = Line::new();
    line.say("Fan stage delay set to ");
    line.say_number(delay_minutes as u64, Tint::Green);
    line.say(" min.");
    assert(line.pieces@ =~= seq![
        words("Fan stage delay set to "@),
        number(delay_minutes as nat, Tint::Green),
        words(" min."@),
    ]);
    line.framed("Ventilation Control", 50)
}

/// What is said once cycling the ventilation's fan off was set.
pub fn set_ventilation_cycle_fan_off(enable: bool) -> (r: Notice)
    ensures
        r.says(
            Some(("Ventilation Control"@, 50usize)),
            seq![
                words("Cycle fan off "@),
                switch_piece(enable),
                words("."@),
            ],
        ),
{
    let mut line = Line::new();
    line.say("Cycle fan off ");
    say_switch(&mut line, enable);
    line.say(".");
    assert(line.pieces@ =~= seq![
        words("Cycle fan off "@),
        switch_piece(enable),
        words("."@),
    ]);
    line.framed("Ventilation Control", 50)
}

/// What is said once the control of the ventilation by humidity was set.
pub fn set_ventilation_use_rh_control(enable: bool) -> (r: Notice)
    ensures
        r.says(
            Some(("Ventilation Control"@, 50usize)),
            seq![
                words("Use RH control "@),
                switch_piece(enable),
                words("."@),
            ],
        ),
{
    let mut line = Line::new();
    line.say("Use RH control ");
    say_switch(&mut line, enable);
    line.say(".");
    assert(line.pieces@ =~= seq![
        words("Use RH control "@),
        switch_piece(enable),
        words("."@),
    ]);
    line.framed("Ventilation Control", 50)
}

/// What is said once the control of the ventilation by VOCs was set.
pub fn set_ventilation_use_vocs_control(enable: bool) -> (r: Notice)
    ensures
        r.says(
            Some(("Ventilation Control"@, 50usize)),
            seq![
                words("Use VOCs control "@),
                switch_piece(enable),
                words("."@),
            ],
        ),
{
    let mut line = Line::new();
    line.say("Use VOCs control ");
    say_switch(&mut line, enable);
    line.say(".");
    assert(line.pieces@ =~= seq![
        words("Use VOCs control "@),
        switch_piece(enable),
        words("."@),
    ]);
    line.framed("Ventilation Control", 50)
}

/// What is said once the control of the ventilation by eCO2 was set.
pub fn set_ventilation_use_eco2_control(enable: bool) -> (r: Notice)
    ensures
        r.says(
            Some(("Ventilation Control"@, 50usize)),
            seq![
                words("Use eCO2 control "@),
                switch_piece(enable),
                words("."@),
            ],
        ),
{
    let mut line = Line::new();
    line.say("Use eCO2 control ");
    say_switch(&mut line, enable);
    line.say(".");
    assert(line.pieces@ =~= seq![
        words("Use eCO2 control "@),
        switch_piece(enable),
        words("."@),
    ]);
    line.framed("Ventilation Control", 50)
}

/// What is said once the system's setpoint was set, which is given in hundredths of a degree and shown in degrees.
pub fn set_system_setpoint(setpoint: u32) -> (r: Notice)
    ensures
        r.says(
            Some(("System Control"@, 45usize)),
            seq![
                words("System setpoint set to "@),
                words(temp_text(setpoint as nat)),
                words("°C."@),
            ],
        ),
{
    let mut line = Line::new();
    line.say("System setpoint set to ");
    say_temp(&mut line, setpoint);
    line.say("°C.");
    assert(line.pieces@ =~= seq![
        words("System setpoint set to "@),
        words(temp_text(setpoint as nat)),
        words("°C."@),
    ]);
    line.framed("System Control", 45)
}

/// What is said once the sleep timer was set.
pub fn set_sleep_timer(minutes: u32) -> (r: Notice)
    ensures
        r.says(
            Some(("System Control"@, 45usize)),
            if minutes == 0 {
                seq![
                    words("Sleep timer disabled."@),
                ]
            } else {
                seq![
                    words("Sleep timer set to "@),
                    number(minutes as nat, Tint::Green),
                    words(" minutes."@),
                ]
            },
        ),
{
    let mut line = Line::new();
    if minutes == 0 {
        line.say("Sleep timer disabled.");
        assert(line.pieces@ =~= seq![
            words("Sleep timer disabled."@),
        ]);
    } else {
        line.say("Sleep timer set to ");
        line.say_number(minutes as u64, Tint::Green);
        line.say(" minutes.");
        assert(line.pieces@ =~= seq![
            words("Sleep timer set to "@),
            number(minutes as nat, Tint::Green),
            words(" minutes."@),
        ]);
    }
    line.framed("System Control", 45)
}

/// What is said once the filter warning was set.
pub fn set_filter_warning(months: u8) -> (r: Notice)
    ensures
        r.says(
            Some(("System Configuration"@, 50usize)),
            if months == 0 {
                seq![
                    words("Filter warning disabled."@),
                ]
            } else {
                seq![
                    words("Filter warning set to "@),
                    number(months as nat, Tint::Green),
                    words(" months."@),
                ]
            },
        ),
{
    let mut line = Line::new();
    if months == 0 {
        line.say("Filter warning disabled.");
        assert(line.pieces@ =~= seq![
            words("Filter warning disabled."@),
        ]);
    } else {
        line.say("Filter warning set to ");
        line.say_number(months as u64, Tint::Green);
        line.say(" months.");
        assert(line.pieces@ =~= seq![
            words("Filter warning set to "@),
            number(months as nat, Tint::Green),
            words(" months."@),
        ]);
    }
    line.framed("System Configuration", 50)
}

/// What is said once the damper time was set.
pub fn set_damper_time(seconds: u8) -> (r: Notice)
    ensures
        r.says(
            Some(("System Configuration"@, 50usize)),
            if seconds == 0 {
                seq![
                    words("Damper time set to automatic."@),
                ]
            } else {
                seq![
                    words("Damper time set to "@),
                    number(seconds as nat, Tint::Green),
                    words(" seconds."@),
                ]
            },
        ),
{
    let mut line = Line::new();
    if seconds == 0 {
        line.say("Damper time set to automatic.");
        assert(line.pieces@ =~= seq![
            words("Damper time set to automatic."@),
        ]);
    } else {
        line.say("Damper time set to ");
        line.say_number(seconds as u64, Tint::Green);
        line.say(" seconds.");
        assert(line.pieces@ =~= seq![
            words("Damper time set to "@),
            number(seconds as nat, Tint::Green),
            words(" seconds."@),
        ]);
    }
    line.framed("System Configuration", 50)
}

/// The bound of the economy lock that is shown: the one that is given, or
/// else the one that is in force without it.
pub open spec fn bound_or(bound: Option<u32>, otherwise: u32) -> u32 {
    match bound {
        Some(raw) => raw,
        None => otherwise,
    }
}

/// What is said once the economy lock was set; the bounds are given in
/// hundredths of a degree and shown in degrees, and a bound that is not
/// given is shown as the end of the range that a setpoint may take.
pub fn set_economy_lock(enable: bool, min: Option<u32>, max: Option<u32>) -> (r: Notice)
    ensures
        r.says(
            Some(("System Configuration"@, 55usize)),
            if min is Some || max is Some {
                seq![
                    words("Economy lock "@),
                    switch_piece(enable),
                    words(" ("@),
                    words(temp_text(bound_or(min, 1500) as nat)),
                    words("-"@),
                    words(temp_text(bound_or(max, 3000) as nat)),
                    words("°C)."@),
                ]
            } else {
                seq![words("Economy lock "@), switch_piece(enable), words("."@)]
            },
        ),
{
    let mut line = Line::new();
    line.say("Economy lock ");
    say_switch(&mut line, enable);
    if min.is_some() || max.is_some() {
        let lower: u32 = match min {
            Some(raw) => raw,
            None => 1500,
        };
        let upper: u32 = match max {
            Some(raw) => raw,
            None => 3000,
        };
        line.say(" (");
        say_temp(&mut line, lower);
        line.say("-");
        say_temp(&mut line, upper);
        line.say("°C).");
        assert(line.pieces@ =~= seq![
            words("Economy lock "@),
            switch_piece(enable),
            words(" ("@),
            words(temp_text(bound_or(min, 1500) as nat)),
            words("-"@),
            words(temp_text(bound_or(max, 3000) as nat)),
            words("°C)."@),
        ]);
    } else {
        line.say(".");
        assert(line.pieces@ =~= seq![words("Economy lock "@), switch_piece(enable), words("."@)]);
    }
    line.framed("System Configuration", 55)
}

/// A number of hundredths with two decimal places, e.g. `0.75`.
pub open spec fn hundredths_text(raw: nat) -> Seq<char> {
    decimal_text(raw / 100) + seq!['.'] + seq![digit_char((raw / 10) % 10)] + seq![
        digit_char(raw % 10),
    ]
}

/// A number of hundredths with two decimal places.
pub fn format_hundredths(raw: u32) -> (r: String)
    ensures
        r@ == hundredths_text(raw as nat),
{
    let mut out = String::new();
    push_decimal(&mut out, (raw / 100) as u64);
    push_char(&mut out, '.');
    push_char(&mut out, (48u8 + ((raw / 10) % 10) as u8) as char);
    push_char(&mut out, (48u8 + (raw % 10) as u8) as char);
    assert(out@ =~= hundredths_text(raw as nat));
    out
}

/// What is said once the deadband of the automatic mode was set, which is
/// given in hundredths of a degree and shown in degrees.
pub fn set_auto_mode_deadband(deadband: u16) -> (r: Notice)
    ensures
        r.says(
            Some(("System Configuration"@, 55usize)),
            seq![
                words("Auto mode deadband set to "@),
                words(hundredths_text(deadband as nat)),
                words("°C."@),
            ],
        ),
{
    let mut line = Line::new();
    line.say("Auto mode deadband set to ");
    let shown = format_hundredths(deadband as u32);
    line.say(shown.as_str());
    line.say("°C.");
    assert(line.pieces@ =~= seq![
        words("Auto mode deadband set to "@),
        words(hundredths_text(deadband as nat)),
        words("°C."@),
    ]);
    line.framed("System Configuration", 55)
}

/// The word for a static pressure level.
pub open spec fn pressure_word(level: u8) -> Seq<char> {
    if level == 0 {
        "lowest"@
    } else if level == 4 {
        "highest"@
    } else {
        "medium"@
    }
}

/// What is said once the static pressure level was set.
pub fn set_static_pressure(level: u8) -> (r: Notice)
    ensures
        r.says(
            Some(("System Configuration"@, 50usize)),
            seq![
                words("Static pressure set to level "@),
                number(level as nat, Tint::Green),
                words(" ("@),
                tinted(pressure_word(level), Tint::Cyan),
                words(")."@),
            ],
        ),
{
    let mut line = Line::new();
    line.say("Static pressure set to level ");
    line.say_number(level as u64, Tint::Green);
    line.say(" (");
    if level == 0 {
        line.say_in("lowest", Tint::Cyan);
    } else if level == 4 {
        line.say_in("highest", Tint::Cyan);
    } else {
        line.say_in("medium", Tint::Cyan);
    }
    line.say(").");
    assert(line.pieces@ =~= seq![
        words("Static pressure set to level "@),
        number(level as nat, Tint::Green),
        words(" ("@),
        tinted(pressure_word(level), Tint::Cyan),
        words(")."@),
    ]);
    line.framed("System Configuration", 50)
}

/// What is said once the airflow settings were locked or unlocked.
pub fn set_airflow_lock(enable: bool) -> (r: Notice)
    ensures
        r.says(
            Some(("System Configuration"@, 50usize)),
            seq![
                words("Airflow adjustment "@),
                lock_piece(enable),
                words("."@),
            ],
        ),
{
    let mut line = Line::new();
    line.say("Airflow adjustment ");
    say_lock(&mut line, enable);
    line.say(".");
    assert(line.pieces@ =~= seq![
        words("Airflow adjustment "@),
        lock_piece(enable),
        words("."@),
    ]);
    line.framed("System Configuration", 50)
}

/// What is said once the minimum airflow settings were locked or unlocked.
pub fn set_airflow_min_lock(enable: bool) -> (r: Notice)
    ensures
        r.says(
            Some(("System Configuration"@, 50usize)),
            seq![
                words("Airflow min adjustment "@),
                lock_piece(enable),
                words("."@),
            ],
        ),
{
    let mut line = Line::new();
    line.say("Airflow min adjustment ");
    say_lock(&mut line, enable);
    line.say(".");
    assert(line.pieces@ =~= seq![
        words("Airflow min adjustment "@),
        lock_piece(enable),
        words("."@),
    ]);
    line.framed("System Configuration", 50)
}

/// What is said once opening the dampers while the system is off was set.
pub fn set_open_dampers_when_off(enable: bool) -> (r: Notice)
    ensures
        r.says(
            Some(("System Configuration"@, 55usize)),
            seq![
                words("Open dampers when off "@),
                switch_piece(enable),
                words("."@),
            ],
        ),
{
    let mut line = Line::new();
    line.say("Open dampers when off ");
    say_switch(&mut line, enable);
    line.say(".");
    assert(line.pieces@ =~= seq![
        words("Open dampers when off "@),
        switch_piece(enable),
        words("."@),
    ]);
    line.framed("System Configuration", 55)
}

/// What is said once the scrooge mode was set.
pub fn set_scrooge_mode(enable: bool) -> (r: Notice)
    ensures
        r.says(
            Some(("System Configuration"@, 50usize)),
            seq![
                words("Scrooge mode "@),
                caution_piece(enable),
                words("."@),
            ],
        ),
{
    let mut line = Line::new();
    line.say("Scrooge mode ");
    say_caution(&mut line, enable);
    line.say(".");
    assert(line.pieces@ =~= seq![
        words("Scrooge mode "@),
        caution_piece(enable),
        words("."@),
    ]);
    line.framed("System Configuration", 50)
}

/// What is said once reversing the dampers was set.
pub fn set_reverse_dampers(enable: bool) -> (r: Notice)
    ensures
        r.says(
            Some(("System Configuration"@, 50usize)),
            seq![
                words("Reverse dampers "@),
                caution_piece(enable),
                words("."@),
            ],
        ),
{
    let mut line = Line::new();
    line.say("Reverse dampers ");
    say_caution(&mut line, enable);
    line.say(".");
    assert(line.pieces@ =~= seq![
        words("Reverse dampers "@),
        caution_piece(enable),
        words("."@),
    ]);
    line.framed("System Configuration", 50)
}

/// What is said once the control of constant zones by area was set.
pub fn set_constant_control_by_area(enable: bool, area: Option<u16>) -> (r: Notice)
    ensures
        r.says(
            Some(("System Configuration"@, 60usize)),
            match area {
                Some(value) => seq![
                    words("Constant control by area "@),
                    switch_piece(enable),
                    words(" ("@),
                    number(value as nat, Tint::Cyan),
                    words(" m²)."@),
                ],
                None => seq![
                    words("Constant control by area "@),
                    switch_piece(enable),
                    words("."@),
                ],
            },
        ),
{
    let mut line = Line::new();
    match area {
        Some(value) => {
            line.say("Constant control by area ");
            say_switch(&mut line, enable);
            line.say(" (");
            line.say_number(value as u64, Tint::Cyan);
            line.say(" m²).");
            assert(line.pieces@ =~= seq![
                words("Constant control by area "@),
                switch_piece(enable),
                words(" ("@),
                number(value as nat, Tint::Cyan),
                words(" m²)."@),
            ]);
        },
        None => {
            line.say("Constant control by area ");
            say_switch(&mut line, enable);
            line.say(".");
            assert(line.pieces@ =~= seq![
                words("Constant control by area "@),
                switch_piece(enable),
                words("."@),
            ]);
        },
    }
    line.framed("System Configuration", 60)
}

/// What is said once a schedule was named.
pub fn set_schedule_name(schedule_index: u8, new_name: &str) -> (r: Notice)
    ensures
        r.says(
            None,
            seq![
                words("Schedule "@),
                number(schedule_index as nat, Tint::Green),
                words(" name set to '"@),
                tinted(new_name@, Tint::Green),
                words("'."@),
            ],
        ),
{
    let mut line = Line::new();
    line.say("Schedule ");
    line.say_number(schedule_index as u64, Tint::Green);
    line.say(" name set to '");
    line.say_in(new_name, Tint::Green);
    line.say("'.");
    assert(line.pieces@ =~= seq![
        words("Schedule "@),
        number(schedule_index as nat, Tint::Green),
        words(" name set to '"@),
        tinted(new_name@, Tint::Green),
        words("'."@),
    ]);
    line.bare()
}

/// What is said once the times of a schedule were set.
pub fn set_schedule_time(schedule_index: u8, start_h: u8, start_m: u8, stop_h: u8, stop_m: u8) -> (r:
    Notice)
    ensures
        r.says(
            None,
            seq![
                words("Schedule "@),
                number(schedule_index as nat, Tint::Green),
                words(" time set to Start: "@),
                words(two_digit_text(start_h as nat)),
                words(":"@),
                words(two_digit_text(start_m as nat)),
                words(", Stop: "@),
                words(two_digit_text(stop_h as nat)),
                words(":"@),
                words(two_digit_text(stop_m as nat)),
                words("."@),
            ],
        ),
{
    let mut line = Line::new();
    line.say("Schedule ");
    line.say_number(schedule_index as u64, Tint::Green);
    line.say(" time set to Start: ");
    say_two_digits(&mut line, start_h);
    line.say(":");
    say_two_digits(&mut line, start_m);
    line.say(", Stop: ");
    say_two_digits(&mut line, stop_h);
    line.say(":");
    say_two_digits(&mut line, stop_m);
    line.say(".");
    assert(line.pieces@ =~= seq![
        words("Schedule "@),
        number(schedule_index as nat, Tint::Green),
        words(" time set to Start: "@),
        words(two_digit_text(start_h as nat)),
        words(":"@),
        words(two_digit_text(start_m as nat)),
        words(", Stop: "@),
        words(two_digit_text(stop_h as nat)),
        words(":"@),
        words(two_digit_text(stop_m as nat)),
        words("."@),
    ]);
    line.bare()
}

fn say_two_digits(line: &mut Line, n: u8)
    requires
        old(line).wf(),
    ensures
        final(line).wf(),
        final(line).pieces@ == old(line).pieces@.push(words(two_digit_text(n as nat))),
{
    let mut text = String::new();
    push_two_digits(&mut text, n);
    assert(text@ =~= two_digit_text(n as nat));
    line.say(text.as_str());
}

/// What is said once the days of a schedule were set.
pub fn set_schedule_days(schedule_index: u8) -> (r: Notice)
    ensures
        r.says(
            None,
            seq![
                words("Schedule "@),
                number(schedule_index as nat, Tint::Green),
                words(" days set."@),
            ],
        ),
{
    let mut line = Line::new();
    line.say("Schedule ");
    line.say_number(schedule_index as u64, Tint::Green);
    line.say(" days set.");
    assert(line.pieces@ =~= seq![
        words("Schedule "@),
        number(schedule_index as nat, Tint::Green),
        words(" days set."@),
    ]);
    line.bare()
}

/// What is said once the mode and the fan speed of a schedule were set.
pub fn set_schedule_mode_fan(schedule_index: u8) -> (r: Notice)
    ensures
        r.says(
            None,
            seq![
                words("Schedule "@),
                number(schedule_index as nat, Tint::Green),
                words(" mode/fan set."@),
            ],
        ),
{
    let mut line = Line::new();
    line.say("Schedule ");
    line.say_number(schedule_index as u64, Tint::Green);
    line.say(" mode/fan set.");
    assert(line.pieces@ =~= seq![
        words("Schedule "@),
        number(schedule_index as nat, Tint::Green),
        words(" mode/fan set."@),
    ]);
    line.bare()
}

/// What is said once a schedule was switched on.
pub fn enable_schedule(schedule_index: u8) -> (r: Notice)
    ensures
        r.says(
            None,
            seq![
                words("Schedule "@),
                number(schedule_index as nat, Tint::Green),
                words(" enabled."@),
            ],
        ),
{
    let mut line = Line::new();
    line.say("Schedule ");
    line.say_number(schedule_index as u64, Tint::Green);
    line.say(" enabled.");
    assert(line.pieces@ =~= seq![
        words("Schedule "@),
        number(schedule_index as nat, Tint::Green),
        words(" enabled."@),
    ]);
    line.bare()
}

/// What is said once a schedule was switched off.
pub fn disable_schedule(schedule_index: u8) -> (r: Notice)
    ensures
        r.says(
            None,
            seq![
                words("Schedule "@),
                number(schedule_index as nat, Tint::Red),
                words(" disabled."@),
            ],
        ),
{
    let mut line = Line::new();
    line.say("Schedule ");
    line.say_number(schedule_index as u64, Tint::Red);
    line.say(" disabled.");
    assert(line.pieces@ =~= seq![
        words("Schedule "@),
        number(schedule_index as nat, Tint::Red),
        words(" disabled."@),
    ]);
    line.bare()
}

/// What is said once the zone settings of a schedule were set.
pub fn set_schedule_zones(schedule_index: u8) -> (r: Notice)
    ensures
        r.says(
            None,
            seq![
                words("Schedule "@),
                number(schedule_index as nat, Tint::Green),
                words(" zone settings updated."@),
            ],
        ),
{
    let mut line = Line::new();
    line.say("Schedule ");
    line.say_number(schedule_index as u64, Tint::Green);
    line.say(" zone settings updated.");
    assert(line.pieces@ =~= seq![
        words("Schedule "@),
        number(schedule_index as nat, Tint::Green),
        words(" zone settings updated."@),
    ]);
    line.bare()
}

/// What is shown for the temperature at the controller, which is given in hundredths of a degree.
pub fn get_system_temperature(temp: u32) -> (r: Notice)
    ensures
        r.says(
            Some(("Controller Temperature"@, 45usize)),
            seq![
                words("Current Controller Temperature: "@),
                tinted(temp_text(temp as nat), Tint::Cyan),
                words("°C"@),
            ],
        ),
{
    let mut line = Line::new();
    line.say("Current Controller Temperature: ");
    say_temp_in(&mut line, temp, Tint::Cyan);
    line.say("°C");
    assert(line.pieces@ =~= seq![
        words("Current Controller Temperature: "@),
        tinted(temp_text(temp as nat), Tint::Cyan),
        words("°C"@),
    ]);
    line.framed("Controller Temperature", 45)
}

/// The upper-case form of an ASCII letter; every other character is left
/// as it is.
pub open spec fn ascii_upper(c: char) -> char {
    if 'a' <= c && c <= 'z' {
        ((c as u8) - 32) as char
    } else {
        c
    }
}

/// A name with its first letter as a capital.
pub open spec fn capitalised(name: Seq<char>) -> Seq<char> {
    if name.len() == 0 {
        name
    } else {
        seq![ascii_upper(name[0])] + name.drop_first()
    }
}

/// Writes the first letter of a name as a capital.
pub fn capitalise(name: &str) -> (r: String)
    ensures
        r@ == capitalised(name@),
{
    let chars = chars_of(name);
    let mut out = String::new();
    if chars.len() == 0 {
        assert(out@ =~= capitalised(name@));
        return out;
    }
    let first = chars[0];
    push_char(
        &mut out,
        if 'a' <= first && first <= 'z' {
            ((first as u8) - 32) as char
        } else {
            first
        },
    );
    let mut i: usize = 1;
    while i < chars.len()
        invariant
            chars@ == name@,
            1 <= i <= chars.len(),
            out@ == capitalised(name@).take(i as int),
        decreases chars.len() - i,
    {
        push_char(&mut out, chars[i]);
        assert(out@ =~= capitalised(name@).take(i + 1));
        i += 1;
    }
    assert(capitalised(name@).take(i as int) == capitalised(name@));
    out
}

/// The title of the box for a zone: what the box is about, and the
/// zone's name with a capital.
pub open spec fn zone_title(about: Seq<char>, zone_name: Seq<char>) -> Seq<char> {
    about + capitalised(zone_name)
}

fn title_for(about: &str, shown_name: &str) -> (r: String)
    ensures
        r@ == about@ + shown_name@,
{
    let mut title = String::from_str(about);
    title.append(shown_name);
    title
}

/// What is shown for the temperature in a zone, which is given in
/// hundredths of a degree.
pub fn get_zone_temperature(zone_name: &str, temp: u32) -> (r: Notice)
    ensures
        r.says(
            Some((zone_title("Zone Temperature: "@, zone_name@), 56usize)),
            seq![
                words(capitalised(zone_name@)),
                words(" Room Temperature: "@),
                tinted(temp_text(temp as nat), Tint::Cyan),
                words("°C"@),
            ],
        ),
{
    let shown_name = capitalise(zone_name);
    let mut line = Line::new();
    line.say(shown_name.as_str());
    line.say(" Room Temperature: ");
    let shown = format_temp(temp);
    line.say_in(shown.as_str(), Tint::Cyan);
    line.say("°C");
    assert(line.pieces@ =~= seq![
        words(capitalised(zone_name@)),
        words(" Room Temperature: "@),
        tinted(temp_text(temp as nat), Tint::Cyan),
        words("°C"@),
    ]);
    let title = title_for("Zone Temperature: ", shown_name.as_str());
    line.framed(title.as_str(), 56)
}

/// The name of the mode that an action switches a zone to, as it is said,
/// and its colour; `None` for an action that switches no mode, and for
/// switching a zone off, which is said in other words.
pub open spec fn mode_said(action: Seq<char>) -> Option<Piece> {
    if action == "on"@ || action == "auto"@ {
        Some(tinted("Auto"@, Tint::Green))
    } else if action == "open"@ {
        Some(tinted("OPEN"@, Tint::Yellow))
    } else if action == "override"@ {
        Some(tinted("Override"@, Tint::Yellow))
    } else if action == "constant"@ {
        Some(tinted("Constant"@, Tint::Yellow))
    } else {
        None
    }
}

/// What is said once an action on a zone was carried out.
pub open spec fn zone_said(zone_name: Seq<char>, action: Seq<char>, value: Seq<char>) -> Seq<Piece> {
    let name = tinted(capitalised(zone_name), Tint::Green);
    if mode_said(action) is Some {
        seq![
            words("Zone '"@),
            name,
            words("' successfully set to "@),
            mode_said(action)->0,
            words(" mode."@),
        ]
    } else if action == "off"@ {
        seq![
            words("Zone '"@),
            name,
            words("' successfully turned "@),
            tinted("OFF"@, Tint::Red),
            words("."@),
        ]
    } else if action == "set_setpoint"@ {
        seq![
            words("Setpoint for zone '"@),
            name,
            words("' successfully set to "@),
            tinted(value, Tint::Green),
            words("°C"@),
        ]
    } else if action == "set_max_air"@ {
        seq![
            words("Max air for zone '"@),
            name,
            words("' successfully set to "@),
            tinted(value, Tint::Green),
            words("%."@),
        ]
    } else if action == "set_min_air"@ {
        seq![
            words("Min air for zone '"@),
            name,
            words("' successfully set to "@),
            tinted(value, Tint::Green),
            words("%."@),
        ]
    } else if action == "set_name"@ {
        seq![
            words("Zone '"@),
            name,
            words("' successfully renamed to '"@),
            tinted(value, Tint::Green),
            words("'."@),
        ]
    } else {
        seq![
            words("Action '"@),
            tinted(action, Tint::Green),
            words("' for zone '"@),
            name,
            words("' successful."@),
        ]
    }
}

fn say_mode(line: &mut Line, action: &str) -> (said: bool)
    requires
        old(line).wf(),
    ensures
        final(line).wf(),
        said == (mode_said(action@) is Some),
        final(line).pieces@ == if said {
            old(line).pieces@.push(mode_said(action@)->0)
        } else {
            old(line).pieces@
        },
{
    if same_text(action, "on") || same_text(action, "auto") {
        line.say_in("Auto", Tint::Green);
        true
    } else if same_text(action, "open") {
        line.say_in("OPEN", Tint::Yellow);
        true
    } else if same_text(action, "override") {
        line.say_in("Override", Tint::Yellow);
        true
    } else if same_text(action, "constant") {
        line.say_in("Constant", Tint::Yellow);
        true
    } else {
        false
    }
}

fn say_set(line: &mut Line, before: &str, shown_name: &str, between: &str, value: &str, after: &str)
    requires
        old(line).wf(),
        old(line).pieces@.len() == 0,
    ensures
        final(line).wf(),
        final(line).pieces@ == seq![
            words(before@),
            tinted(shown_name@, Tint::Green),
            words(between@),
            tinted(value@, Tint::Green),
            words(after@),
        ],
{
    line.say(before);
    line.say_in(shown_name, Tint::Green);
    line.say(between);
    line.say_in(value, Tint::Green);
    line.say(after);
    assert(line.pieces@ =~= seq![
        words(before@),
        tinted(shown_name@, Tint::Green),
        words(between@),
        tinted(value@, Tint::Green),
        words(after@),
    ]);
}

/// What is said once an action on a zone was carried out; `value` is the
/// value that the action was given, as it was written.
pub fn control_zone(zone_name: &str, action: &str, value: &str) -> (r: Notice)
    ensures
        r.says(
            Some((zone_title("Zone Control: "@, zone_name@), 70usize)),
            zone_said(zone_name@, action@, value@),
        ),
{
    let shown_name = capitalise(zone_name);
    let title = title_for("Zone Control: ", shown_name.as_str());
    let mut tried = Line::new();
    tried.say("Zone '");
    tried.say_in(shown_name.as_str(), Tint::Green);
    tried.say("' successfully set to ");
    if say_mode(&mut tried, action) {
        tried.say(" mode.");
        assert(tried.pieces@ =~= zone_said(zone_name@, action@, value@));
        return tried.framed(title.as_str(), 70);
    }
    let mut line = Line::new();
    if same_text(action, "off") {
        line.say("Zone '");
        line.say_in(shown_name.as_str(), Tint::Green);
        line.say("' successfully turned ");
        line.say_in("OFF", Tint::Red);
        line.say(".");
        assert(line.pieces@ =~= zone_said(zone_name@, action@, value@));
    } else if same_text(action, "set_setpoint") {
        say_set(
            &mut line,
            "Setpoint for zone '",
            shown_name.as_str(),
            "' successfully set to ",
            value,
            "°C",
        );
    } else if same_text(action, "set_max_air") {
        say_set(
            &mut line,
            "Max air for zone '",
            shown_name.as_str(),
            "' successfully set to ",
            value,
            "%.",
        );
    } else if same_text(action, "set_min_air") {
        say_set(
            &mut line,
            "Min air for zone '",
            shown_name.as_str(),
            "' successfully set to ",
            value,
            "%.",
        );
    } else if same_text(action, "set_name") {
        say_set(
            &mut line,
            "Zone '",
            shown_name.as_str(),
            "' successfully renamed to '",
            value,
            "'.",
        );
    } else {
        line.say("Action '");
        line.say_in(action, Tint::Green);
        line.say("' for zone '");
        line.say_in(shown_name.as_str(), Tint::Green);
        line.say("' successful.");
        assert(line.pieces@ =~= zone_said(zone_name@, action@, value@));
    }
    line.framed(title.as_str(), 70)
}

} // verus!
