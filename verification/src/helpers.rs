//! Texts for the terminal: names of modes and fan speeds, coloured status
//! words, and the width that a coloured text takes on screen.

use crate::text::{
    chars_of, decimal_text, eq_ignore_case, is_digit, lemma_decimal_text, push_char,
    push_decimal, same_ignoring_case,
};
use vstd::prelude::*;
use vstd::string::StringExecFns;

verus! {

/// The character that starts a terminal control sequence.
pub const ESCAPE: char = '\u{1b}';

/// The colours that status texts are shown in.
#[derive(Clone, Copy, Debug, PartialEq, Eq, Structural)]
pub enum Tint {
    Red,
    Green,
    Yellow,
    Blue,
    Cyan,
    White,
}

/// The number by which a terminal selects a text colour.
pub open spec fn tint_code(tint: Tint) -> Seq<char> {
    match tint {
        Tint::Red => seq!['3', '1'],
        Tint::Green => seq!['3', '2'],
        Tint::Yellow => seq!['3', '3'],
        Tint::Blue => seq!['3', '4'],
        Tint::Cyan => seq!['3', '6'],
        Tint::White => seq!['3', '7'],
    }
}

/// The control sequence that switches a colour on.
pub open spec fn tint_on(tint: Tint) -> Seq<char> {
    seq![ESCAPE, '['] + tint_code(tint) + seq!['m']
}

/// The control sequence that switches every colour off.
pub open spec fn tint_off() -> Seq<char> {
    seq![ESCAPE, '[', '0', 'm']
}

/// `text` between the sequences that switch `tint` on and off again.
pub open spec fn painted(tint: Tint, text: Seq<char>) -> Seq<char> {
    tint_on(tint) + text + tint_off()
}

/// `text` holds no control sequence of its own.
pub open spec fn escape_free(text: Seq<char>) -> bool {
    forall|i: int| 0 <= i < text.len() ==> #[trigger] text[i] != ESCAPE
}

/// `out` shows `text` in `tint`: either painted, or left plain where the
/// terminal takes no colours.
pub open spec fn shows(out: Seq<char>, tint: Tint, text: Seq<char>) -> bool {
    out == text || out == painted(tint, text)
}

/// Colours a text with `colored::Colorize::color` and renders it with
/// `to_string`. Whether colours are used is decided by the environment (a
/// terminal on standard output, `NO_COLOR`, `CLICOLOR`, `CLICOLOR_FORCE`), so
/// the text comes back either unchanged or between the sequence
/// `ESC [ <code> m` and the reset `ESC [ 0 m`. This is claimed only of texts
/// without an escape character: in others the crate repeats the colour
/// after each reset it finds.
#[verifier::external_body]
pub(crate) fn paint(text: &str, tint: Tint) -> (r: String)
    ensures
        escape_free(text@) ==> shows(r@, tint, text@),
{
    let color = match tint {
        Tint::Red => colored::Color::Red,
        Tint::Green => colored::Color::Green,
        Tint::Yellow => colored::Color::Yellow,
        Tint::Blue => colored::Color::Blue,
        Tint::Cyan => colored::Color::Cyan,
        Tint::White => colored::Color::White,
    };
    colored::Colorize::color(text, color).to_string()
}

/// Where the scan of a text for its visible width stands: the characters
/// counted so far, and whether it is inside a control sequence.
pub struct Scan {
    pub count: nat,
    pub in_escape: bool,
}

/// One step of the scan: an escape character opens a control sequence, an
/// `m` closes one, and every character outside of one counts.
pub open spec fn scan_step(state: Scan, c: char) -> Scan {
    if c == ESCAPE {
        Scan { count: state.count, in_escape: true }
    } else if c == 'm' && state.in_escape {
        Scan { count: state.count, in_escape: false }
    } else if !state.in_escape {
        Scan { count: state.count + 1, in_escape: false }
    } else {
        state
    }
}

/// The scan of `text`, begun in `state`.
pub open spec fn scan_from(state: Scan, text: Seq<char>) -> Scan
    decreases text.len(),
{
    if text.len() == 0 {
        state
    } else {
        scan_step(scan_from(state, text.drop_last()), text.last())
    }
}

/// The number of characters of `text` that a terminal shows, its colour
/// sequences left out.
pub open spec fn visible_length(text: Seq<char>) -> nat {
    scan_from(Scan { count: 0, in_escape: false }, text).count
}

/// Scanning two texts in a row is scanning the text made of both.
pub proof fn lemma_scan_concat(state: Scan, a: Seq<char>, b: Seq<char>)
    ensures
        scan_from(state, a + b) == scan_from(scan_from(state, a), b),
    decreases b.len(),
{
    if b.len() == 0 {
        assert(a + b == a);
    } else {
        lemma_scan_concat(state, a, b.drop_last());
        assert((a + b).drop_last() == a + b.drop_last());
        assert((a + b).last() == b.last());
    }
}

/// Outside a control sequence, every character of a text without escape
/// characters counts.
pub proof fn lemma_scan_plain(state: Scan, text: Seq<char>)
    requires
        !state.in_escape,
        escape_free(text),
    ensures
        scan_from(state, text) == (Scan {
            count: state.count + text.len(),
            in_escape: false,
        }),
    decreases text.len(),
{
    if text.len() > 0 {
        let head = text.drop_last();
        assert forall|i: int| 0 <= i < head.len() implies #[trigger] head[i] != ESCAPE by {
            assert(head[i] == text[i]);
        }
        lemma_scan_plain(state, head);
        assert(text.last() == text[text.len() - 1]);
    }
}

/// A colour sequence is scanned without counting anything, and leaves the
/// scan outside of a control sequence.
pub proof fn lemma_scan_control(state: Scan, tint: Tint)
    ensures
        scan_from(state, tint_on(tint)) == (Scan { count: state.count, in_escape: false }),
        scan_from(state, tint_off()) == (Scan { count: state.count, in_escape: false }),
{
    let on = tint_on(tint);
    assert(on.len() == 5);
    let on4 = on.drop_last();
    let on3 = on4.drop_last();
    let on2 = on3.drop_last();
    let on1 = on2.drop_last();
    assert(on1.drop_last().len() == 0);
    assert(scan_from(state, on1.drop_last()) == state);
    assert(on1.last() == ESCAPE);
    assert(scan_from(state, on1).in_escape);
    assert(on2.last() == '[');
    assert(on3.last() == tint_code(tint)[0]);
    assert(on4.last() == tint_code(tint)[1]);
    assert(on.last() == 'm');
    assert(scan_from(state, on2) == scan_from(state, on1));
    assert(scan_from(state, on3) == scan_from(state, on1));
    assert(scan_from(state, on4) == scan_from(state, on1));

    let off = tint_off();
    let off3 = off.drop_last();
    let off2 = off3.drop_last();
    let off1 = off2.drop_last();
    assert(off1.drop_last().len() == 0);
    assert(scan_from(state, off1.drop_last()) == state);
    assert(off1.last() == ESCAPE);
    assert(scan_from(state, off1).in_escape);
    assert(off2.last() == '[');
    assert(off3.last() == '0');
    assert(off.last() == 'm');
    assert(scan_from(state, off2) == scan_from(state, off1));
    assert(scan_from(state, off3) == scan_from(state, off1));
}

/// Colour takes no room: a text shown in a colour is as wide on screen as
/// the text itself, whether the terminal takes colours or not.
pub proof fn lemma_colour_keeps_width(out: Seq<char>, tint: Tint, text: Seq<char>)
    requires
        escape_free(text),
        shows(out, tint, text),
    ensures
        visible_length(out) == text.len(),
        visible_length(out) == visible_length(text),
{
    let start = Scan { count: 0, in_escape: false };
    lemma_scan_plain(start, text);
    if out != text {
        lemma_scan_concat(start, tint_on(tint) + text, tint_off());
        lemma_scan_concat(start, tint_on(tint), text);
        lemma_scan_control(start, tint);
        lemma_scan_plain(scan_from(start, tint_on(tint)), text);
        lemma_scan_control(scan_from(start, tint_on(tint) + text), tint);
    }
}

/// Counts the characters of `s` that a terminal shows, leaving out colour
/// sequences: everything from an escape character to the next `m`.
pub fn get_visible_length(s: &str) -> (len: usize)
    ensures
        len == visible_length(s@),
{
    let chars = chars_of(s);
    let mut len: usize = 0;
    let mut in_escape = false;
    let mut i: usize = 0;
    while i < chars.len()
        invariant
            chars@ == s@,
            i <= chars.len(),
            len <= i,
            scan_from(Scan { count: 0, in_escape: false }, chars@.take(i as int)) == (Scan {
                count: len as nat,
                in_escape,
            }),
        decreases chars.len() - i,
    {
        let c = chars[i];
        proof {
            let next = chars@.take(i + 1);
            assert(next.drop_last() == chars@.take(i as int));
            assert(next.last() == c);
        }
        if c == ESCAPE {
            in_escape = true;
        } else if c == 'm' && in_escape {
            in_escape = false;
        } else if !in_escape {
            len += 1;
        }
        i += 1;
    }
    assert(chars@.take(i as int) == chars@);
    len
}

/// `count` spaces.
pub open spec fn spaces(count: nat) -> Seq<char> {
    Seq::new(count, |i: int| ' ')
}

/// How many spaces bring a text to a visible width of `width`: none where
/// it is that wide already.
pub open spec fn padding(text: Seq<char>, width: nat) -> nat {
    if visible_length(text) >= width {
        0
    } else {
        (width - visible_length(text)) as nat
    }
}

/// Fills a text with spaces at its end up to a visible width of `width`,
/// so that a coloured text takes the room of its visible characters only.
pub fn pad_to_width(text: &str, width: usize) -> (r: String)
    ensures
        r@ == text@ + spaces(padding(text@, width as nat)),
{
    let shown = get_visible_length(text);
    let mut out = String::from_str(text);
    if shown < width {
        let missing: usize = width - shown;
        let mut i: usize = 0;
        while i < missing
            invariant
                i <= missing,
                out@ == text@ + spaces(i as nat),
            decreases missing - i,
        {
            push_char(&mut out, ' ');
            assert(out@ =~= text@ + spaces((i + 1) as nat));
            i += 1;
        }
    } else {
        assert(out@ =~= text@ + spaces(0));
    }
    out
}

/// A text that ends outside of a control sequence is, once filled up, as
/// wide on screen as asked for, or as wide as it was if that is more.
pub proof fn lemma_padded_width(text: Seq<char>, width: nat)
    requires
        !scan_from(Scan { count: 0, in_escape: false }, text).in_escape,
    ensures
        visible_length(text + spaces(padding(text, width))) == if visible_length(text) >= width {
            visible_length(text)
        } else {
            width
        },
{
    let start = Scan { count: 0, in_escape: false };
    let fill = spaces(padding(text, width));
    lemma_scan_concat(start, text, fill);
    lemma_scan_plain(scan_from(start, text), fill);
}

/// A numeral holds no escape character.
pub proof fn lemma_decimal_escape_free(n: nat)
    ensures
        escape_free(decimal_text(n)),
{
    lemma_decimal_text(n);
    let s = decimal_text(n);
    assert forall|i: int| 0 <= i < s.len() implies #[trigger] s[i] != ESCAPE by {
        assert(is_digit(s[i]));
    }
}

/// `prefix`, the numeral of `n`, and a closing bracket.
pub open spec fn bracketed(prefix: Seq<char>, n: nat) -> Seq<char> {
    prefix + decimal_text(n) + seq![')']
}

/// A bracketed numeral holds no escape character where its prefix holds none.
pub proof fn lemma_bracketed_escape_free(prefix: Seq<char>, n: nat)
    requires
        escape_free(prefix),
    ensures
        escape_free(bracketed(prefix, n)),
{
    lemma_decimal_escape_free(n);
    let s = bracketed(prefix, n);
    let d = decimal_text(n);
    assert forall|i: int| 0 <= i < s.len() implies #[trigger] s[i] != ESCAPE by {
        if i < prefix.len() {
            assert(s[i] == prefix[i]);
        } else if i < prefix.len() + d.len() {
            assert(s[i] == d[i - prefix.len()]);
        }
    }
}

fn bracketed_text(prefix: &str, n: u8) -> (r: String)
    ensures
        r@ == bracketed(prefix@, n as nat),
{
    let mut out = String::from_str(prefix);
    push_decimal(&mut out, n as u64);
    push_char(&mut out, ')');
    out
}

/// The name of a system mode.
pub open spec fn system_mode_label(sys_mode: u8) -> Seq<char> {
    match sys_mode {
        1 => "Cool"@,
        2 => "Heat"@,
        3 => "Vent"@,
        4 => "Dry"@,
        5 => "Auto"@,
        _ => bracketed("Mode("@, sys_mode as nat),
    }
}

/// The colour a system mode is shown in; modes without a name are shown plain.
pub open spec fn system_mode_tint(sys_mode: u8) -> Option<Tint> {
    match sys_mode {
        1 => Some(Tint::Blue),
        2 => Some(Tint::Red),
        3 => Some(Tint::White),
        4 => Some(Tint::Yellow),
        5 => Some(Tint::Cyan),
        _ => None,
    }
}

/// `out` shows `text` in the given colour, or plainly where there is none.
pub open spec fn shows_in(out: Seq<char>, tint: Option<Tint>, text: Seq<char>) -> bool {
    match tint {
        Some(t) => shows(out, t, text),
        None => out == text,
    }
}

/// The name of a system mode, in its colour.
pub fn get_colored_system_mode(sys_mode: u8) -> (r: String)
    ensures
        shows_in(r@, system_mode_tint(sys_mode), system_mode_label(sys_mode)),
{
    proof {
        reveal_strlit("Cool");
        reveal_strlit("Heat");
        reveal_strlit("Vent");
        reveal_strlit("Dry");
        reveal_strlit("Auto");
    }
    match sys_mode {
        1 => paint("Cool", Tint::Blue),
        2 => paint("Heat", Tint::Red),
        3 => paint("Vent", Tint::White),
        4 => paint("Dry", Tint::Yellow),
        5 => paint("Auto", Tint::Cyan),
        _ => bracketed_text("Mode(", sys_mode),
    }
}

/// The wire code of a system mode given by name, whatever the case of its letters.
pub open spec fn system_mode_code(name: Seq<char>) -> Option<u8> {
    if same_ignoring_case(name, "auto"@) {
        Some(5u8)
    } else if same_ignoring_case(name, "cool"@) {
        Some(1u8)
    } else if same_ignoring_case(name, "heat"@) {
        Some(2u8)
    } else if same_ignoring_case(name, "vent"@) {
        Some(3u8)
    } else if same_ignoring_case(name, "dry"@) {
        Some(4u8)
    } else {
        None
    }
}

/// Looks up the wire code of a system mode by its name: auto, cool, heat,
/// vent or dry.
pub fn get_system_mode_value(mode_name: &str) -> (r: Option<u8>)
    ensures
        r == system_mode_code(mode_name@),
{
    if eq_ignore_case(mode_name, "auto") {
        Some(5)
    } else if eq_ignore_case(mode_name, "cool") {
        Some(1)
    } else if eq_ignore_case(mode_name, "heat") {
        Some(2)
    } else if eq_ignore_case(mode_name, "vent") {
        Some(3)
    } else if eq_ignore_case(mode_name, "dry") {
        Some(4)
    } else {
        None
    }
}

/// The name of a fan speed.
pub open spec fn fan_speed_label(sys_fan: u8) -> Seq<char> {
    match sys_fan {
        1 => "Low"@,
        2 => "Medium"@,
        3 => "High"@,
        4 => "Auto"@,
        5 => "Top"@,
        99 => "NonGasHeat"@,
        _ => bracketed("Fan("@, sys_fan as nat),
    }
}

/// The name of a fan speed holds no escape character.
pub proof fn lemma_fan_speed_label_escape_free(sys_fan: u8)
    ensures
        escape_free(fan_speed_label(sys_fan)),
{
    reveal_strlit("Low");
    reveal_strlit("Medium");
    reveal_strlit("High");
    reveal_strlit("Auto");
    reveal_strlit("Top");
    reveal_strlit("NonGasHeat");
    reveal_strlit("Fan(");
    lemma_bracketed_escape_free("Fan("@, sys_fan as nat);
}

/// The name of a fan speed.
pub fn get_fan_speed_text(sys_fan: u8) -> (r: String)
    ensures
        r@ == fan_speed_label(sys_fan),
{
    match sys_fan {
        1 => String::from_str("Low"),
        2 => String::from_str("Medium"),
        3 => String::from_str("High"),
        4 => String::from_str("Auto"),
        5 => String::from_str("Top"),
        99 => String::from_str("NonGasHeat"),
        _ => bracketed_text("Fan(", sys_fan),
    }
}

/// The wire code of a fan speed that the system can be set to, given by name.
pub open spec fn fan_speed_code(name: Seq<char>) -> Option<u8> {
    if same_ignoring_case(name, "low"@) {
        Some(1u8)
    } else if same_ignoring_case(name, "medium"@) {
        Some(2u8)
    } else if same_ignoring_case(name, "high"@) {
        Some(3u8)
    } else if same_ignoring_case(name, "auto"@) {
        Some(4u8)
    } else {
        None
    }
}

/// Looks up the wire code of a fan speed by its name: low, medium, high or auto.
pub fn get_fan_speed_value(fan_speed_name: &str) -> (r: Option<u8>)
    ensures
        r == fan_speed_code(fan_speed_name@),
{
    if eq_ignore_case(fan_speed_name, "low") {
        Some(1)
    } else if eq_ignore_case(fan_speed_name, "medium") {
        Some(2)
    } else if eq_ignore_case(fan_speed_name, "high") {
        Some(3)
    } else if eq_ignore_case(fan_speed_name, "auto") {
        Some(4)
    } else {
        None
    }
}

/// The name of a zone type.
pub open spec fn zone_type_label(type_code: u8) -> Seq<char> {
    match type_code {
        1 => "Open/Close"@,
        2 => "Constant"@,
        3 => "Auto"@,
        _ => bracketed("Type("@, type_code as nat),
    }
}

/// The name of a zone type.
pub fn get_zone_type_text(type_code: u8) -> (r: String)
    ensures
        r@ == zone_type_label(type_code),
{
    match type_code {
        1 => String::from_str("Open/Close"),
        2 => String::from_str("Constant"),
        3 => String::from_str("Auto"),
        _ => bracketed_text("Type(", type_code),
    }
}

/// The colour a battery level is shown in: red for level 0, which means a
/// low or faulty battery.
pub open spec fn battery_tint(batt_code: u8) -> Option<Tint> {
    if batt_code == 0 {
        Some(Tint::Red)
    } else {
        None
    }
}

/// A battery level as its number, in red when it is 0.
pub fn get_battery_level_text(batt_code: u8) -> (r: String)
    ensures
        shows_in(r@, battery_tint(batt_code), decimal_text(batt_code as nat)),
{
    let mut plain = String::new();
    push_decimal(&mut plain, batt_code as u64);
    assert(plain@ =~= decimal_text(batt_code as nat));
    if batt_code == 0 {
        proof {
            lemma_decimal_escape_free(0);
        }
        paint(plain.as_str(), Tint::Red)
    } else {
        plain
    }
}

/// What is shown for a sensor fault code: "OK" for none, else the code.
pub open spec fn sensor_fault_label(fault_code: u8) -> Seq<char> {
    if fault_code == 0 {
        "OK"@
    } else {
        "FLT:"@ + decimal_text(fault_code as nat)
    }
}

/// The colour a sensor fault code is shown in.
pub open spec fn sensor_fault_tint(fault_code: u8) -> Tint {
    if fault_code == 0 {
        Tint::Green
    } else {
        Tint::Red
    }
}

/// A sensor fault code for display: a green "OK", or the code in red.
pub fn get_sensor_fault_text(fault_code: u8) -> (r: String)
    ensures
        shows(r@, sensor_fault_tint(fault_code), sensor_fault_label(fault_code)),
{
    proof {
        reveal_strlit("OK");
        reveal_strlit("FLT:");
    }
    if fault_code == 0 {
        paint("OK", Tint::Green)
    } else {
        let mut plain = String::from_str("FLT:");
        push_decimal(&mut plain, fault_code as u64);
        proof {
            lemma_decimal_escape_free(fault_code as nat);
        }
        paint(plain.as_str(), Tint::Red)
    }
}

/// The name of a zone mode.
pub open spec fn zone_mode_label(mode: u8) -> Seq<char> {
    match mode {
        1 => "OPEN"@,
        2 => "OFF"@,
        3 => "CLIMATE"@,
        4 => "OVERRIDE"@,
        5 => "CONSTANT"@,
        _ => bracketed("UNKNOWN ("@, mode as nat),
    }
}

/// The colour a zone mode is shown in; modes without a name are shown plain.
pub open spec fn zone_mode_tint(mode: u8) -> Option<Tint> {
    match mode {
        1 => Some(Tint::Yellow),
        2 => Some(Tint::Red),
        3 => Some(Tint::Green),
        4 => Some(Tint::Yellow),
        5 => Some(Tint::Yellow),
        _ => None,
    }
}

/// The name of a zone mode, in its colour.
pub fn get_colored_zone_mode(mode: u8) -> (r: String)
    ensures
        shows_in(r@, zone_mode_tint(mode), zone_mode_label(mode)),
{
    proof {
        reveal_strlit("OPEN");
        reveal_strlit("OFF");
        reveal_strlit("CLIMATE");
        reveal_strlit("OVERRIDE");
        reveal_strlit("CONSTANT");
    }
    match mode {
        1 => paint("OPEN", Tint::Yellow),
        2 => paint("OFF", Tint::Red),
        3 => paint("CLIMATE", Tint::Green),
        4 => paint("OVERRIDE", Tint::Yellow),
        5 => paint("CONSTANT", Tint::Yellow),
        _ => bracketed_text("UNKNOWN (", mode),
    }
}

} // verus!
