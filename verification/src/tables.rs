//! The tables in which the state of the system, of a zone and of a
//! schedule is shown.
//!
//! A table is a box with a title and entries below it: rows of a label
//! and its value, texts, headings of sections and lines between them.

use crate::codec::{format_temp, temp_text};
use crate::helpers::{pad_to_width, padding, spaces, Tint};
use crate::models::{SchedulesV2, ZonesV2};
use crate::status::underscored;
use crate::notice::{
    box_bottom, box_line, box_row, box_rule, box_title, box_top, edge, line_text, renders,
    row_text, tinted, title_text, Line,
};
use crate::status::{name_for_table, ScheduleStatus, SystemStatus, ZoneStatus};
use crate::text::{decimal_text, push_decimal, views};
use vstd::prelude::*;
use vstd::string::StringExecFns;

verus! {

/// An entry of a table.
#[derive(Debug, PartialEq)]
pub enum Entry {
    /// A label at the left and its value at the right.
    Row { label: String, value: String },
    /// A text at the left.
    Text(String),
    /// The heading of a section, in the middle.
    Heading(String),
    /// A line across the box.
    Rule,
}

/// What an entry holds.
pub enum EntryView {
    Row { label: Seq<char>, value: Seq<char> },
    Text(Seq<char>),
    Heading(Seq<char>),
    Rule,
}

impl View for Entry {
    type V = EntryView;

    open spec fn view(&self) -> EntryView {
        match self {
            Entry::Row { label, value } => EntryView::Row { label: label@, value: value@ },
            Entry::Text(text) => EntryView::Text(text@),
            Entry::Heading(text) => EntryView::Heading(text@),
            Entry::Rule => EntryView::Rule,
        }
    }
}

/// What the entries hold, in order.
pub open spec fn entry_views(entries: Seq<Entry>) -> Seq<EntryView> {
    Seq::new(entries.len(), |i: int| entries[i]@)
}

/// A table: a box of the given width with a title, and its entries; the
/// labels of rows are filled up to `label_width`.
#[derive(Debug, PartialEq)]
pub struct Table {
    pub title: String,
    pub width: usize,
    pub label_width: usize,
    pub entries: Vec<Entry>,
}

/// The line in which an entry is shown.
pub open spec fn entry_line(entry: EntryView, width: nat, label_width: nat) -> Seq<char> {
    match entry {
        EntryView::Row { label, value } => row_text(label, value, width, label_width),
        EntryView::Text(text) => line_text(text, width),
        EntryView::Heading(text) => title_text(text, width),
        EntryView::Rule => edge('╠', '═', '╣', width),
    }
}

impl Table {
    /// The table has the given title and widths, and holds the given entries.
    pub open spec fn holds(
        self,
        title: Seq<char>,
        width: usize,
        label_width: usize,
        entries: Seq<EntryView>,
    ) -> bool {
        &&& self.title@ == title
        &&& self.width == width
        &&& self.label_width == label_width
        &&& entry_views(self.entries@) == entries
    }

    /// The lines in which the table is shown: the top of the box, its
    /// title, a line, the entries and the bottom.
    pub open spec fn lines_text(self) -> Seq<Seq<char>> {
        seq![
            edge('╔', '═', '╗', self.width as nat),
            title_text(self.title@, self.width as nat),
            edge('╠', '═', '╣', self.width as nat),
        ] + Seq::new(
            self.entries@.len(),
            |i: int| entry_line(self.entries@[i]@, self.width as nat, self.label_width as nat),
        ) + seq![edge('╚', '═', '╝', self.width as nat)]
    }

    /// The lines in which the table is shown.
    pub fn lines(&self) -> (r: Vec<String>)
        ensures
            views(r@) == self.lines_text(),
    {
        let ghost head = seq![
            edge('╔', '═', '╗', self.width as nat),
            title_text(self.title@, self.width as nat),
            edge('╠', '═', '╣', self.width as nat),
        ];
        let ghost body = Seq::new(
            self.entries@.len(),
            |i: int| entry_line(self.entries@[i]@, self.width as nat, self.label_width as nat),
        );
        let mut lines: Vec<String> = Vec::new();
        lines.push(box_top(self.width));
        lines.push(box_title(self.title.as_str(), self.width));
        lines.push(box_rule(self.width));
        assert(views(lines@) =~= head + body.take(0));
        let mut i: usize = 0;
        while i < self.entries.len()
            invariant
                i <= self.entries.len(),
                head.len() == 3,
                body == Seq::new(
                    self.entries@.len(),
                    |i: int|
                        entry_line(self.entries@[i]@, self.width as nat, self.label_width as nat),
                ),
                views(lines@) == head + body.take(i as int),
            decreases self.entries.len() - i,
        {
            let line = match &self.entries[i] {
                Entry::Row { label, value } => box_row(
                    label.as_str(),
                    value.as_str(),
                    self.width,
                    self.label_width,
                ),
                Entry::Text(text) => box_line(text.as_str(), self.width),
                Entry::Heading(text) => box_title(text.as_str(), self.width),
                Entry::Rule => box_rule(self.width),
            };
            assert(line@ == body[i as int]);
            let ghost before = views(lines@);
            lines.push(line);
            assert(views(lines@) =~= before.push(body[i as int]));
            assert(body.take(i + 1) =~= body.take(i as int).push(body[i as int]));
            assert(views(lines@) =~= head + body.take(i + 1));
            i += 1;
        }
        assert(body.take(i as int) == body);
        lines.push(box_bottom(self.width));
        assert(views(lines@) =~= self.lines_text());
        lines
    }
}

/// A row of a table.
pub fn row(label: &str, value: &str) -> (r: Entry)
    ensures
        r@ == (EntryView::Row { label: label@, value: value@ }),
{
    Entry::Row { label: String::from_str(label), value: String::from_str(value) }
}

/// A label filled up to `label_width`, a space and the value.
pub open spec fn labelled(label: Seq<char>, label_width: nat, value: Seq<char>) -> Seq<char> {
    label + spaces(padding(label, label_width)) + seq![' '] + value
}

/// A text entry with a label, filled up to `label_width`, and its value
/// right after it.
pub fn labelled_text(label: &str, label_width: usize, value: &str) -> (r: Entry)
    ensures
        r@ == EntryView::Text(labelled(label@, label_width as nat, value@)),
{
    let mut text = pad_to_width(label, label_width);
    text.append(" ");
    text.append(value);
    proof {
        reveal_strlit(" ");
        assert(" "@ =~= seq![' ']);
    }
    Entry::Text(text)
}

/// A value and the unit that follows it.
pub fn with_unit(value: &str, unit: &str) -> (r: String)
    ensures
        r@ == value@ + unit@,
{
    let mut out = String::from_str(value);
    out.append(unit);
    out
}

/// A number and the unit that follows it.
pub fn number_with_unit(n: u32, unit: &str) -> (r: String)
    ensures
        r@ == decimal_text(n as nat) + unit@,
{
    let mut out = String::new();
    push_decimal(&mut out, n as u64);
    out.append(unit);
    out
}

/// What the table of the system's status holds.
pub open spec fn system_entries(status: SystemStatus) -> Seq<EntryView> {
    seq![
        EntryView::Text(labelled("Aircon Power:"@, 24, status.power@)),
        EntryView::Text(labelled("Mode:"@, 24, status.mode@)),
        EntryView::Text(labelled("Fan Speed:"@, 24, status.fan@)),
        EntryView::Text(labelled("Target Setpoint:"@, 24, status.setpoint@ + "°C"@)),
        EntryView::Text(
            labelled("Controller Temperature:"@, 24, status.temperature@ + "°C"@),
        ),
        EntryView::Text(labelled("System Check Status:"@, 23, status.check@)),
    ]
}

/// The table in which the system's status is shown.
pub fn system_table(status: &SystemStatus) -> (r: Table)
    ensures
        r.holds("AIRCON STATUS"@, 45, 24, system_entries(*status)),
{
    let mut entries: Vec<Entry> = Vec::new();
    entries.push(labelled_text("Aircon Power:", 24, status.power.as_str()));
    entries.push(labelled_text("Mode:", 24, status.mode.as_str()));
    entries.push(labelled_text("Fan Speed:", 24, status.fan.as_str()));
    let setpoint = with_unit(status.setpoint.as_str(), "°C");
    entries.push(labelled_text("Target Setpoint:", 24, setpoint.as_str()));
    let temperature = with_unit(status.temperature.as_str(), "°C");
    entries.push(labelled_text("Controller Temperature:", 24, temperature.as_str()));
    entries.push(labelled_text("System Check Status:", 23, status.check.as_str()));
    assert(entry_views(entries@) =~= system_entries(*status));
    Table { title: String::from_str("AIRCON STATUS"), width: 45, label_width: 24, entries }
}

/// A row whose value is a number and the unit that follows it.
pub open spec fn number_row(label: Seq<char>, n: nat, unit: Seq<char>) -> EntryView {
    EntryView::Row { label, value: decimal_text(n) + unit }
}

fn push_number_row(entries: &mut Vec<Entry>, label: &str, n: u32, unit: &str)
    ensures
        entry_views(final(entries)@) == entry_views(old(entries)@).push(
            number_row(label@, n as nat, unit@),
        ),
{
    let value = number_with_unit(n, unit);
    entries.push(Entry::Row { label: String::from_str(label), value });
    assert(entry_views(entries@) =~= entry_views(old(entries)@).push(
        number_row(label@, n as nat, unit@),
    ));
}

fn push_row(entries: &mut Vec<Entry>, label: &str, value: &str)
    ensures
        entry_views(final(entries)@) == entry_views(old(entries)@).push(
            EntryView::Row { label: label@, value: value@ },
        ),
{
    entries.push(row(label, value));
    assert(entry_views(entries@) =~= entry_views(old(entries)@).push(
        EntryView::Row { label: label@, value: value@ },
    ));
}

/// What the table of a zone's status holds.
pub open spec fn zone_entries(zone: ZonesV2, status: ZoneStatus) -> Seq<EntryView> {
    seq![
        EntryView::Row { label: "Name:"@, value: zone.name@ },
        EntryView::Row { label: "Mode:"@, value: status.mode@ },
        EntryView::Row { label: "Current Temperature:"@, value: status.temperature_shown@ },
        EntryView::Row { label: "Setpoint:"@, value: status.setpoint@ + "°C"@ },
        number_row("Damper Position:"@, zone.damper_pos as nat, "%"@),
        EntryView::Row { label: "Zone Type:"@, value: status.zone_type@ },
        number_row("Sensor Type:"@, zone.sens_type as nat, ""@),
        number_row("Max Air:"@, zone.max_air as nat, "%"@),
        number_row("Min Air:"@, zone.min_air as nat, "%"@),
        number_row("Constant:"@, zone.constant as nat, ""@),
        number_row("Constant Air:"@, zone.constant_a as nat, ""@),
        number_row("Master:"@, zone.master as nat, ""@),
        number_row("Damper Fault:"@, zone.damper_fault as nat, ""@),
        EntryView::Row { label: "Sensor Fault:"@, value: status.sensor_fault@ },
        number_row("Damper Skip:"@, zone.damper_skip as nat, ""@),
        number_row("Isense:"@, zone.isense as nat, ""@),
        number_row("Calibration:"@, zone.calibration as nat, ""@),
        number_row("RF Signal:"@, zone.rf_signal as nat, "%"@),
        EntryView::Row { label: "Battery Voltage:"@, value: status.battery@ + "V"@ },
        number_row("Area:"@, zone.area as nat, ""@),
        number_row("Bypass:"@, zone.bypass as nat, ""@),
        number_row("Balance Max:"@, zone.balance_max as nat, "%"@),
        number_row("Balance Min:"@, zone.balance_min as nat, "%"@),
    ]
}

/// The title of a table for something with a name: what the table is
/// about, and the name.
pub fn named_title(about: &str, name: &str) -> (r: String)
    ensures
        r@ == about@ + name@,
{
    with_unit(about, name)
}

/// The table in which a zone's status is shown; `shown_name` is the
/// zone's name as it stands in the title.
pub fn zone_table(shown_name: &str, zone: &ZonesV2, status: &ZoneStatus) -> (r: Table)
    ensures
        r.holds("ZONE STATUS: "@ + shown_name@, 60, 20, zone_entries(*zone, *status)),
{
    let mut entries: Vec<Entry> = Vec::new();
    push_row(&mut entries, "Name:", zone.name.as_str());
    push_row(&mut entries, "Mode:", status.mode.as_str());
    push_row(&mut entries, "Current Temperature:", status.temperature_shown.as_str());
    let setpoint = with_unit(status.setpoint.as_str(), "°C");
    push_row(&mut entries, "Setpoint:", setpoint.as_str());
    push_number_row(&mut entries, "Damper Position:", zone.damper_pos as u32, "%");
    push_row(&mut entries, "Zone Type:", status.zone_type.as_str());
    push_number_row(&mut entries, "Sensor Type:", zone.sens_type as u32, "");
    push_number_row(&mut entries, "Max Air:", zone.max_air as u32, "%");
    push_number_row(&mut entries, "Min Air:", zone.min_air as u32, "%");
    push_number_row(&mut entries, "Constant:", zone.constant as u32, "");
    push_number_row(&mut entries, "Constant Air:", zone.constant_a as u32, "");
    push_number_row(&mut entries, "Master:", zone.master as u32, "");
    push_number_row(&mut entries, "Damper Fault:", zone.damper_fault as u32, "");
    push_row(&mut entries, "Sensor Fault:", status.sensor_fault.as_str());
    push_number_row(&mut entries, "Damper Skip:", zone.damper_skip as u32, "");
    push_number_row(&mut entries, "Isense:", zone.isense as u32, "");
    push_number_row(&mut entries, "Calibration:", zone.calibration as u32, "");
    push_number_row(&mut entries, "RF Signal:", zone.rf_signal as u32, "%");
    let battery = with_unit(status.battery.as_str(), "V");
    push_row(&mut entries, "Battery Voltage:", battery.as_str());
    push_number_row(&mut entries, "Area:", zone.area, "");
    push_number_row(&mut entries, "Bypass:", zone.bypass as u32, "");
    push_number_row(&mut entries, "Balance Max:", zone.balance_max as u32, "%");
    push_number_row(&mut entries, "Balance Min:", zone.balance_min as u32, "%");
    assert(entry_views(entries@) =~= zone_entries(*zone, *status));
    Table { title: named_title("ZONE STATUS: ", shown_name), width: 60, label_width: 20, entries }
}

/// The rows that a schedule's table begins with.
pub open spec fn schedule_rows(schedule: SchedulesV2, status: ScheduleStatus) -> Seq<EntryView> {
    seq![
        EntryView::Row { label: "Name:"@, value: schedule.name@ },
        number_row("Index:"@, schedule.index as nat, ""@),
        EntryView::Row { label: "Active:"@, value: status.active@ },
        EntryView::Row { label: "System Mode:"@, value: status.mode@ },
        EntryView::Row { label: "System Fan:"@, value: status.fan@ },
        EntryView::Row { label: "Start Time:"@, value: status.start@ },
        EntryView::Row { label: "Stop Time:"@, value: status.stop@ },
        EntryView::Row { label: "Days Enabled:"@, value: status.day_marks@ },
    ]
}

/// The section of a schedule's table on the evaporative cooler; empty
/// where the schedule sets nothing for it.
pub open spec fn cooler_section(schedule: SchedulesV2) -> Seq<EntryView> {
    match schedule.coolbreeze {
        Some(cooler) => seq![
            EntryView::Rule,
            EntryView::Heading("COOLBREEZE SETTINGS"@),
            EntryView::Rule,
            EntryView::Row {
                label: "Unit Setpoint:"@,
                value: temp_text(cooler.unit_setpoint as nat),
            },
            number_row("Fan Speed:"@, cooler.fan_speed as nat, "%"@),
            number_row("RH Setpoint:"@, cooler.rh_setpoint as nat, "%"@),
        ],
        None => Seq::empty(),
    }
}

/// The label of the row for the zone at the given place in a schedule.
pub open spec fn zone_label(place: nat) -> Seq<char> {
    "Zone "@ + decimal_text(place) + ":"@
}

/// The rows for the zones of a schedule, one for each text.
pub open spec fn zone_rows(shown: Seq<String>) -> Seq<EntryView> {
    Seq::new(
        shown.len(),
        |i: int| EntryView::Row { label: zone_label(i as nat), value: shown[i]@ },
    )
}

/// The section of a schedule's table on the zones; empty where the
/// schedule holds no list of zones.
pub open spec fn zones_section(schedule: SchedulesV2, status: ScheduleStatus) -> Seq<EntryView> {
    if schedule.zones is Some {
        seq![EntryView::Rule, EntryView::Heading("ZONE SETTINGS"@), EntryView::Rule] + zone_rows(
            status.zones@,
        )
    } else {
        Seq::empty()
    }
}

fn push_section(entries: &mut Vec<Entry>, heading: &str)
    ensures
        entry_views(final(entries)@) == entry_views(old(entries)@) + seq![
            EntryView::Rule,
            EntryView::Heading(heading@),
            EntryView::Rule,
        ],
{
    entries.push(Entry::Rule);
    entries.push(Entry::Heading(String::from_str(heading)));
    entries.push(Entry::Rule);
    assert(entry_views(entries@) =~= entry_views(old(entries)@) + seq![
        EntryView::Rule,
        EntryView::Heading(heading@),
        EntryView::Rule,
    ]);
}

fn zone_label_text(place: usize) -> (r: String)
    ensures
        r@ == zone_label(place as nat),
{
    let mut label = String::from_str("Zone ");
    push_decimal(&mut label, place as u64);
    label.append(":");
    label
}

/// The table in which a schedule's status is shown.
pub fn schedule_table(schedule: &SchedulesV2, status: &ScheduleStatus) -> (r: Table)
    ensures
        r.holds(
            "SCHEDULE STATUS: "@ + decimal_text(schedule.index as nat),
            75,
            25,
            schedule_rows(*schedule, *status) + cooler_section(*schedule) + zones_section(
                *schedule,
                *status,
            ),
        ),
{
    let mut entries: Vec<Entry> = Vec::new();
    push_row(&mut entries, "Name:", schedule.name.as_str());
    push_number_row(&mut entries, "Index:", schedule.index as u32, "");
    push_row(&mut entries, "Active:", status.active.as_str());
    push_row(&mut entries, "System Mode:", status.mode.as_str());
    push_row(&mut entries, "System Fan:", status.fan.as_str());
    push_row(&mut entries, "Start Time:", status.start.as_str());
    push_row(&mut entries, "Stop Time:", status.stop.as_str());
    push_row(&mut entries, "Days Enabled:", status.day_marks.as_str());
    assert(entry_views(entries@) =~= schedule_rows(*schedule, *status));
    match &schedule.coolbreeze {
        Some(cooler) => {
            push_section(&mut entries, "COOLBREEZE SETTINGS");
            let ghost before = entry_views(entries@);
            let setpoint = format_temp(cooler.unit_setpoint);
            push_row(&mut entries, "Unit Setpoint:", setpoint.as_str());
            push_number_row(&mut entries, "Fan Speed:", cooler.fan_speed as u32, "%");
            push_number_row(&mut entries, "RH Setpoint:", cooler.rh_setpoint as u32, "%");
            assert(entry_views(entries@) =~= schedule_rows(*schedule, *status) + cooler_section(
                *schedule,
            ));
        },
        None => {
            assert(entry_views(entries@) =~= schedule_rows(*schedule, *status) + cooler_section(
                *schedule,
            ));
        },
    }
    let ghost upper = schedule_rows(*schedule, *status) + cooler_section(*schedule);
    if schedule.zones.is_some() {
        push_section(&mut entries, "ZONE SETTINGS");
        let ghost head = upper + seq![
            EntryView::Rule,
            EntryView::Heading("ZONE SETTINGS"@),
            EntryView::Rule,
        ];
        let ghost rows = zone_rows(status.zones@);
        assert(entry_views(entries@) =~= head + rows.take(0));
        let mut i: usize = 0;
        while i < status.zones.len()
            invariant
                i <= status.zones.len(),
                rows == zone_rows(status.zones@),
                entry_views(entries@) == head + rows.take(i as int),
            decreases status.zones.len() - i,
        {
            let label = zone_label_text(i);
            let ghost before = entry_views(entries@);
            push_row(&mut entries, label.as_str(), status.zones[i].as_str());
            assert(entry_views(entries@) =~= before.push(rows[i as int]));
            assert(rows.take(i + 1) =~= rows.take(i as int).push(rows[i as int]));
            assert(entry_views(entries@) =~= head + rows.take(i + 1));
            i += 1;
        }
        assert(rows.take(i as int) == rows);
        assert(entry_views(entries@) =~= upper + zones_section(*schedule, *status));
    } else {
        assert(entry_views(entries@) =~= upper + zones_section(*schedule, *status));
    }
    let mut title = String::from_str("SCHEDULE STATUS: ");
    push_decimal(&mut title, schedule.index as u64);
    Table { title, width: 75, label_width: 25, entries }
}

/// A text filled up to a visible width of `width`: a cell of a table.
pub open spec fn cell(text: Seq<char>, width: nat) -> Seq<char> {
    text + spaces(padding(text, width))
}

/// A cell after what stands in a line already, with a space between them.
pub open spec fn next_cell(line: Seq<char>, text: Seq<char>, width: nat) -> Seq<char> {
    line + seq![' '] + cell(text, width)
}

fn push_cell(line: &mut String, text: &str, width: usize)
    ensures
        final(line)@ == next_cell(old(line)@, text@, width as nat),
{
    proof {
        reveal_strlit(" ");
        assert(" "@ =~= seq![' ']);
    }
    line.append(" ");
    let filled = pad_to_width(text, width);
    line.append(filled.as_str());
}

/// The line of a zone in the summary of all zones: its name, mode,
/// temperature, setpoint, damper position, maximum airflow and state.
pub open spec fn zone_summary(zone: ZonesV2, status: ZoneStatus) -> Seq<char> {
    let line = cell(underscored(zone.name@), 15);
    let line = next_cell(line, status.mode@, 10);
    let line = next_cell(line, status.temperature@ + "°C"@, 10);
    let line = next_cell(line, status.setpoint@ + "°C"@, 10);
    let line = next_cell(line, decimal_text(zone.damper_pos as nat) + "%"@, 10);
    let line = next_cell(line, decimal_text(zone.max_air as nat) + "%"@, 10);
    let line = next_cell(line, status.state@, 25);
    line
}

/// The line of a zone in the summary of all zones.
pub fn zone_summary_line(zone: &ZonesV2, status: &ZoneStatus) -> (r: String)
    ensures
        r@ == zone_summary(*zone, *status),
{
    let name = name_for_table(zone.name.as_str());
    let mut line = pad_to_width(name.as_str(), 15);
    push_cell(&mut line, status.mode.as_str(), 10);
    let temperature = with_unit(status.temperature.as_str(), "°C");
    push_cell(&mut line, temperature.as_str(), 10);
    let setpoint = with_unit(status.setpoint.as_str(), "°C");
    push_cell(&mut line, setpoint.as_str(), 10);
    let damper = number_with_unit(zone.damper_pos as u32, "%");
    push_cell(&mut line, damper.as_str(), 10);
    let max_air = number_with_unit(zone.max_air as u32, "%");
    push_cell(&mut line, max_air.as_str(), 10);
    push_cell(&mut line, status.state.as_str(), 25);
    line
}

/// The line of a zone whose state could not be had: its name as a cell, and
/// what went wrong, all of it in red.
pub open spec fn zone_error(name: Seq<char>, failure: Seq<char>) -> Seq<char> {
    cell(name, 15) + " ERROR: "@ + failure
}

/// The line in the summary of all zones for a zone whose state could not
/// be had; `failure` says what went wrong.
pub fn zone_error_line(name: &str, failure: &str) -> (r: String)
    ensures
        renders(r@, seq![tinted(zone_error(name@, failure@), Tint::Red)]),
{
    let mut text = pad_to_width(name, 15);
    text.append(" ERROR: ");
    text.append(failure);
    let mut line = Line::new();
    line.say_in(text.as_str(), Tint::Red);
    assert(line.pieces@ =~= seq![tinted(zone_error(name@, failure@), Tint::Red)]);
    line.text
}

/// The line above the zones in the summary of all zones.
pub open spec fn zone_summary_head() -> Seq<char> {
    let line = cell("ZONE"@, 15);
    let line = next_cell(line, "MODE"@, 10);
    let line = next_cell(line, "TEMP"@, 10);
    let line = next_cell(line, "SETPOINT"@, 10);
    let line = next_cell(line, "DAMPER"@, 10);
    let line = next_cell(line, "MAX AIR"@, 10);
    let line = next_cell(line, "STATUS"@, 25);
    line
}

/// The texts as entries of a table, in order.
pub open spec fn text_entries(texts: Seq<String>) -> Seq<EntryView> {
    Seq::new(texts.len(), |i: int| EntryView::Text(texts[i]@))
}

fn push_texts(entries: &mut Vec<Entry>, texts: &Vec<String>)
    ensures
        entry_views(final(entries)@) == entry_views(old(entries)@) + text_entries(texts@),
{
    let ghost start = entry_views(entries@);
    let ghost rows = text_entries(texts@);
    assert(entry_views(entries@) =~= start + rows.take(0));
    let mut i: usize = 0;
    while i < texts.len()
        invariant
            i <= texts.len(),
            rows == text_entries(texts@),
            entry_views(entries@) == start + rows.take(i as int),
        decreases texts.len() - i,
    {
        let ghost before = entry_views(entries@);
        entries.push(Entry::Text(texts[i].clone()));
        assert(entry_views(entries@) =~= before.push(rows[i as int]));
        assert(rows.take(i + 1) =~= rows.take(i as int).push(rows[i as int]));
        assert(entry_views(entries@) =~= start + rows.take(i + 1));
        i += 1;
    }
    assert(rows.take(i as int) == rows);
}

/// The table for the summary of all zones: the names of the columns, a
/// line, and the given lines, one for each zone.
pub fn zones_summary_table(lines: &Vec<String>) -> (r: Table)
    ensures
        r.holds(
            "ZONE SUMMARY"@,
            98,
            0,
            seq![EntryView::Text(zone_summary_head()), EntryView::Rule] + text_entries(lines@),
        ),
{
    let mut head = pad_to_width("ZONE", 15);
    push_cell(&mut head, "MODE", 10);
    push_cell(&mut head, "TEMP", 10);
    push_cell(&mut head, "SETPOINT", 10);
    push_cell(&mut head, "DAMPER", 10);
    push_cell(&mut head, "MAX AIR", 10);
    push_cell(&mut head, "STATUS", 25);
    let mut entries: Vec<Entry> = Vec::new();
    entries.push(Entry::Text(head));
    entries.push(Entry::Rule);
    assert(entry_views(entries@) =~= seq![
        EntryView::Text(zone_summary_head()),
        EntryView::Rule,
    ]);
    push_texts(&mut entries, lines);
    Table { title: String::from_str("ZONE SUMMARY"), width: 98, label_width: 0, entries }
}

/// The line of a schedule in the summary of all schedules: its index,
/// name, switch, start, stop and days.
pub open spec fn schedule_summary(schedule: SchedulesV2, status: ScheduleStatus) -> Seq<char> {
    let line = cell(decimal_text(schedule.index as nat), 5);
    let line = next_cell(line, schedule.name@, 15);
    let line = next_cell(line, status.switch@, 8);
    let line = next_cell(line, status.start@, 10);
    let line = next_cell(line, status.stop@, 10);
    let line = next_cell(line, status.days_shown@, 41);
    line
}

/// The line of a schedule in the summary of all schedules.
pub fn schedule_summary_line(schedule: &SchedulesV2, status: &ScheduleStatus) -> (r: String)
    ensures
        r@ == schedule_summary(*schedule, *status),
{
    let index = number_with_unit(schedule.index as u32, "");
    proof {
        reveal_strlit("");
    }
    assert(index@ =~= decimal_text(schedule.index as nat));
    let mut line = pad_to_width(index.as_str(), 5);
    push_cell(&mut line, schedule.name.as_str(), 15);
    push_cell(&mut line, status.switch.as_str(), 8);
    push_cell(&mut line, status.start.as_str(), 10);
    push_cell(&mut line, status.stop.as_str(), 10);
    push_cell(&mut line, status.days_shown.as_str(), 41);
    line
}

/// The line above the schedules in the summary of all schedules.
pub open spec fn schedule_summary_head() -> Seq<char> {
    let line = cell("Idx"@, 5);
    let line = next_cell(line, "Name"@, 15);
    let line = next_cell(line, "Active"@, 8);
    let line = next_cell(line, "Start"@, 10);
    let line = next_cell(line, "Stop"@, 10);
    let line = next_cell(line, "Days"@, 41);
    line
}

/// What the table for the summary of all schedules holds: the names of
/// the columns, a line, and the given lines; where there is no line, a
/// heading says so.
pub open spec fn schedules_summary_entries(lines: Seq<String>) -> Seq<EntryView> {
    if lines.len() == 0 {
        seq![EntryView::Heading("No schedules configured."@)]
    } else {
        seq![EntryView::Text(schedule_summary_head()), EntryView::Rule] + text_entries(lines)
    }
}

/// The table for the summary of all schedules, given one line for each
/// schedule.
pub fn schedules_summary_table(lines: &Vec<String>) -> (r: Table)
    ensures
        r.holds("SCHEDULE / FAVOURITES SUMMARY"@, 96, 0, schedules_summary_entries(lines@)),
{
    let mut entries: Vec<Entry> = Vec::new();
    if lines.len() == 0 {
        entries.push(Entry::Heading(String::from_str("No schedules configured.")));
        assert(entry_views(entries@) =~= schedules_summary_entries(lines@));
    } else {
        let mut head = pad_to_width("Idx", 5);
        push_cell(&mut head, "Name", 15);
        push_cell(&mut head, "Active", 8);
        push_cell(&mut head, "Start", 10);
        push_cell(&mut head, "Stop", 10);
        push_cell(&mut head, "Days", 41);
        entries.push(Entry::Text(head));
        entries.push(Entry::Rule);
        assert(entry_views(entries@) =~= seq![
            EntryView::Text(schedule_summary_head()),
            EntryView::Rule,
        ]);
        push_texts(&mut entries, lines);
    }
    Table {
        title: String::from_str("SCHEDULE / FAVOURITES SUMMARY"),
        width: 96,
        label_width: 0,
        entries,
    }
}

} // verus!
