//! What is said to the user once something was done, and the boxes in
//! which it is shown.
//!
//! A message is made of pieces: plain words, and values that are shown in
//! a colour. Whether a terminal takes colours is not known here, so a
//! coloured piece is either painted or plain; which pieces a message has,
//! and in which order, is fixed.

use crate::helpers::{
    escape_free, get_visible_length, pad_to_width, padding, paint, shows, spaces, Tint,
};
use crate::text::{char_count, decimal_text, push_char, push_decimal};
use vstd::prelude::*;
use vstd::string::StringExecFns;

verus! {

/// A piece of a message: a text, and the colour it is shown in, if any.
pub struct Piece {
    pub text: Seq<char>,
    pub tint: Option<Tint>,
}

/// Plain words.
pub open spec fn words(text: Seq<char>) -> Piece {
    Piece { text, tint: None }
}

/// A text in a colour.
pub open spec fn tinted(text: Seq<char>, tint: Tint) -> Piece {
    Piece { text, tint: Some(tint) }
}

/// A number in a colour.
pub open spec fn number(n: nat, tint: Tint) -> Piece {
    tinted(decimal_text(n), tint)
}

/// `out` shows the piece: plain words as they are, and a text in a colour
/// painted or plain. Of a text that brings control sequences of its own
/// nothing is said.
pub open spec fn shows_piece(out: Seq<char>, piece: Piece) -> bool {
    match piece.tint {
        None => out == piece.text,
        Some(tint) => escape_free(piece.text) ==> shows(out, tint, piece.text),
    }
}

/// `out` shows the pieces one after the other.
pub open spec fn renders(out: Seq<char>, pieces: Seq<Piece>) -> bool
    decreases pieces.len(),
{
    if pieces.len() == 0 {
        out.len() == 0
    } else {
        exists|cut: int|
            0 <= cut <= out.len() && renders(#[trigger] out.take(cut), pieces.drop_last())
                && shows_piece(out.skip(cut), pieces.last())
    }
}

/// A message shows one piece more once that piece is written after it.
pub proof fn lemma_renders_more(before: Seq<char>, pieces: Seq<Piece>, added: Seq<char>, piece: Piece)
    requires
        renders(before, pieces),
        shows_piece(added, piece),
    ensures
        renders(before + added, pieces.push(piece)),
{
    let out = before + added;
    let cut = before.len() as int;
    assert(out.take(cut) == before);
    assert(out.skip(cut) == added);
    assert(pieces.push(piece).drop_last() == pieces);
    assert(pieces.push(piece).last() == piece);
}

/// A message in the making.
pub struct Line {
    pub text: String,
    pub pieces: Ghost<Seq<Piece>>,
}

impl Line {
    /// The text shows the pieces written so far.
    pub open spec fn wf(self) -> bool {
        renders(self.text@, self.pieces@)
    }

    /// A message without pieces.
    pub(crate) fn new() -> (r: Line)
        ensures
            r.wf(),
            r.pieces@ == Seq::<Piece>::empty(),
    {
        Line { text: String::new(), pieces: Ghost(Seq::empty()) }
    }

    /// Writes plain words.
    pub(crate) fn say(&mut self, text: &str)
        requires
            old(self).wf(),
        ensures
            final(self).wf(),
            final(self).pieces@ == old(self).pieces@.push(words(text@)),
    {
        proof {
            lemma_renders_more(self.text@, self.pieces@, text@, words(text@));
        }
        self.text.append(text);
        self.pieces = Ghost(self.pieces@.push(words(text@)));
    }

    /// Writes a text in a colour.
    pub(crate) fn say_in(&mut self, text: &str, tint: Tint)
        requires
            old(self).wf(),
        ensures
            final(self).wf(),
            final(self).pieces@ == old(self).pieces@.push(tinted(text@, tint)),
    {
        let shown = paint(text, tint);
        proof {
            lemma_renders_more(self.text@, self.pieces@, shown@, tinted(text@, tint));
        }
        self.text.append(shown.as_str());
        self.pieces = Ghost(self.pieces@.push(tinted(text@, tint)));
    }

    /// Writes a number in a colour.
    pub(crate) fn say_number(&mut self, n: u64, tint: Tint)
        requires
            old(self).wf(),
        ensures
            final(self).wf(),
            final(self).pieces@ == old(self).pieces@.push(number(n as nat, tint)),
    {
        let mut numeral = String::new();
        push_decimal(&mut numeral, n);
        assert(numeral@ =~= decimal_text(n as nat));
        self.say_in(numeral.as_str(), tint);
    }

    /// The message, to be shown in a box with the given title and width.
    pub(crate) fn framed(self, title: &str, width: usize) -> (r: Notice)
        requires
            self.wf(),
        ensures
            r.says(Some((title@, width)), self.pieces@),
    {
        Notice { frame: Some(Frame { title: String::from_str(title), width }), text: self.text }
    }

    /// The message, to be shown as a line of its own.
    pub(crate) fn bare(self) -> (r: Notice)
        requires
            self.wf(),
        ensures
            r.says(None, self.pieces@),
    {
        Notice { frame: None, text: self.text }
    }
}

/// The box that a message is shown in: its title, and its width between
/// the corners.
#[derive(Debug, PartialEq, Eq)]
pub struct Frame {
    pub title: String,
    pub width: usize,
}

/// What is said to the user once something was done.
#[derive(Debug, PartialEq)]
pub struct Notice {
    /// The box that the message is shown in; none for a message that is a
    /// line of its own.
    pub frame: Option<Frame>,
    /// The message.
    pub text: String,
}

impl Notice {
    /// The notice has the given frame, by title and width, and its message
    /// shows the pieces.
    pub open spec fn says(self, frame: Option<(Seq<char>, usize)>, pieces: Seq<Piece>) -> bool {
        &&& match frame {
            Some((title, width)) => self.frame is Some && self.frame->0.title@ == title
                && self.frame->0.width == width,
            None => self.frame is None,
        }
        &&& renders(self.text@, pieces)
    }
}

/// A line of a box: a corner, `width` times the filling, and a corner.
pub open spec fn edge(left: char, fill: char, right: char, width: nat) -> Seq<char> {
    seq![left] + Seq::new(width, |i: int| fill) + seq![right]
}

fn edge_line(left: char, fill: char, right: char, width: usize) -> (r: String)
    ensures
        r@ == edge(left, fill, right, width as nat),
{
    let mut out = String::new();
    push_char(&mut out, left);
    let mut i: usize = 0;
    while i < width
        invariant
            i <= width,
            out@ == seq![left] + Seq::new(i as nat, |k: int| fill),
        decreases width - i,
    {
        push_char(&mut out, fill);
        assert(out@ =~= seq![left] + Seq::new((i + 1) as nat, |k: int| fill));
        i += 1;
    }
    push_char(&mut out, right);
    out
}

/// The top of a box.
pub fn box_top(width: usize) -> (r: String)
    ensures
        r@ == edge('╔', '═', '╗', width as nat),
{
    edge_line('╔', '═', '╗', width)
}

/// A line that parts two sections of a box.
pub fn box_rule(width: usize) -> (r: String)
    ensures
        r@ == edge('╠', '═', '╣', width as nat),
{
    edge_line('╠', '═', '╣', width)
}

/// The bottom of a box.
pub fn box_bottom(width: usize) -> (r: String)
    ensures
        r@ == edge('╚', '═', '╝', width as nat),
{
    edge_line('╚', '═', '╝', width)
}

/// The room inside a box of the given width: two less, for the space at
/// either side.
pub open spec fn inner_width(width: nat) -> nat {
    if width >= 2 {
        (width - 2) as nat
    } else {
        0
    }
}

/// A text between the sides of a box.
pub open spec fn between_sides(content: Seq<char>) -> Seq<char> {
    seq!['║', ' '] + content + seq![' ', '║']
}

fn sided(content: &str) -> (r: String)
    ensures
        r@ == between_sides(content@),
{
    let mut out = String::new();
    push_char(&mut out, '║');
    push_char(&mut out, ' ');
    out.append(content);
    push_char(&mut out, ' ');
    push_char(&mut out, '║');
    assert(out@ =~= between_sides(content@));
    out
}

/// A text in the middle of `width` characters; where the room left over
/// is odd, the space more stands at the right.
pub open spec fn centred(text: Seq<char>, width: nat) -> Seq<char> {
    if text.len() >= width {
        text
    } else {
        let room = (width - text.len()) as nat;
        spaces(room / 2) + text + spaces((room - room / 2) as nat)
    }
}

fn push_spaces(out: &mut String, count: usize)
    ensures
        final(out)@ == old(out)@ + spaces(count as nat),
{
    let mut i: usize = 0;
    assert(out@ =~= old(out)@ + spaces(0));
    while i < count
        invariant
            i <= count,
            out@ == old(out)@ + spaces(i as nat),
        decreases count - i,
    {
        push_char(out, ' ');
        assert(out@ =~= old(out)@ + spaces((i + 1) as nat));
        i += 1;
    }
}

/// Puts a text in the middle of `width` characters.
pub fn centre(text: &str, width: usize) -> (r: String)
    ensures
        r@ == centred(text@, width as nat),
{
    let len = char_count(text);
    if len >= width {
        return String::from_str(text);
    }
    let room: usize = width - len;
    let mut out = String::new();
    push_spaces(&mut out, room / 2);
    out.append(text);
    push_spaces(&mut out, room - room / 2);
    assert(out@ =~= centred(text@, width as nat));
    out
}

/// The line of a box that holds its title, or another heading.
pub open spec fn title_text(title: Seq<char>, width: nat) -> Seq<char> {
    between_sides(centred(title, inner_width(width)))
}

/// A line of a box that holds a text: the text, filled up to the room
/// inside the box by what of it is visible.
pub open spec fn line_text(text: Seq<char>, width: nat) -> Seq<char> {
    between_sides(text + spaces(padding(text, inner_width(width))))
}

/// The line of a box that holds its title.
pub fn box_title(title: &str, width: usize) -> (r: String)
    ensures
        r@ == title_text(title@, width as nat),
{
    let inner: usize = if width >= 2 {
        width - 2
    } else {
        0
    };
    let middle = centre(title, inner);
    sided(middle.as_str())
}

/// A line of a box: the text, filled up to the room inside the box by what
/// of it is visible.
pub fn box_line(text: &str, width: usize) -> (r: String)
    ensures
        r@ == line_text(text@, width as nat),
{
    let inner: usize = if width >= 2 {
        width - 2
    } else {
        0
    };
    let filled = pad_to_width(text, inner);
    sided(filled.as_str())
}

/// How many spaces stand between a label that takes `label_width`
/// characters and a value at the right side of a box.
pub open spec fn row_gap(label: Seq<char>, value: Seq<char>, width: nat, label_width: nat) -> nat {
    let label_room = label.len() + padding(label, label_width);
    let used = label_room + crate::helpers::visible_length(value);
    if inner_width(width) >= used {
        (inner_width(width) - used) as nat
    } else {
        0
    }
}

/// A line of a box with a label at the left, filled up to `label_width`,
/// and its value at the right.
pub open spec fn row_text(label: Seq<char>, value: Seq<char>, width: nat, label_width: nat) -> Seq<
    char,
> {
    between_sides(
        label + spaces(padding(label, label_width)) + spaces(
            row_gap(label, value, width, label_width),
        ) + value,
    )
}

/// A line of a box with a label at the left and its value at the right.
pub fn box_row(label: &str, value: &str, width: usize, label_width: usize) -> (r: String)
    ensures
        r@ == row_text(label@, value@, width as nat, label_width as nat),
{
    let inner: usize = if width >= 2 {
        width - 2
    } else {
        0
    };
    let mut out = pad_to_width(label, label_width);
    let taken = char_count(out.as_str());
    let shown = get_visible_length(value);
    let gap: usize = if inner >= taken && inner - taken >= shown {
        inner - taken - shown
    } else {
        0
    };
    push_spaces(&mut out, gap);
    out.append(value);
    sided(out.as_str())
}

impl Notice {
    /// The lines in which the notice is shown: its box with title and
    /// message, or the message alone.
    pub open spec fn lines_text(self) -> Seq<Seq<char>> {
        match self.frame {
            Some(frame) => seq![
                edge('╔', '═', '╗', frame.width as nat),
                title_text(frame.title@, frame.width as nat),
                edge('╠', '═', '╣', frame.width as nat),
                line_text(self.text@, frame.width as nat),
                edge('╚', '═', '╝', frame.width as nat),
            ],
            None => seq![self.text@],
        }
    }

    /// The lines in which the notice is shown.
    pub fn lines(&self) -> (r: Vec<String>)
        ensures
            crate::text::views(r@) == self.lines_text(),
    {
        let mut lines: Vec<String> = Vec::new();
        match &self.frame {
            Some(frame) => {
                lines.push(box_top(frame.width));
                lines.push(box_title(frame.title.as_str(), frame.width));
                lines.push(box_rule(frame.width));
                lines.push(box_line(self.text.as_str(), frame.width));
                lines.push(box_bottom(frame.width));
            },
            None => {
                lines.push(self.text.clone());
            },
        }
        assert(crate::text::views(lines@) =~= self.lines_text());
        lines
    }
}

} // verus!
