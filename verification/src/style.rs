//! Styled text: spans, lines, and their rendering for a terminal.
//!
//! A line is a run of spans, shown with one space between neighbours. A span
//! is a text with a style. Colouring is done by the `colored` crate, which
//! keeps a switch for the whole process that says whether it writes escape
//! codes at all. It sets the switch from the terminal and from the variables
//! `NO_COLOR`, `CLICOLOR` and `CLICOLOR_FORCE`, and `colored::control` can
//! override it.

use colored::{Color, Colorize};
use vstd::prelude::*;
use crate::words::{join, joined, texts};

verus! {

/// A foreground colour.
#[derive(Clone, Copy, Debug, PartialEq, Eq)]
pub enum Tint {
    Red,
    Green,
    Yellow,
    Blue,
    Cyan,
}

/// How a span is to be shown.
#[derive(Clone, Copy, Debug, PartialEq, Eq)]
pub enum Style {
    /// As it is.
    Plain,
    /// In a colour.
    Tinted(Tint),
    /// In a colour and bold.
    Bold(Tint),
}

/// A piece of text with its style.
#[derive(Debug, PartialEq, Eq)]
pub struct Span {
    pub text: String,
    pub style: Style,
}

/// The mathematical value of a [`Span`].
pub ghost struct SpanView {
    pub text: Seq<char>,
    pub style: Style,
}

impl View for Span {
    type V = SpanView;

    open spec fn view(&self) -> SpanView {
        SpanView { text: self.text@, style: self.style }
    }
}

impl Clone for Span {
    fn clone(&self) -> (copy: Span)
        ensures
            copy == *self,
    {
        Span { text: self.text.clone(), style: self.style }
    }
}

/// One line of output: spans, shown with one space between neighbours.
#[derive(Debug, PartialEq, Eq)]
pub struct Line {
    pub spans: Vec<Span>,
}

impl View for Line {
    type V = Seq<SpanView>;

    open spec fn view(&self) -> Seq<SpanView> {
        Seq::new(self.spans@.len(), |i: int| self.spans@[i]@)
    }
}

impl Clone for Line {
    fn clone(&self) -> (copy: Line)
        ensures
            copy@ == self@,
    {
        let spans = self.spans.clone();
        Line { spans }
    }
}

/// The views of a run of lines, in order.
pub open spec fn line_views(lines: Seq<Line>) -> Seq<Seq<SpanView>> {
    Seq::new(lines.len(), |i: int| lines[i]@)
}

/// The escape character that starts every terminal control sequence.
pub open spec fn escape() -> char {
    '\x1b'
}

/// The two digits by which a control sequence names a colour.
pub open spec fn tint_code(tint: Tint) -> Seq<char> {
    match tint {
        Tint::Red => seq!['3', '1'],
        Tint::Green => seq!['3', '2'],
        Tint::Yellow => seq!['3', '3'],
        Tint::Blue => seq!['3', '4'],
        Tint::Cyan => seq!['3', '6'],
    }
}

/// The control sequence that switches a colour on, with bold before it
/// where asked for.
pub open spec fn opening(tint: Tint, bold: bool) -> Seq<char> {
    if bold {
        seq![escape(), '[', '1', ';'] + tint_code(tint) + seq!['m']
    } else {
        seq![escape(), '['] + tint_code(tint) + seq!['m']
    }
}

/// The control sequence that switches every style off.
pub open spec fn closing() -> Seq<char> {
    seq![escape(), '[', '0', 'm']
}

/// The forms of a coloured text. Colouring may be switched off for the
/// process, and then the text stands as it is. Where it is on, the text
/// stands between the opening and the closing sequence. The switch is read
/// once more for the opening sequence, so a text that is closed but not
/// opened is possible where another thread turns colouring off in between.
pub open spec fn wrapped(text: Seq<char>, tint: Tint, bold: bool, out: Seq<char>) -> bool {
    ||| out == text
    ||| out == opening(tint, bold) + text + closing()
    ||| out == text + closing()
}

/// What a coloured text may look like once formatted: one of the forms of
/// [`wrapped`]. Nothing is said of a text that holds an escape character
/// itself.
pub open spec fn painted(text: Seq<char>, tint: Tint, bold: bool, out: Seq<char>) -> bool {
    text.contains(escape()) || wrapped(text, tint, bold, out)
}

/// What a span may look like once formatted.
pub open spec fn shown(span: SpanView, out: Seq<char>) -> bool {
    match span.style {
        Style::Plain => out == span.text,
        Style::Tinted(tint) => painted(span.text, tint, false, out),
        Style::Bold(tint) => painted(span.text, tint, true, out),
    }
}

/// What a line may look like once formatted: each span as it may be shown,
/// with single spaces between them.
pub open spec fn rendered(line: Seq<SpanView>, out: Seq<char>) -> bool {
    exists|pieces: Seq<Seq<char>>|
        #![trigger joined(pieces)]
        {
            &&& pieces.len() == line.len()
            &&& forall|k: int| 0 <= k < line.len() ==> shown(line[k], #[trigger] pieces[k])
            &&& out == joined(pieces)
        }
}

/// Colours a text: `Colorize::color` of the `colored` crate, formatted by the
/// `Display` of its `ColoredString`. The contract lists the forms that the
/// formatted text can take, as [`painted`] describes them. Which of them
/// comes out depends on the colour switch of the process and is not stated.
#[verifier::external_body]
fn tinted(text: &str, tint: Tint) -> (out: String)
    ensures
        painted(text@, tint, false, out@),
{
    let color = match tint {
        Tint::Red => Color::Red,
        Tint::Green => Color::Green,
        Tint::Yellow => Color::Yellow,
        Tint::Blue => Color::Blue,
        Tint::Cyan => Color::Cyan,
    };
    text.color(color).to_string()
}

/// Colours a text and makes it bold: `Colorize::color` and then
/// `Colorize::bold` of the `colored` crate, formatted by the `Display` of its
/// `ColoredString`. The contract lists the forms that the formatted text can
/// take, as [`painted`] describes them. Which of them comes out depends on
/// the colour switch of the process and is not stated.
#[verifier::external_body]
fn tinted_bold(text: &str, tint: Tint) -> (out: String)
    ensures
        painted(text@, tint, true, out@),
{
    let color = match tint {
        Tint::Red => Color::Red,
        Tint::Green => Color::Green,
        Tint::Yellow => Color::Yellow,
        Tint::Blue => Color::Blue,
        Tint::Cyan => Color::Cyan,
    };
    text.color(color).bold().to_string()
}

impl Span {
    /// A span of plain text.
    pub fn plain(text: String) -> (span: Span)
        ensures
            span@ == (SpanView { text: text@, style: Style::Plain }),
    {
        Span { text, style: Style::Plain }
    }

    /// A span with a style.
    pub fn styled(text: String, style: Style) -> (span: Span)
        ensures
            span@ == (SpanView { text: text@, style }),
    {
        Span { text, style }
    }

    /// Formats the span for a terminal.
    pub fn render(&self) -> (out: String)
        ensures
            shown(self@, out@),
    {
        match self.style {
            Style::Plain => self.text.clone(),
            Style::Tinted(tint) => tinted(self.text.as_str(), tint),
            Style::Bold(tint) => tinted_bold(self.text.as_str(), tint),
        }
    }
}

impl Line {
    /// Formats the line for a terminal.
    pub fn render(&self) -> (out: String)
        ensures
            rendered(self@, out@),
    {
        let mut pieces: Vec<String> = Vec::new();
        let mut i: usize = 0;
        while i < self.spans.len()
            invariant
                i <= self.spans.len(),
                pieces@.len() == i,
                forall|k: int| 0 <= k < i ==> shown(self@[k], #[trigger] pieces@[k]@),
            decreases self.spans.len() - i,
        {
            let piece = self.spans[i].render();
            pieces.push(piece);
            i += 1;
        }
        let out = join(&pieces);
        proof {
            let shapes = texts(pieces@);
            assert forall|k: int| 0 <= k < self@.len() implies shown(
                self@[k],
                #[trigger] shapes[k],
            ) by {
                assert(shapes[k] == pieces@[k]@);
            }
        }
        out
    }
}

} // verus!
