use vstd::prelude::*;
use vstd::string::StrSliceExecFns;
use vstd::string::StringExecFns;

use crate::text::dec_rep;
use crate::text::spaces;
use crate::text::spaces_rep;
use crate::text::usize_to_decimal;
use crate::trace::LineKind;
use crate::trace::TraceLine;
use crate::trace::TraceLineModel;

verus! {

/// `s` padded on the right with spaces to width `w`; text longer than the
/// column is kept whole.
pub open spec fn pad_rep(s: Seq<char>, w: nat) -> Seq<char> {
    if s.len() >= w {
        s
    } else {
        s + spaces_rep((w - s.len()) as nat)
    }
}

/// The parser column of one line: the depth as indentation, the direction
/// arrow, and the traced function's name, padded to width `w`.
pub open spec fn parser_column_rep(arrow: Seq<char>, depth: nat, name: Seq<char>, w: nat) -> Seq<
    char,
> {
    pad_rep(spaces_rep(depth) + arrow + name, w)
}

/// The text of one recorded line. Forward sequence numbers stand in the
/// first column and backward ones in the second, each of width
/// `count_width`; then the parser column of width `parser_width`; a
/// successful or forward crossing ends with the rendered input position.
pub open spec fn render_rep(l: TraceLineModel, count_width: nat, parser_width: nat) -> Seq<char> {
    match l.kind {
        LineKind::Header => pad_rep("forward"@, count_width) + " "@ + pad_rep(
            "backward"@,
            count_width,
        ) + " : "@ + pad_rep("parser"@, parser_width) + " : "@ + l.body,
        LineKind::Forward => pad_rep(dec_rep(l.count as nat), count_width) + " "@ + spaces_rep(
            count_width,
        ) + " : "@ + parser_column_rep("-> "@, l.depth as nat, l.name, parser_width) + " : "@
            + l.body,
        LineKind::Backward => spaces_rep(count_width) + " "@ + pad_rep(
            dec_rep(l.count as nat),
            count_width,
        ) + " : "@ + parser_column_rep("<- "@, l.depth as nat, l.name, parser_width) + " : "@
            + l.body,
        LineKind::BackwardFailure => spaces_rep(count_width) + " "@ + pad_rep(
            dec_rep(l.count as nat),
            count_width,
        ) + " : "@ + parser_column_rep("<- "@, l.depth as nat, l.name, parser_width),
    }
}

/// Pads `s` on the right with spaces to width `w`.
fn pad_to(s: String, w: usize) -> (r: String)
    ensures
        r@ == pad_rep(s@, w as nat),
{
    let n = s.as_str().unicode_len();
    if n >= w {
        s
    } else {
        let mut s = s;
        let fill = spaces(w - n);
        s.append(fill.as_str());
        s
    }
}

impl TraceLine {
    /// The parser column of this line, padded to `parser_width`.
    fn parser_column(&self, arrow: &str, parser_width: usize) -> (r: String)
        ensures
            r@ == parser_column_rep(arrow@, self.depth as nat, self.name@, parser_width as nat),
    {
        let mut p = spaces(self.depth);
        p.append(arrow);
        p.append(self.name.as_str());
        pad_to(p, parser_width)
    }

    /// Renders this line with a sequence-number column of `count_width`
    /// and a parser-name column of `parser_width`.
    pub fn render(&self, count_width: usize, parser_width: usize) -> (r: String)
        ensures
            r@ == render_rep(self@, count_width as nat, parser_width as nat),
    {
        match self.kind {
            LineKind::Header => {
                let mut r = pad_to(String::from_str("forward"), count_width);
                r.append(" ");
                let b = pad_to(String::from_str("backward"), count_width);
                r.append(b.as_str());
                r.append(" : ");
                let p = pad_to(String::from_str("parser"), parser_width);
                r.append(p.as_str());
                r.append(" : ");
                r.append(self.body.as_str());
                r
            },
            LineKind::Forward => {
                let mut r = pad_to(usize_to_decimal(self.count), count_width);
                r.append(" ");
                let blank = spaces(count_width);
                r.append(blank.as_str());
                r.append(" : ");
                let p = self.parser_column("-> ", parser_width);
                r.append(p.as_str());
                r.append(" : ");
                r.append(self.body.as_str());
                r
            },
            LineKind::Backward => {
                let mut r = spaces(count_width);
                r.append(" ");
                let c = pad_to(usize_to_decimal(self.count), count_width);
                r.append(c.as_str());
                r.append(" : ");
                let p = self.parser_column("<- ", parser_width);
                r.append(p.as_str());
                r.append(" : ");
                r.append(self.body.as_str());
                r
            },
            LineKind::BackwardFailure => {
                let mut r = spaces(count_width);
                r.append(" ");
                let c = pad_to(usize_to_decimal(self.count), count_width);
                r.append(c.as_str());
                r.append(" : ");
                let p = self.parser_column("<- ", parser_width);
                r.append(p.as_str());
                r
            },
        }
    }
}

/// Renders a whole recorded trace, one string per line.
pub fn render_trace(lines: &Vec<TraceLine>, count_width: usize, parser_width: usize) -> (r: Vec<
    String,
>)
    ensures
        r@.len() == lines@.len(),
        forall|i: int|
            0 <= i < lines@.len() ==> r@[i]@ == render_rep(
                lines@[i]@,
                count_width as nat,
                parser_width as nat,
            ),
{
    let mut r: Vec<String> = Vec::new();
    let mut i: usize = 0;
    while i < lines.len()
        invariant
            i <= lines@.len(),
            r@.len() == i,
            forall|j: int|
                0 <= j < i ==> r@[j]@ == render_rep(
                    lines@[j]@,
                    count_width as nat,
                    parser_width as nat,
                ),
        decreases lines@.len() - i,
    {
        let line = &lines[i];
        r.push(line.render(count_width, parser_width));
        i = i + 1;
    }
    r
}

} // verus!
