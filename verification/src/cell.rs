//! The cell formatter: a stateless mapping from one logical value to a
//! styled, renderable cell (text plus bold flag and colour tag).

use vstd::prelude::*;
use vstd::string::StringExecFns;
use crate::text::{percent_seq, percent_string};

verus! {

/// A visual colour tag for one table cell.
#[derive(Clone, Copy, Debug, PartialEq, Eq)]
pub enum Color {
    /// No colour: the terminal's default.
    Plain,
    /// The header accent.
    Yellow,
    /// The price accent, independent of value sign.
    Blue,
    /// The positive accent for signed percent values.
    Green,
    /// The negative accent for signed percent values.
    Red,
    /// The neutral accent for a zero percent value.
    White,
}

/// The mathematical view of a styled cell: its text and visual attributes.
pub ghost struct CellModel {
    pub text: Seq<char>,
    pub bold: bool,
    pub color: Color,
}

/// One table cell: display text plus visual attributes.
#[derive(Debug, PartialEq)]
pub struct StyledCell {
    pub text: String,
    pub bold: bool,
    pub color: Color,
}

impl View for StyledCell {
    type V = CellModel;

    open spec fn view(&self) -> CellModel {
        CellModel { text: self.text@, bold: self.bold, color: self.color }
    }
}

/// The colour of a signed percent cell: a pure function of the value's sign.
pub open spec fn sign_color(v: int) -> Color {
    if v > 0 {
        Color::Green
    } else if v < 0 {
        Color::Red
    } else {
        Color::White
    }
}

/// A plain cell: the given text, normal weight, no colour.
pub fn plain(text: String) -> (c: StyledCell)
    ensures
        c@ == (CellModel { text: text@, bold: false, color: Color::Plain }),
{
    StyledCell { text, bold: false, color: Color::Plain }
}

/// An emphasized cell: the given text, bold, in the fixed price accent.
pub fn emphasized(text: String) -> (c: StyledCell)
    ensures
        c@ == (CellModel { text: text@, bold: true, color: Color::Blue }),
{
    StyledCell { text, bold: true, color: Color::Blue }
}

/// A header cell: the given text, bold, in the header accent.
pub fn header(text: String) -> (c: StyledCell)
    ensures
        c@ == (CellModel { text: text@, bold: true, color: Color::Yellow }),
{
    StyledCell { text, bold: true, color: Color::Yellow }
}

/// A signed-percent cell for a value in tenths of a percent: the percent
/// text with its sign, bold, coloured purely by the value's sign.
pub fn signed(tenths: i64) -> (c: StyledCell)
    ensures
        c@ == (CellModel {
            text: percent_seq(tenths as int),
            bold: true,
            color: sign_color(tenths as int),
        }),
{
    let color = if tenths > 0 {
        Color::Green
    } else if tenths < 0 {
        Color::Red
    } else {
        Color::White
    };
    StyledCell { text: percent_string(tenths), bold: true, color }
}

/// The style-spec characters for a colour: 'F' (foreground) then the
/// colour letter, as the table renderer reads them.
pub open spec fn color_chars(c: Color) -> Seq<char> {
    match c {
        Color::Plain => Seq::<char>::empty(),
        Color::Yellow => seq!['F', 'y'],
        Color::Blue => seq!['F', 'b'],
        Color::Green => seq!['F', 'g'],
        Color::Red => seq!['F', 'r'],
        Color::White => seq!['F', 'w'],
    }
}

/// The full style-spec character sequence for a cell's attributes:
/// 'b' when bold, then the colour characters.
pub open spec fn style_chars(bold: bool, color: Color) -> Seq<char> {
    (if bold {
        seq!['b']
    } else {
        Seq::<char>::empty()
    }) + color_chars(color)
}

/// A style-spec character sequence never contains 'H': it is built only
/// from 'b' and the colour characters.
pub proof fn lemma_style_chars_no_h(bold: bool, color: Color)
    ensures
        forall|i: int|
            0 <= i < style_chars(bold, color).len() ==> #[trigger] style_chars(bold, color)[i]
                != 'H',
{
    let s = style_chars(bold, color);
    assert forall|i: int| 0 <= i < s.len() implies s[i] != 'H' by {
        match color {
            Color::Plain => assert(s[i] != 'H'),
            Color::Yellow => assert(s[i] != 'H'),
            Color::Blue => assert(s[i] != 'H'),
            Color::Green => assert(s[i] != 'H'),
            Color::Red => assert(s[i] != 'H'),
            Color::White => assert(s[i] != 'H'),
        }
    }
}

impl StyledCell {
    /// The style-spec string for this cell's visual attributes.
    pub fn style_spec(&self) -> (s: String)
        ensures
            s@ == style_chars(self.bold, self.color),
    {
        let mut s = String::new();
        if self.bold {
            s.append("b");
        }
        match self.color {
            Color::Plain => {},
            Color::Yellow => s.append("Fy"),
            Color::Blue => s.append("Fb"),
            Color::Green => s.append("Fg"),
            Color::Red => s.append("Fr"),
            Color::White => s.append("Fw"),
        }
        proof {
            reveal_strlit("b");
            reveal_strlit("Fy");
            reveal_strlit("Fb");
            reveal_strlit("Fg");
            reveal_strlit("Fr");
            reveal_strlit("Fw");
            assert(s@ =~= style_chars(self.bold, self.color));
        }
        s
    }
}

} // verus!
