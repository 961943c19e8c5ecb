use vstd::prelude::*;

verus! {

/// The line and fill styles that nodes, edges and clusters can be drawn in.
#[derive(Clone, Copy, Debug, PartialEq, Eq, Structural)]
pub enum Style {
    NoStyle,
    Solid,
    Dashed,
    Dotted,
    Bold,
    Rounded,
    Diagonals,
    Filled,
    Striped,
    Wedged,
    Invisible,
}

/// The DOT keyword of each style; `NoStyle` has the empty keyword and is never emitted.
pub open spec fn style_keyword(s: Style) -> Seq<char> {
    match s {
        Style::NoStyle => Seq::empty(),
        Style::Solid => "solid"@,
        Style::Dashed => "dashed"@,
        Style::Dotted => "dotted"@,
        Style::Bold => "bold"@,
        Style::Rounded => "rounded"@,
        Style::Diagonals => "diagonals"@,
        Style::Filled => "filled"@,
        Style::Striped => "striped"@,
        Style::Wedged => "wedged"@,
        Style::Invisible => "invis"@,
    }
}

impl Style {
    pub fn as_keyword(&self) -> (r: &'static str)
        ensures
            r@ == style_keyword(*self),
    {
        match self {
            Style::NoStyle => {
                proof {
                    reveal_strlit("");
                }
                ""
            },
            Style::Solid => "solid",
            Style::Dashed => "dashed",
            Style::Dotted => "dotted",
            Style::Bold => "bold",
            Style::Rounded => "rounded",
            Style::Diagonals => "diagonals",
            Style::Filled => "filled",
            Style::Striped => "striped",
            Style::Wedged => "wedged",
            Style::Invisible => "invis",
        }
    }
}

} // verus!
