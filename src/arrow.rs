use vstd::prelude::*;

verus! {

/// Whether an arrow shape is drawn filled or as an outline.
#[derive(Clone, Copy, Debug, PartialEq, Eq, Structural)]
pub enum Fill {
    Open,
    Filled,
}

/// Which half of an arrow shape is drawn.
#[derive(Clone, Copy, Debug, PartialEq, Eq, Structural)]
pub enum Side {
    Left,
    Right,
    Both,
}

/// One arrow shape: a base shape with the modifiers it admits.
#[derive(Clone, Copy, Debug, PartialEq, Eq, Structural)]
pub enum ArrowShape {
    NoArrow,
    Normal(Fill, Side),
    Box(Fill, Side),
    Crow(Side),
    Curve(Side),
    ICurve(Fill, Side),
    Diamond(Fill, Side),
    Dot(Fill),
    Inv(Fill, Side),
    Tee(Side),
    Vee(Side),
}

/// The modifier for a fill: `o` for an outline, nothing for a filled shape.
pub open spec fn fill_text(f: Fill) -> Seq<char> {
    match f {
        Fill::Open => seq!['o'],
        Fill::Filled => Seq::empty(),
    }
}

/// The modifier for a side: `l` or `r` for a half shape, nothing for both halves.
pub open spec fn side_text(s: Side) -> Seq<char> {
    match s {
        Side::Left => seq!['l'],
        Side::Right => seq!['r'],
        Side::Both => Seq::empty(),
    }
}

/// The keyword of a shape: fill modifier, then side modifier, then the base name.
pub open spec fn shape_text(a: ArrowShape) -> Seq<char> {
    match a {
        ArrowShape::NoArrow => "none"@,
        ArrowShape::Normal(f, s) => fill_text(f) + side_text(s) + "normal"@,
        ArrowShape::Box(f, s) => fill_text(f) + side_text(s) + "box"@,
        ArrowShape::Crow(s) => side_text(s) + "crow"@,
        ArrowShape::Curve(s) => side_text(s) + "curve"@,
        ArrowShape::ICurve(f, s) => fill_text(f) + side_text(s) + "icurve"@,
        ArrowShape::Diamond(f, s) => fill_text(f) + side_text(s) + "diamond"@,
        ArrowShape::Dot(f) => fill_text(f) + "dot"@,
        ArrowShape::Inv(f, s) => fill_text(f) + side_text(s) + "inv"@,
        ArrowShape::Tee(s) => side_text(s) + "tee"@,
        ArrowShape::Vee(s) => side_text(s) + "vee"@,
    }
}

/// The keyword of a chain of shapes: each shape's keyword, the one nearest the node first.
pub open spec fn arrow_text(shapes: Seq<ArrowShape>) -> Seq<char>
    decreases shapes.len(),
{
    if shapes.len() == 0 {
        Seq::empty()
    } else {
        arrow_text(shapes.drop_last()) + shape_text(shapes.last())
    }
}

/// The most shapes that one arrow chains.
pub const MAX_SHAPES: usize = 4;

impl Fill {
    pub fn as_slice(&self) -> (r: &'static str)
        ensures
            r@ == fill_text(*self),
    {
        proof {
            reveal_strlit("o");
            reveal_strlit("");
        }
        match self {
            Fill::Open => "o",
            Fill::Filled => "",
        }
    }
}

impl Side {
    pub fn as_slice(&self) -> (r: &'static str)
        ensures
            r@ == side_text(*self),
    {
        proof {
            reveal_strlit("l");
            reveal_strlit("r");
            reveal_strlit("");
        }
        match self {
            Side::Left => "l",
            Side::Right => "r",
            Side::Both => "",
        }
    }
}

impl ArrowShape {
    /// No arrow at all.
    pub fn none() -> (r: ArrowShape)
        ensures
            r == ArrowShape::NoArrow,
    {
        ArrowShape::NoArrow
    }

    /// The usual filled triangle.
    pub fn normal() -> (r: ArrowShape)
        ensures
            r == ArrowShape::Normal(Fill::Filled, Side::Both),
    {
        ArrowShape::Normal(Fill::Filled, Side::Both)
    }

    pub fn boxed() -> (r: ArrowShape)
        ensures
            r == ArrowShape::Box(Fill::Filled, Side::Both),
    {
        ArrowShape::Box(Fill::Filled, Side::Both)
    }

    pub fn crow() -> (r: ArrowShape)
        ensures
            r == ArrowShape::Crow(Side::Both),
    {
        ArrowShape::Crow(Side::Both)
    }

    pub fn curve() -> (r: ArrowShape)
        ensures
            r == ArrowShape::Curve(Side::Both),
    {
        ArrowShape::Curve(Side::Both)
    }

    pub fn icurve() -> (r: ArrowShape)
        ensures
            r == ArrowShape::ICurve(Fill::Filled, Side::Both),
    {
        ArrowShape::ICurve(Fill::Filled, Side::Both)
    }

    pub fn diamond() -> (r: ArrowShape)
        ensures
            r == ArrowShape::Diamond(Fill::Filled, Side::Both),
    {
        ArrowShape::Diamond(Fill::Filled, Side::Both)
    }

    pub fn dot() -> (r: ArrowShape)
        ensures
            r == ArrowShape::Dot(Fill::Filled),
    {
        ArrowShape::Dot(Fill::Filled)
    }

    pub fn inv() -> (r: ArrowShape)
        ensures
            r == ArrowShape::Inv(Fill::Filled, Side::Both),
    {
        ArrowShape::Inv(Fill::Filled, Side::Both)
    }

    pub fn tee() -> (r: ArrowShape)
        ensures
            r == ArrowShape::Tee(Side::Both),
    {
        ArrowShape::Tee(Side::Both)
    }

    pub fn vee() -> (r: ArrowShape)
        ensures
            r == ArrowShape::Vee(Side::Both),
    {
        ArrowShape::Vee(Side::Both)
    }

    /// The keyword of this shape.
    pub fn to_dot_string(&self) -> (r: String)
        ensures
            r@ == shape_text(*self),
    {
        let mut r = String::new();
        match *self {
            ArrowShape::Normal(f, s) | ArrowShape::Box(f, s) | ArrowShape::ICurve(f, s)
            | ArrowShape::Diamond(f, s) | ArrowShape::Inv(f, s) => {
                r.append(f.as_slice());
                r.append(s.as_slice());
            },
            ArrowShape::Dot(f) => {
                r.append(f.as_slice());
            },
            ArrowShape::Crow(s) | ArrowShape::Curve(s) | ArrowShape::Tee(s) | ArrowShape::Vee(s) => {
                r.append(s.as_slice());
            },
            ArrowShape::NoArrow => {},
        }
        let base = match *self {
            ArrowShape::NoArrow => "none",
            ArrowShape::Normal(_, _) => "normal",
            ArrowShape::Box(_, _) => "box",
            ArrowShape::Crow(_) => "crow",
            ArrowShape::Curve(_) => "curve",
            ArrowShape::ICurve(_, _) => "icurve",
            ArrowShape::Diamond(_, _) => "diamond",
            ArrowShape::Dot(_) => "dot",
            ArrowShape::Inv(_, _) => "inv",
            ArrowShape::Tee(_) => "tee",
            ArrowShape::Vee(_) => "vee",
        };
        r.append(base);
        assert(r@ =~= shape_text(*self));
        r
    }
}

/// The terminator drawn at one end of an edge: a chain of up to four shapes.
/// With no shape it is the default arrow, which emits no attribute at all.
#[derive(Clone, Debug)]
pub struct Arrow {
    arrows: Vec<ArrowShape>,
}

impl View for Arrow {
    type V = Seq<ArrowShape>;

    closed spec fn view(&self) -> Seq<ArrowShape> {
        self.arrows@
    }
}

impl Arrow {
    /// The default arrow, left to the renderer.
    pub fn default() -> (r: Arrow)
        ensures
            r@ == Seq::<ArrowShape>::empty(),
    {
        Arrow { arrows: Vec::new() }
    }

    /// An explicit arrow with no head.
    pub fn none() -> (r: Arrow)
        ensures
            r@ == seq![ArrowShape::NoArrow],
    {
        Arrow { arrows: vec![ArrowShape::NoArrow] }
    }

    /// An explicit arrow with the usual head.
    pub fn normal() -> (r: Arrow)
        ensures
            r@ == seq![ArrowShape::Normal(Fill::Filled, Side::Both)],
    {
        Arrow { arrows: vec![ArrowShape::normal()] }
    }

    /// An arrow of one shape.
    pub fn from_arrow(arrow: ArrowShape) -> (r: Arrow)
        ensures
            r@ == seq![arrow],
    {
        Arrow { arrows: vec![arrow] }
    }

    /// An arrow of the given shapes, nearest the node first; `None` when there are
    /// more than four.
    pub fn from_arrows(arrows: Vec<ArrowShape>) -> (r: Option<Arrow>)
        ensures
            arrows@.len() <= MAX_SHAPES ==> r is Some && r->Some_0@ == arrows@,
            arrows@.len() > MAX_SHAPES ==> r is None,
    {
        if arrows.len() <= MAX_SHAPES {
            Some(Arrow { arrows })
        } else {
            None
        }
    }

    /// True only for the default arrow.
    pub fn is_default(&self) -> (r: bool)
        ensures
            r == (self@.len() == 0),
    {
        self.arrows.len() == 0
    }

    /// The keyword of the whole chain.
    pub fn to_dot_string(&self) -> (r: String)
        ensures
            r@ == arrow_text(self@),
    {
        let mut r = String::new();
        let mut i: usize = 0;
        while i < self.arrows.len()
            invariant
                i <= self.arrows@.len(),
                r@ == arrow_text(self.arrows@.take(i as int)),
            decreases self.arrows.len() - i,
        {
            let t = self.arrows[i].to_dot_string();
            r.append(t.as_str());
            assert(self.arrows@.take(i + 1).drop_last() =~= self.arrows@.take(i as int));
            i = i + 1;
        }
        assert(self.arrows@.take(i as int) =~= self.arrows@);
        r
    }
}

/// Chaining is order-preserving: the keyword of two chains one after the other
/// is the first chain's keyword followed by the second's.
pub proof fn lemma_arrow_text_concat(a: Seq<ArrowShape>, b: Seq<ArrowShape>)
    ensures
        arrow_text(a + b) == arrow_text(a) + arrow_text(b),
    decreases b.len(),
{
    if b.len() == 0 {
        assert(a + b =~= a);
        assert(arrow_text(b) =~= Seq::<char>::empty());
        assert(arrow_text(a) + arrow_text(b) =~= arrow_text(a));
    } else {
        lemma_arrow_text_concat(a, b.drop_last());
        assert((a + b).drop_last() =~= a + b.drop_last());
        assert(arrow_text(a + b) =~= arrow_text(a) + arrow_text(b));
    }
}

} // verus!
