use vstd::prelude::*;

verus! {

/// One of the eight slots of a panel's border.
#[derive(PartialEq, Eq, Structural, Debug, Clone, Copy)]
pub enum Border {
    TL,
    T,
    TR,
    R,
    BR,
    B,
    BL,
    L,
}

/// The visual theme that selects the glyph set of every border position.
#[allow(non_camel_case_types)]
#[derive(PartialEq, Eq, Structural, Debug, Clone, Copy)]
pub enum BorderStyle {
    rounded,
    single,
    solid,
    double,
}

impl Default for BorderStyle {
    fn default() -> (r: BorderStyle)
        ensures
            r == BorderStyle::rounded,
    {
        BorderStyle::rounded
    }
}

/// The glyph drawn at a border position in a given style.
///
/// Top and bottom share one arm, as do right and left, so that each pair
/// always draws the same glyph.
pub open spec fn glyph(position: Border, style: BorderStyle) -> char {
    match position {
        Border::TL => match style {
            BorderStyle::rounded => '╭',
            BorderStyle::single => '┌',
            BorderStyle::solid => '┏',
            BorderStyle::double => '╔',
        },
        Border::T | Border::B => match style {
            BorderStyle::rounded => '─',
            BorderStyle::single => '─',
            BorderStyle::solid => '━',
            BorderStyle::double => '═',
        },
        Border::TR => match style {
            BorderStyle::rounded => '╮',
            BorderStyle::single => '┐',
            BorderStyle::solid => '┓',
            BorderStyle::double => '╗',
        },
        Border::R | Border::L => match style {
            BorderStyle::rounded => '│',
            BorderStyle::single => '│',
            BorderStyle::solid => '┃',
            BorderStyle::double => '║',
        },
        Border::BR => match style {
            BorderStyle::rounded => '╯',
            BorderStyle::single => '┘',
            BorderStyle::solid => '┛',
            BorderStyle::double => '╝',
        },
        Border::BL => match style {
            BorderStyle::rounded => '╰',
            BorderStyle::single => '└',
            BorderStyle::solid => '┗',
            BorderStyle::double => '╚',
        },
    }
}

/// `n` copies of `c`.
pub open spec fn repeated(c: char, n: nat) -> Seq<char> {
    Seq::new(n, |_i: int| c)
}

/// A horizontal line: a left cap, `width` fill glyphs and a right cap.
pub open spec fn line(left: char, fill: char, width: nat, right: char) -> Seq<char> {
    seq![left] + repeated(fill, width) + seq![right]
}

/// The text of a top or bottom edge.
pub open spec fn edge_line(edge: Edge, width: nat, style: BorderStyle) -> Seq<char> {
    match edge {
        Edge::Top => line(glyph(Border::TL, style), glyph(Border::T, style), width, glyph(Border::TR, style)),
        Edge::Bottom => line(glyph(Border::BL, style), glyph(Border::B, style), width, glyph(Border::BR, style)),
    }
}

/// The text of a separator. Only a blank separator follows the style: the
/// others always use the same caps and fill.
pub open spec fn separator_line(separator: Separator, width: nat, style: BorderStyle) -> Seq<char> {
    match separator {
        Separator::Blank => line(glyph(Border::L, style), ' ', width, glyph(Border::R, style)),
        Separator::Single => line('├', '─', width, '┤'),
        Separator::Solid => line('┠', '─', width, '┨'),
        Separator::Double => line('╟', '─', width, '╢'),
        Separator::Dashed => line('├', '┈', width, '┤'),
    }
}

/// Every position has exactly one glyph in every style, and that glyph lies in
/// the Unicode box-drawing block, so it takes one terminal column.
pub proof fn lemma_glyph_is_box_drawing(position: Border, style: BorderStyle)
    ensures
        0x2500 <= (glyph(position, style) as u32) <= 0x257f,
{
}

/// Top and bottom draw the same glyph in every style, and so do right and left.
pub proof fn lemma_glyph_aliases(style: BorderStyle)
    ensures
        glyph(Border::T, style) == glyph(Border::B, style),
        glyph(Border::R, style) == glyph(Border::L, style),
{
}

/// Drawing an edge is pure: two drawings with the same kind, width and style
/// give the same text.
pub proof fn lemma_edge_is_pure(edge: Edge, width: nat, style: BorderStyle, first: Seq<char>, second: Seq<char>)
    requires
        first == edge_line(edge, width, style),
        second == edge_line(edge, width, style),
    ensures
        first == second,
{
}

/// Drawing a separator is pure: two drawings with the same kind, width and
/// style give the same text.
pub proof fn lemma_separator_is_pure(
    separator: Separator,
    width: nat,
    style: BorderStyle,
    first: Seq<char>,
    second: Seq<char>,
)
    requires
        first == separator_line(separator, width, style),
        second == separator_line(separator, width, style),
    ensures
        first == second,
{
}

/// Every edge and every separator is `width + 2` characters long: two caps
/// around `width` interior columns.
pub proof fn lemma_line_width(edge: Edge, separator: Separator, width: nat, style: BorderStyle)
    ensures
        edge_line(edge, width, style).len() == width + 2,
        separator_line(separator, width, style).len() == width + 2,
{
}

impl Border {
    /// The glyph of this position in `style`, as a one-character string.
    pub fn fmt(&self, style: &BorderStyle) -> (r: &'static str)
        ensures
            r@ == seq![glyph(*self, *style)],
            r@.len() == 1,
    {
        proof {
            reveal_strlit("╭");
            reveal_strlit("┌");
            reveal_strlit("┏");
            reveal_strlit("╔");
            reveal_strlit("─");
            reveal_strlit("━");
            reveal_strlit("═");
            reveal_strlit("╮");
            reveal_strlit("┐");
            reveal_strlit("┓");
            reveal_strlit("╗");
            reveal_strlit("│");
            reveal_strlit("┃");
            reveal_strlit("║");
            reveal_strlit("╯");
            reveal_strlit("┘");
            reveal_strlit("┛");
            reveal_strlit("╝");
            reveal_strlit("╰");
            reveal_strlit("└");
            reveal_strlit("┗");
            reveal_strlit("╚");
        }
        match self {
            Border::TL => match style {
                BorderStyle::single => "┌",
                BorderStyle::solid => "┏",
                BorderStyle::double => "╔",
                BorderStyle::rounded => "╭",
            },
            Border::T | Border::B => match style {
                BorderStyle::double => "═",
                BorderStyle::solid => "━",
                BorderStyle::single | BorderStyle::rounded => "─",
            },
            Border::TR => match style {
                BorderStyle::single => "┐",
                BorderStyle::solid => "┓",
                BorderStyle::double => "╗",
                BorderStyle::rounded => "╮",
            },
            Border::R | Border::L => match style {
                BorderStyle::double => "║",
                BorderStyle::solid => "┃",
                BorderStyle::single | BorderStyle::rounded => "│",
            },
            Border::BR => match style {
                BorderStyle::single => "┘",
                BorderStyle::solid => "┛",
                BorderStyle::double => "╝",
                BorderStyle::rounded => "╯",
            },
            Border::BL => match style {
                BorderStyle::single => "└",
                BorderStyle::solid => "┗",
                BorderStyle::double => "╚",
                BorderStyle::rounded => "╰",
            },
        }
    }
}

/// Builds `left`, then `width` copies of `fill`, then `right`.
fn draw_line(left: &str, fill: &str, width: usize, right: &str) -> (r: String)
    requires
        left@.len() == 1,
        fill@.len() == 1,
        right@.len() == 1,
    ensures
        r@ == line(left@[0], fill@[0], width as nat, right@[0]),
{
    let mut out = String::from_str(left);
    let mut i: usize = 0;
    while i < width
        invariant
            i <= width,
            fill@.len() == 1,
            out@ == seq![left@[0]] + repeated(fill@[0], i as nat),
        decreases width - i,
    {
        out.append(fill);
        assert(repeated(fill@[0], i as nat) + fill@ =~= repeated(fill@[0], (i + 1) as nat));
        assert(out@ =~= seq![left@[0]] + repeated(fill@[0], (i + 1) as nat));
        i = i + 1;
    }
    assert(left@ =~= seq![left@[0]]);
    out.append(right);
    assert(right@ =~= seq![right@[0]]);
    out
}

/// The top or bottom line of a panel.
pub enum Edge {
    Top,
    Bottom,
}

impl Edge {
    /// Draws this edge around an interior of `width` columns.
    pub fn fmt(self, width: usize, style: &BorderStyle) -> (r: String)
        ensures
            r@ == edge_line(self, width as nat, *style),
            r@.len() == width + 2,
    {
        match self {
            Self::Top => draw_line(Border::TL.fmt(style), Border::T.fmt(style), width, Border::TR.fmt(style)),
            Self::Bottom => draw_line(Border::BL.fmt(style), Border::B.fmt(style), width, Border::BR.fmt(style)),
        }
    }
}

/// A horizontal divider between two sections of a panel.
pub enum Separator {
    Blank,
    Single,
    Solid,
    Double,
    Dashed,
}

impl Separator {
    /// Draws this separator across an interior of `width` columns.
    pub fn fmt(self, width: usize, style: &BorderStyle) -> (r: String)
        ensures
            r@ == separator_line(self, width as nat, *style),
            r@.len() == width + 2,
    {
        proof {
            reveal_strlit(" ");
            reveal_strlit("├");
            reveal_strlit("┤");
            reveal_strlit("─");
            reveal_strlit("┈");
            reveal_strlit("┠");
            reveal_strlit("┨");
            reveal_strlit("╟");
            reveal_strlit("╢");
        }
        match self {
            Self::Blank => draw_line(Border::L.fmt(style), " ", width, Border::R.fmt(style)),
            Self::Dashed => draw_line("├", "┈", width, "┤"),
            Self::Single => draw_line("├", "─", width, "┤"),
            Self::Solid => draw_line("┠", "─", width, "┨"),
            Self::Double => draw_line("╟", "─", width, "╢"),
        }
    }
}

} // verus!
