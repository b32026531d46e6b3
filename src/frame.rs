use vstd::prelude::*;

verus! {

/// The product name shown in the welcome banner.
pub const PRODUCT_NAME: &'static str = "Ophelia text editor";

/// The version shown in the welcome banner.
pub const VERSION: &'static str = "0.1.0";

/// A snapshot of the terminal's dimensions, in character cells.
#[derive(Clone, Copy, Debug, PartialEq, Eq, Structural)]
pub struct Size {
    pub width: u16,
    pub height: u16,
}

/// One terminal operation of a rendered frame.
#[derive(Clone, Debug, PartialEq, Eq)]
pub enum Op {
    HideCursor,
    ShowCursor,
    ClearScreen,
    ClearLine,
    /// Move the terminal cursor to a 1-based (column, row) cell.
    MoveTo(u16, u16),
    /// Print a line of text followed by a line break.
    WriteLine(String),
    Flush,
}

/// What an operation is, with its text as a sequence of characters.
pub enum OpView {
    HideCursor,
    ShowCursor,
    ClearScreen,
    ClearLine,
    MoveTo(u16, u16),
    WriteLine(Seq<char>),
    Flush,
}

impl View for Op {
    type V = OpView;

    open spec fn view(&self) -> OpView {
        match self {
            Op::HideCursor => OpView::HideCursor,
            Op::ShowCursor => OpView::ShowCursor,
            Op::ClearScreen => OpView::ClearScreen,
            Op::ClearLine => OpView::ClearLine,
            Op::MoveTo(c, r) => OpView::MoveTo(*c, *r),
            Op::WriteLine(s) => OpView::WriteLine(s@),
            Op::Flush => OpView::Flush,
        }
    }
}

/// The views of a list of operations.
pub open spec fn ops_view(ops: Seq<Op>) -> Seq<OpView> {
    ops.map_values(|o: Op| o@)
}

/// The banner text: `"<product name> -- version <version>"`.
pub open spec fn welcome_text() -> Seq<char> {
    PRODUCT_NAME@ + " -- version "@ + VERSION@
}

/// Spaces between the marker glyph and the banner text: half of the room
/// the text leaves on a line of `width` cells, less one for the marker.
pub open spec fn left_gap(width: nat, len: nat) -> nat {
    let padding: nat = if width > len { ((width - len) as nat) / 2 } else { 0 };
    if padding > 0 { (padding - 1) as nat } else { 0 }
}

/// The marker glyph, the gap, the text, cut to at most `width` characters.
pub open spec fn welcome_line(width: nat, text: Seq<char>) -> Seq<char> {
    let full = seq!['~'] + Seq::new(left_gap(width, text.len()), |i: int| ' ') + text;
    if width < full.len() { full.take(width as int) } else { full }
}

/// Builds the banner text.
pub fn welcome_message() -> (r: String)
    ensures
        r@ == welcome_text(),
{
    let s = String::from_str(PRODUCT_NAME);
    let s = s.concat(" -- version ");
    s.concat(VERSION)
}

/// The banner line for a terminal `width` cells wide.
pub fn draw_welcome_message(width: u16) -> (r: String)
    ensures
        r@ == welcome_line(width as nat, welcome_text()),
        r@.len() <= width,
{
    let text = welcome_message();
    let len = text.as_str().unicode_len();
    let w = width as usize;
    let padding = w.saturating_sub(len) / 2;
    let gap = padding.saturating_sub(1);
    if w == 0 {
        return String::new();
    }
    let mut line = String::from_str("~");
    proof {
        reveal_strlit("~");
        reveal_strlit(" ");
    }
    let room = w - 1;
    let n_spaces = if gap < room { gap } else { room };
    let mut i: usize = 0;
    while i < n_spaces
        invariant
            i <= n_spaces,
            line@ == seq!['~'] + Seq::new(i as nat, |k: int| ' '),
        decreases n_spaces - i,
    {
        line.append(" ");
        proof {
            reveal_strlit(" ");
        }
        i = i + 1;
        assert(line@ =~= seq!['~'] + Seq::new(i as nat, |k: int| ' '));
    }
    let rest = room - n_spaces;
    let n_text = if rest < len { rest } else { len };
    line.append(text.as_str().substring_char(0, n_text));
    proof {
        let full = seq!['~'] + Seq::new(left_gap(w as nat, len as nat), |k: int| ' ') + text@;
        if w < full.len() {
            assert(line@ =~= full.take(w as int));
        } else {
            assert(line@ =~= full);
        }
    }
    line
}

/// The number of content rows drawn on a terminal `height` rows tall: all
/// but the last.
pub open spec fn row_count(height: u16) -> nat {
    if height > 0 { (height - 1) as nat } else { 0 }
}

/// The text of content row `row`: the banner on the first, a tilde on the others.
pub open spec fn row_text(row: int, width: u16) -> Seq<char> {
    if row == 0 { welcome_line(width as nat, welcome_text()) } else { seq!['~'] }
}

/// The operations that draw the first `n` content rows, each preceded by a
/// line clear.
pub open spec fn rows_view(n: nat, width: u16) -> Seq<OpView> {
    Seq::new(2 * n, |i: int| if i % 2 == 0 { OpView::ClearLine } else { OpView::WriteLine(row_text(i / 2, width)) })
}

/// The 1-based terminal coordinate of a 0-based canvas coordinate, held at
/// the largest cell the terminal can address.
pub open spec fn terminal_coord_spec(v: usize) -> u16 {
    if v < u16::MAX { (v + 1) as u16 } else { u16::MAX }
}

/// Draws the content rows of a terminal of the given size.
pub fn print_rows(size: Size) -> (r: Vec<Op>)
    ensures
        ops_view(r@) == rows_view(row_count(size.height), size.width),
{
    let height = size.height.saturating_sub(1);
    let mut ops: Vec<Op> = Vec::new();
    let mut row: u16 = 0;
    while row < height
        invariant
            row <= height,
            height as nat == row_count(size.height),
            ops_view(ops@) =~= rows_view(row as nat, size.width),
        decreases height - row,
    {
        let ghost prev = ops@;
        ops.push(Op::ClearLine);
        let line = if row == 0 {
            draw_welcome_message(size.width)
        } else {
            proof {
                reveal_strlit("~");
            }
            String::from_str("~")
        };
        assert(line@ == row_text(row as int, size.width));
        ops.push(Op::WriteLine(line));
        proof {
            let k = row as int;
            assert((2 * k) % 2 == 0 && (2 * k) / 2 == k) by (nonlinear_arith);
            assert((2 * k + 1) % 2 == 1 && (2 * k + 1) / 2 == k) by (nonlinear_arith);
            let next = rows_view((k + 1) as nat, size.width);
            assert(ops_view(prev).len() == 2 * k);
            assert(prev.len() == 2 * k);
            assert(ops@ == prev.push(Op::ClearLine).push(Op::WriteLine(line)));
            assert forall|i: int| 0 <= i < 2 * k + 2 implies #[trigger] ops_view(ops@)[i] == next[i] by {
                if i < 2 * k {
                    assert(ops@[i] == prev[i]);
                    assert(ops_view(prev)[i] == rows_view(k as nat, size.width)[i]);
                }
            }
            assert(ops_view(ops@) =~= next);
        }
        row = row + 1;
    }
    ops
}

/// Converts a canvas coordinate to a terminal coordinate.
pub fn terminal_coord(v: usize) -> (r: u16)
    ensures
        r == terminal_coord_spec(v),
{
    if v < u16::MAX as usize {
        (v + 1) as u16
    } else {
        u16::MAX
    }
}

/// On a terminal at least one cell wide, the banner line never runs past
/// the terminal's width.
pub proof fn lemma_welcome_fits(width: u16)
    requires
        width >= 1,
    ensures
        welcome_line(width as nat, welcome_text()).len() <= width,
{
}

} // verus!
