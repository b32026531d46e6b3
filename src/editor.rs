use crate::frame::{
    ops_view, print_rows, row_count, rows_view, terminal_coord, terminal_coord_spec, OpView,
    Op, Size,
};
use crate::keys::Key;
use vstd::prelude::*;

verus! {

/// A cursor position on the canvas: column `x` and row `y`, both from 0.
#[derive(Clone, Copy, Debug, PartialEq, Eq, Structural)]
pub struct Position {
    pub x: usize,
    pub y: usize,
}

/// The editor's state as a plain value.
pub struct EditorState {
    pub quit: bool,
    pub cursor: Position,
}

/// The furthest a coordinate may go on an axis of `cells` cells: twice the
/// viewport's last index, as the canvas is twice the viewport.
pub open spec fn canvas_limit(cells: u16) -> nat {
    if cells > 0 { 2 * ((cells - 1) as nat) } else { 0 }
}

/// Where one key moves the cursor on a terminal of the given size.
pub open spec fn moved(p: Position, key: Key, size: Size) -> Position {
    match key {
        Key::Up => Position { x: p.x, y: if p.y > 0 { (p.y - 1) as usize } else { 0 } },
        Key::Down => Position {
            x: p.x,
            y: if p.y < canvas_limit(size.height) { (p.y + 1) as usize } else { p.y },
        },
        Key::Left => Position { x: if p.x > 0 { (p.x - 1) as usize } else { 0 }, y: p.y },
        Key::Right => Position {
            x: if p.x < canvas_limit(size.width) { (p.x + 1) as usize } else { p.x },
            y: p.y,
        },
        _ => p,
    }
}

/// Whether a key is control+'w', the quit key.
pub open spec fn is_quit_key(key: Key) -> bool {
    key == Key::Ctrl('w')
}

/// The state after one key event.
pub open spec fn stepped(s: EditorState, key: Key, size: Size) -> EditorState {
    EditorState { quit: s.quit || is_quit_key(key), cursor: moved(s.cursor, key, size) }
}

/// The farewell frame.
pub open spec fn farewell_frame() -> Seq<OpView> {
    seq![
        OpView::HideCursor,
        OpView::ClearScreen,
        OpView::MoveTo(1, 1),
        OpView::ClearScreen,
        OpView::WriteLine(seq!['b', 'y', 'e', '!', '.']),
        OpView::Flush,
        OpView::ShowCursor,
    ]
}

/// The frame that shows the canvas: content rows, then the cursor placed
/// at its position.
pub open spec fn canvas_frame(cursor: Position, size: Size) -> Seq<OpView> {
    seq![OpView::HideCursor, OpView::ClearScreen, OpView::MoveTo(1, 1)] + rows_view(
        row_count(size.height),
        size.width,
    ) + seq![
        OpView::MoveTo(terminal_coord_spec(cursor.x), terminal_coord_spec(cursor.y)),
        OpView::Flush,
        OpView::ShowCursor,
    ]
}

/// The frame rendered for a state on a terminal of the given size.
pub open spec fn frame_of(s: EditorState, size: Size) -> Seq<OpView> {
    if s.quit { farewell_frame() } else { canvas_frame(s.cursor, size) }
}

/// The editor controller: a quit flag and the cursor position.
pub struct Editor {
    quit: bool,
    cursor_pos: Position,
}

impl View for Editor {
    type V = EditorState;

    closed spec fn view(&self) -> EditorState {
        EditorState { quit: self.quit, cursor: self.cursor_pos }
    }
}

impl Editor {
    /// A fresh editor: not quitting, cursor at the canvas origin.
    pub fn default() -> (r: Editor)
        ensures
            !r@.quit,
            r@.cursor == (Position { x: 0, y: 0 }),
    {
        Editor { quit: false, cursor_pos: Position { x: 0, y: 0 } }
    }

    /// Whether the quit key has been received.
    pub fn is_quit(&self) -> (r: bool)
        ensures
            r == self@.quit,
    {
        self.quit
    }

    /// The cursor's position on the canvas.
    pub fn cursor(&self) -> (r: Position)
        ensures
            r == self@.cursor,
    {
        self.cursor_pos
    }

    /// Moves the cursor for an arrow key, bounded by the terminal size seen
    /// now; other keys leave it.
    pub fn move_cursor(&mut self, key: Key, size: Size)
        ensures
            final(self)@.cursor == moved(old(self)@.cursor, key, size),
            final(self)@.quit == old(self)@.quit,
    {
        let Position { mut x, mut y } = self.cursor_pos;
        let height = size.height.saturating_sub(1) as usize;
        let width = size.width.saturating_sub(1) as usize;
        match key {
            Key::Up => y = y.saturating_sub(1),
            Key::Down => {
                if y < 2 * height {
                    y = y + 1;
                }
            },
            Key::Left => x = x.saturating_sub(1),
            Key::Right => {
                if x < 2 * width {
                    x = x + 1;
                }
            },
            _ => {},
        }
        self.cursor_pos = Position { x, y };
    }

    /// Interprets one key event: control+'w' quits, an arrow key moves the
    /// cursor, anything else is ignored.
    pub fn key_input(&mut self, key: Key, size: Size)
        ensures
            final(self)@ == stepped(old(self)@, key, size),
    {
        if key == Key::Ctrl('w') {
            self.quit = true;
        }
        if key == Key::Up || key == Key::Down || key == Key::Left || key == Key::Right {
            self.move_cursor(key, size);
        }
    }

    /// Renders one frame: the farewell line when quitting, else the content
    /// rows and the cursor.
    pub fn clear_screen(&self, size: Size) -> (r: Vec<Op>)
        ensures
            ops_view(r@) == frame_of(self@, size),
    {
        let mut ops: Vec<Op> = Vec::new();
        ops.push(Op::HideCursor);
        ops.push(Op::ClearScreen);
        ops.push(Op::MoveTo(1, 1));
        if self.quit {
            ops.push(Op::ClearScreen);
            proof {
                reveal_strlit("bye!.");
            }
            let bye = String::from_str("bye!.");
            assert(bye@ =~= seq!['b', 'y', 'e', '!', '.']);
            ops.push(Op::WriteLine(bye));
        } else {
            let mut rows = print_rows(size);
            ops.append(&mut rows);
            let col = terminal_coord(self.cursor_pos.x);
            let row = terminal_coord(self.cursor_pos.y);
            ops.push(Op::MoveTo(col, row));
        }
        ops.push(Op::Flush);
        ops.push(Op::ShowCursor);
        proof {
            if self.quit {
                assert(ops_view(ops@) =~= farewell_frame());
            } else {
                assert(ops_view(ops@) =~= canvas_frame(self.cursor_pos, size));
            }
        }
        ops
    }
}

/// The cursor after the same key `n` times.
pub open spec fn moved_times(p: Position, key: Key, size: Size, n: nat) -> Position
    decreases n,
{
    if n == 0 { p } else { moved(moved_times(p, key, size, (n - 1) as nat), key, size) }
}

/// The cursor after a sequence of keys, first to last.
pub open spec fn moved_all(p: Position, keys: Seq<Key>, size: Size) -> Position
    decreases keys.len(),
{
    if keys.len() == 0 { p } else { moved(moved_all(p, keys.drop_last(), size), keys.last(), size) }
}

/// Any sequence of Up and Left motions keeps both coordinates non-negative
/// and never moves the cursor down or right.
pub proof fn lemma_up_left_never_negative(p: Position, keys: Seq<Key>, size: Size)
    requires
        forall|i: int| 0 <= i < keys.len() ==> keys[i] == Key::Up || keys[i] == Key::Left,
    ensures
        moved_all(p, keys, size).x as int >= 0,
        moved_all(p, keys, size).y as int >= 0,
        moved_all(p, keys, size).x <= p.x,
        moved_all(p, keys, size).y <= p.y,
    decreases keys.len(),
{
    if keys.len() > 0 {
        lemma_up_left_never_negative(p, keys.drop_last(), size);
    }
}

/// `n` Up motions lower the row by `n`, stopping at the top row.
pub proof fn lemma_up_saturates(p: Position, size: Size, n: nat)
    ensures
        moved_times(p, Key::Up, size, n).y as int == if p.y >= n { p.y - n } else { 0 },
        moved_times(p, Key::Up, size, n).x == p.x,
    decreases n,
{
    if n > 0 {
        lemma_up_saturates(p, size, (n - 1) as nat);
    }
}

/// `n` Left motions lower the column by `n`, stopping at the first column.
pub proof fn lemma_left_saturates(p: Position, size: Size, n: nat)
    ensures
        moved_times(p, Key::Left, size, n).x as int == if p.x >= n { p.x - n } else { 0 },
        moved_times(p, Key::Left, size, n).y == p.y,
    decreases n,
{
    if n > 0 {
        lemma_left_saturates(p, size, (n - 1) as nat);
    }
}

/// From the top row, `n` Down motions reach row `min(n, 2 * (height - 1))`:
/// the cursor climbs to that bound and then stays there.
pub proof fn lemma_down_converges(x: usize, size: Size, n: nat)
    ensures
        moved_times(Position { x, y: 0 }, Key::Down, size, n).y == if n <= canvas_limit(
            size.height,
        ) {
            n
        } else {
            canvas_limit(size.height)
        },
        moved_times(Position { x, y: 0 }, Key::Down, size, n).x == x,
        size.height >= 1 ==> canvas_limit(size.height) == 2 * (size.height - 1),
    decreases n,
{
    if n > 0 {
        lemma_down_converges(x, size, (n - 1) as nat);
    }
}

/// From the first column, `n` Right motions reach column
/// `min(n, 2 * (width - 1))`: the cursor climbs to that bound and then stays.
pub proof fn lemma_right_converges(y: usize, size: Size, n: nat)
    ensures
        moved_times(Position { x: 0, y }, Key::Right, size, n).x == if n <= canvas_limit(
            size.width,
        ) {
            n
        } else {
            canvas_limit(size.width)
        },
        moved_times(Position { x: 0, y }, Key::Right, size, n).y == y,
        size.width >= 1 ==> canvas_limit(size.width) == 2 * (size.width - 1),
    decreases n,
{
    if n > 0 {
        lemma_right_converges(y, size, (n - 1) as nat);
    }
}

/// Control+'w' from any state sets the quit flag, and the next frame, on a
/// terminal of any size, is exactly the farewell frame: the screen cleared
/// and one farewell line, with no move to the cursor's canvas position.
pub proof fn lemma_quit_key_farewell(s: EditorState, key_size: Size, render_size: Size)
    ensures
        stepped(s, Key::Ctrl('w'), key_size).quit,
        frame_of(stepped(s, Key::Ctrl('w'), key_size), render_size) == farewell_frame(),
        farewell_frame().len() == 7,
        forall|i: int|
            0 <= i < 7 && #[trigger] farewell_frame()[i] is MoveTo ==> farewell_frame()[i]
                == OpView::MoveTo(1, 1),
{
}

/// Rendering depends on the state and the terminal size alone: two renders
/// of one state on one terminal give the same frame, which opens by hiding
/// the cursor and closes by showing it again.
pub proof fn lemma_render_repeatable(s: EditorState, t: EditorState, size: Size)
    requires
        s == t,
    ensures
        frame_of(s, size) == frame_of(t, size),
        frame_of(s, size).len() >= 2,
        frame_of(s, size)[0] == OpView::HideCursor,
        frame_of(s, size).last() == OpView::ShowCursor,
{
}

} // verus!
