//! The viewport and cursor controller: bounded cursor navigation, edits at
//! the cursor, and the lazy scroll offset that keeps the cursor visible.

use vstd::prelude::*;

use crate::buffer::{spec_buffer_delete, spec_buffer_insert, spec_can_delete, spec_grid_col,
    spec_line_len, Buffer};
use vstd::view::View as _;
use crate::line::line_from_text;
use crate::position::Position;
use crate::size::Size;
use crate::text::{lines_of, split_lines, texts_of};

verus! {

/// A navigation command: one step or jump of the cursor.
#[derive(Copy, Clone, Debug, PartialEq, Eq, Structural)]
pub enum Direction {
    PageUp,
    PageDown,
    Home,
    End,
    Up,
    Down,
    Left,
    Right,
}

/// A decoded editor command.
#[derive(Copy, Clone, Debug, PartialEq, Eq, Structural)]
pub enum EditorCommand {
    Move(Direction),
    Resize(Size),
    Insert(char),
    DeleteLeft,
    DeleteRight,
    Quit,
}

/// The smaller of two values.
pub open spec fn spec_min(a: int, b: int) -> int {
    if a <= b {
        a
    } else {
        b
    }
}

/// The larger of two values.
pub open spec fn spec_max(a: int, b: int) -> int {
    if a >= b {
        a
    } else {
        b
    }
}

/// Subtraction that stops at zero.
pub open spec fn sat_sub(a: int, b: int) -> int {
    if a >= b {
        a - b
    } else {
        0
    }
}

/// Addition that stops at the machine limit.
pub open spec fn sat_add(a: int, b: int) -> int {
    if a + b <= usize::MAX as int {
        a + b
    } else {
        usize::MAX as int
    }
}

/// The row the cursor reaches from `p` by `d`, before and after clamping:
/// vertical moves saturate at the document edges, and the result never goes
/// past the last line (or row zero in an empty document).
pub open spec fn spec_moved_row(lines: Seq<crate::line::Line>, size: Size, p: Position, d: Direction) -> int {
    let raw = match d {
        Direction::Up => sat_sub(p.row as int, 1),
        Direction::Down => sat_add(p.row as int, 1),
        Direction::PageUp => sat_sub(p.row as int, size.height as int),
        Direction::PageDown => sat_add(p.row as int, size.height as int),
        _ => p.row as int,
    };
    spec_min(sat_sub(lines.len() as int, 1), raw)
}

/// The column the cursor reaches from `p` by `d`: horizontal moves saturate
/// at the line edges, `Home` is column zero, `End` the line's grapheme
/// length; the result is clamped to the length of the row the cursor lands
/// on — the caret may rest one past the last cluster, never farther.
pub open spec fn spec_moved_col(lines: Seq<crate::line::Line>, size: Size, p: Position, d: Direction) -> int {
    let raw = match d {
        Direction::Left => sat_sub(p.col as int, 1),
        Direction::Right => sat_add(p.col as int, 1),
        Direction::Home => 0,
        Direction::End => spec_line_len(lines, p.row as int),
        _ => p.col as int,
    };
    spec_min(spec_line_len(lines, spec_moved_row(lines, size, p, d)), raw)
}

/// The lazy scroll rule along one axis: keep `offset` when `target` already
/// lies inside the window of `extent` cells starting there, else move just
/// enough to bring it in.
pub open spec fn spec_scroll_adjust(offset: int, target: int, extent: int) -> int {
    spec_max(spec_min(offset, target), sat_sub(target, sat_sub(extent, 1)))
}

/// Law: a window of at least one cell adjusted by the lazy scroll rule
/// contains its target.
pub proof fn lemma_scroll_adjust_in_view(offset: int, target: int, extent: int)
    requires
        0 <= target,
        1 <= extent,
    ensures
        spec_scroll_adjust(offset, target, extent) <= target,
        target < spec_scroll_adjust(offset, target, extent) + extent,
{
}

/// Law: `Home` zeroes the column without changing the row; `End` keeps the
/// row and puts the caret one past the line's last cluster.
pub proof fn lemma_home_end(lines: Seq<crate::line::Line>, size: Size, p: Position)
    requires
        (p.row as int) < lines.len(),
    ensures
        spec_moved_row(lines, size, p, Direction::Home) == p.row as int,
        spec_moved_col(lines, size, p, Direction::Home) == 0,
        spec_moved_row(lines, size, p, Direction::End) == p.row as int,
        spec_moved_col(lines, size, p, Direction::End) == spec_line_len(lines, p.row as int),
{
}

/// The greeting shown over an empty buffer.
pub open spec fn spec_welcome() -> Seq<char> {
    "hecto editor -- v0.1.0"@
}

/// The greeting's text.
fn welcome_text() -> (s: &'static str)
    ensures
        s@ == spec_welcome(),
{
    "hecto editor -- v0.1.0"
}

/// What one render pass yields: nothing new, a centered greeting, or one
/// display string per visible row.
pub enum RenderPlan {
    Unchanged,
    Welcome(Position, String),
    Rows(Vec<String>),
}

/// The display text of visible row `r`: the line at `offset.row + r`
/// clipped to the window's columns, or a tilde past the document's end.
pub open spec fn spec_rendered_row(
    lines: Seq<crate::line::Line>,
    offset: Position,
    size: Size,
    r: int,
) -> Seq<char> {
    let idx = offset.row + r;
    if idx < lines.len() {
        crate::line::spec_render(lines[idx]@, offset.col as int, offset.col + size.width)
    } else {
        seq!['~']
    }
}

/// Whether visible row `r` is rendered exactly: its line's total width and
/// the window's right edge both stay below the machine limit (rows past the
/// document's end always are).
pub open spec fn spec_row_exact(
    lines: Seq<crate::line::Line>,
    offset: Position,
    size: Size,
    r: int,
) -> bool {
    let idx = offset.row + r;
    idx < lines.len() ==> (crate::line::frags_fit(lines[idx]@) && offset.col + size.width
        <= usize::MAX as int)
}

/// The viewport: a buffer, the cursor's logical position, the window size,
/// the scroll offset, and whether the screen needs redrawing.
pub struct View {
    pub buffer: Buffer,
    pub needs_redraw: bool,
    pub size: Size,
    pub cursor_position: Position,
    pub scroll_offset: Position,
}

impl View {
    /// The cursor's grid position lies inside the visible window.
    pub open spec fn cursor_in_view(self) -> bool {
        let grid_row = self.cursor_position.row as int;
        let grid_col = spec_grid_col(self.buffer@, self.cursor_position);
        &&& self.scroll_offset.row <= grid_row < self.scroll_offset.row + self.size.height
        &&& self.scroll_offset.col <= grid_col < self.scroll_offset.col + self.size.width
    }

    /// How a cursor move relates the state before it to the state after it:
    /// the buffer stays, the cursor lands where the clamped move sends it,
    /// the scroll offset follows the lazy rule, a redraw becomes due, and —
    /// whenever the window has any cells — the cursor ends up visible.
    pub open spec fn spec_move_cursor(v0: View, v1: View, d: Direction) -> bool {
        &&& v1.buffer == v0.buffer
        &&& v1.size == v0.size
        &&& v1.needs_redraw == true
        &&& v1.cursor_position.row as int == spec_moved_row(
            v0.buffer@,
            v0.size,
            v0.cursor_position,
            d,
        )
        &&& v1.cursor_position.col as int == spec_moved_col(
            v0.buffer@,
            v0.size,
            v0.cursor_position,
            d,
        )
        &&& v1.scroll_offset.row as int == spec_scroll_adjust(
            v0.scroll_offset.row as int,
            v1.cursor_position.row as int,
            v0.size.height as int,
        )
        &&& v1.scroll_offset.col as int == spec_scroll_adjust(
            v0.scroll_offset.col as int,
            spec_grid_col(v1.buffer@, v1.cursor_position),
            v0.size.width as int,
        )
        &&& (v1.size.width > 0 && v1.size.height > 0) ==> v1.cursor_in_view()
    }

    /// How a resize relates the state before it to the state after it: the
    /// window takes the new dimensions, the offset is readjusted against the
    /// unchanged cursor, and the cursor stays visible in any non-empty
    /// window.
    pub open spec fn spec_resize(v0: View, v1: View, to: Size) -> bool {
        &&& v1.buffer == v0.buffer
        &&& v1.cursor_position == v0.cursor_position
        &&& v1.size == to
        &&& v1.needs_redraw == true
        &&& v1.scroll_offset.row as int == spec_scroll_adjust(
            v0.scroll_offset.row as int,
            v1.cursor_position.row as int,
            to.height as int,
        )
        &&& v1.scroll_offset.col as int == spec_scroll_adjust(
            v0.scroll_offset.col as int,
            spec_grid_col(v1.buffer@, v1.cursor_position),
            to.width as int,
        )
        &&& (to.width > 0 && to.height > 0) ==> v1.cursor_in_view()
    }

    /// How an insertion at the cursor relates the state before it to the
    /// state after it: the buffer takes the character at the cursor; when a
    /// line gained a cluster — always, except at a row beyond one past the
    /// end — the cursor steps one to the right and the offset follows.
    pub open spec fn spec_insert(v0: View, v1: View, ch: char) -> bool {
        let at = v0.cursor_position;
        let moved = (at.row as int) <= v0.buffer@.len();
        &&& spec_buffer_insert(v0.buffer@, v1.buffer@, at, ch)
        &&& v0.buffer.wf() ==> v1.buffer.wf()
        &&& v1.size == v0.size
        &&& v1.needs_redraw == true
        &&& moved ==> {
            &&& v1.cursor_position.row as int == spec_moved_row(
                v1.buffer@,
                v0.size,
                at,
                Direction::Right,
            )
            &&& v1.cursor_position.col as int == spec_moved_col(
                v1.buffer@,
                v0.size,
                at,
                Direction::Right,
            )
            &&& v1.scroll_offset.row as int == spec_scroll_adjust(
                v0.scroll_offset.row as int,
                v1.cursor_position.row as int,
                v0.size.height as int,
            )
            &&& v1.scroll_offset.col as int == spec_scroll_adjust(
                v0.scroll_offset.col as int,
                spec_grid_col(v1.buffer@, v1.cursor_position),
                v0.size.width as int,
            )
            &&& (v0.size.width > 0 && v0.size.height > 0) ==> v1.cursor_in_view()
        }
        &&& !moved ==> v1.cursor_position == v0.cursor_position && v1.scroll_offset
            == v0.scroll_offset && (v0.cursor_in_view() ==> v1.cursor_in_view())
    }

    /// How deleting leftward relates the state before it to the state after
    /// it: at column zero nothing happens at all; otherwise the cursor first
    /// steps one cluster left (the offset following it over the unchanged
    /// buffer) and the cluster now under the cursor is removed.
    pub open spec fn spec_delete_left(v0: View, v1: View) -> bool {
        if v0.cursor_position.col == 0 {
            v1 == v0
        } else {
            let r1 = spec_moved_row(v0.buffer@, v0.size, v0.cursor_position, Direction::Left);
            let c1 = spec_moved_col(v0.buffer@, v0.size, v0.cursor_position, Direction::Left);
            &&& v1.cursor_position.row as int == r1
            &&& v1.cursor_position.col as int == c1
            &&& v1.size == v0.size
            &&& v1.needs_redraw == true
            &&& v1.scroll_offset.row as int == spec_scroll_adjust(
                v0.scroll_offset.row as int,
                r1,
                v0.size.height as int,
            )
            &&& v1.scroll_offset.col as int == spec_scroll_adjust(
                v0.scroll_offset.col as int,
                spec_grid_col(v0.buffer@, v1.cursor_position),
                v0.size.width as int,
            )
            &&& spec_buffer_delete(v0.buffer@, v1.buffer@, v1.cursor_position)
            &&& (v0.buffer.wf() ==> v1.buffer.wf())
            &&& (v0.size.width > 0 && v0.size.height > 0) ==> v1.cursor_in_view()
        }
    }

    /// How deleting rightward relates the state before it to the state
    /// after it: the cluster under the cursor is removed if there is one,
    /// the cursor and offset stay, and a redraw becomes due only when
    /// something was removed.
    pub open spec fn spec_delete_right(v0: View, v1: View) -> bool {
        &&& spec_buffer_delete(v0.buffer@, v1.buffer@, v0.cursor_position)
        &&& (v0.buffer.wf() ==> v1.buffer.wf())
        &&& v1.cursor_position == v0.cursor_position
        &&& v1.scroll_offset == v0.scroll_offset
        &&& v1.size == v0.size
        &&& v1.needs_redraw == (v0.needs_redraw || spec_can_delete(v0.buffer@, v0.cursor_position))
        &&& v0.cursor_in_view() ==> v1.cursor_in_view()
    }

    /// A fresh view of the given size over an empty buffer.
    pub fn new(size: Size) -> (v: View)
        ensures
            v.buffer@.len() == 0,
            v.buffer.wf(),
            v.needs_redraw == true,
            v.size == size,
            v.cursor_position == (Position { row: 0, col: 0 }),
            v.scroll_offset == (Position { row: 0, col: 0 }),
    {
        View {
            buffer: Buffer::default(),
            needs_redraw: true,
            size,
            cursor_position: Position { row: 0, col: 0 },
            scroll_offset: Position { row: 0, col: 0 },
        }
    }

    /// Where the cursor lands when moved one step by `direction`, clamped
    /// to the document: never past the last line, never past a line's
    /// caret-after-last-cluster column.
    fn update_cursor_position(&self, direction: &Direction) -> (p: Position)
        ensures
            p.row as int == spec_moved_row(self.buffer@, self.size, self.cursor_position, *direction),
            p.col as int == spec_moved_col(self.buffer@, self.size, self.cursor_position, *direction),
    {
        let mut row = self.cursor_position.row;
        let mut col = self.cursor_position.col;
        match direction {
            Direction::Left => {
                col = col.saturating_sub(1);
            },
            Direction::Right => {
                col = col.saturating_add(1);
            },
            Direction::Up => {
                row = row.saturating_sub(1);
            },
            Direction::Down => {
                row = row.saturating_add(1);
            },
            Direction::Home => {
                col = 0;
            },
            Direction::End => {
                col = self.buffer.line_len(row);
            },
            Direction::PageUp => {
                row = row.saturating_sub(self.size.height);
            },
            Direction::PageDown => {
                row = row.saturating_add(self.size.height);
            },
        }
        let last_row = self.buffer.num_lines().saturating_sub(1);
        if row > last_row {
            row = last_row;
        }
        let len = self.buffer.line_len(row);
        if col > len {
            col = len;
        }
        Position { row, col }
    }

    /// The scroll offset that keeps the cursor's grid position inside a
    /// window of `size`, moving each axis only as far as it must.
    fn update_scroll_offset(&self, size: Size) -> (offset: Position)
        ensures
            offset.row as int == spec_scroll_adjust(
                self.scroll_offset.row as int,
                self.cursor_position.row as int,
                size.height as int,
            ),
            offset.col as int == spec_scroll_adjust(
                self.scroll_offset.col as int,
                spec_grid_col(self.buffer@, self.cursor_position),
                size.width as int,
            ),
    {
        let row = self.cursor_position.row;
        let grid = self.buffer.grid_position_of(self.cursor_position);
        let dy_keep = if self.scroll_offset.row <= row {
            self.scroll_offset.row
        } else {
            row
        };
        let dy_floor = row.saturating_sub(size.height.saturating_sub(1));
        let dy = if dy_keep >= dy_floor {
            dy_keep
        } else {
            dy_floor
        };
        let dx_keep = if self.scroll_offset.col <= grid.col {
            self.scroll_offset.col
        } else {
            grid.col
        };
        let dx_floor = grid.col.saturating_sub(size.width.saturating_sub(1));
        let dx = if dx_keep >= dx_floor {
            dx_keep
        } else {
            dx_floor
        };
        Position { row: dy, col: dx }
    }

    /// Move the cursor by `direction`, clamped to the document, and scroll
    /// just enough to keep it visible.
    pub fn move_cursor(&mut self, direction: &Direction)
        ensures
            View::spec_move_cursor(*old(self), *final(self), *direction),
    {
        self.cursor_position = self.update_cursor_position(direction);
        self.scroll_offset = self.update_scroll_offset(self.size);
        self.needs_redraw = true;
        proof {
            if self.size.width > 0 && self.size.height > 0 {
                crate::buffer::lemma_grid_col_nonneg(self.buffer@, self.cursor_position);
                lemma_scroll_adjust_in_view(
                    old(self).scroll_offset.row as int,
                    self.cursor_position.row as int,
                    self.size.height as int,
                );
                lemma_scroll_adjust_in_view(
                    old(self).scroll_offset.col as int,
                    spec_grid_col(self.buffer@, self.cursor_position),
                    self.size.width as int,
                );
            }
        }
    }

    /// Take the new window dimensions and scroll just enough to keep the
    /// cursor visible in them.
    pub fn resize(&mut self, to: Size)
        ensures
            View::spec_resize(*old(self), *final(self), to),
    {
        self.size = to;
        self.scroll_offset = self.update_scroll_offset(to);
        self.needs_redraw = true;
        proof {
            if to.width > 0 && to.height > 0 {
                crate::buffer::lemma_grid_col_nonneg(self.buffer@, self.cursor_position);
                lemma_scroll_adjust_in_view(
                    old(self).scroll_offset.row as int,
                    self.cursor_position.row as int,
                    to.height as int,
                );
                lemma_scroll_adjust_in_view(
                    old(self).scroll_offset.col as int,
                    spec_grid_col(self.buffer@, self.cursor_position),
                    to.width as int,
                );
            }
        }
    }

    /// Insert `ch` at the cursor; when a line gained a cluster, step the
    /// cursor one to the right.
    pub fn insert(&mut self, ch: char)
        ensures
            View::spec_insert(*old(self), *final(self), ch),
    {
        let at = self.cursor_position;
        let old_line_length = self.buffer.line_len(at.row);
        self.buffer.insert(at, ch);
        if self.buffer.line_len(at.row) > old_line_length {
            self.move_cursor(&Direction::Right);
        }
        self.needs_redraw = true;
    }

    /// Remove the cluster left of the cursor and step the cursor onto its
    /// place; at column zero this is a no-op — lines are never joined.
    pub fn delete_left(&mut self)
        ensures
            View::spec_delete_left(*old(self), *final(self)),
    {
        if self.cursor_position.col == 0 {
            return ;
        }
        self.move_cursor(&Direction::Left);
        let deleted = self.buffer.delete(self.cursor_position);
        if deleted {
            self.needs_redraw = true;
        }
        proof {
            let p = self.cursor_position;
            if spec_can_delete(old(self).buffer@, p) {
                crate::line::lemma_prefix_width_agree(
                    old(self).buffer@[p.row as int]@,
                    self.buffer@[p.row as int]@,
                    p.col as int,
                );
            }
        }
    }

    /// Remove the cluster under the cursor, leaving the cursor where it is;
    /// at the end of a line this is a no-op — lines are never joined.
    pub fn delete_right(&mut self)
        ensures
            View::spec_delete_right(*old(self), *final(self)),
    {
        let deleted = self.buffer.delete(self.cursor_position);
        if deleted {
            self.needs_redraw = true;
        }
        proof {
            let p = self.cursor_position;
            if spec_can_delete(old(self).buffer@, p) {
                crate::line::lemma_prefix_width_agree(
                    old(self).buffer@[p.row as int]@,
                    self.buffer@[p.row as int]@,
                    p.col as int,
                );
            }
        }
    }

    /// Carry out one decoded command; `Quit` is not the view's business and
    /// changes nothing here.
    pub fn handle_command(&mut self, command: EditorCommand)
        ensures
            match command {
                EditorCommand::Move(d) => View::spec_move_cursor(*old(self), *final(self), d),
                EditorCommand::Resize(to) => View::spec_resize(*old(self), *final(self), to),
                EditorCommand::Insert(ch) => View::spec_insert(*old(self), *final(self), ch),
                EditorCommand::DeleteLeft => View::spec_delete_left(*old(self), *final(self)),
                EditorCommand::DeleteRight => View::spec_delete_right(*old(self), *final(self)),
                EditorCommand::Quit => *final(self) == *old(self),
            },
    {
        match command {
            EditorCommand::Move(direction) => self.move_cursor(&direction),
            EditorCommand::Resize(size) => self.resize(size),
            EditorCommand::Insert(ch) => self.insert(ch),
            EditorCommand::DeleteLeft => self.delete_left(),
            EditorCommand::DeleteRight => self.delete_right(),
            EditorCommand::Quit => {},
        }
    }

    /// Replace the buffer with the lines of `text`, leaving cursor, offset
    /// and window size untouched.
    pub fn load(&mut self, text: &str)
        ensures
            final(self).buffer@.len() == lines_of(text@).len(),
            forall|i: int|
                0 <= i < lines_of(text@).len() ==> line_from_text(
                    #[trigger] final(self).buffer@[i],
                    lines_of(text@)[i],
                ),
            final(self).buffer.wf(),
            final(self).needs_redraw == true,
            final(self).size == old(self).size,
            final(self).cursor_position == old(self).cursor_position,
            final(self).scroll_offset == old(self).scroll_offset,
    {
        let pieces = split_lines(text);
        let n = pieces.len();
        let mut buffer = Buffer::default();
        let mut i: usize = 0;
        while i < n
            invariant
                n == pieces@.len(),
                texts_of(pieces@) == lines_of(text@),
                i <= n,
                buffer@.len() == i,
                buffer.wf(),
                forall|j: int|
                    0 <= j < i ==> line_from_text(#[trigger] buffer@[j], lines_of(text@)[j]),
            decreases n - i,
        {
            buffer.push(pieces[i].as_str());
            i += 1;
        }
        self.buffer = buffer;
        self.needs_redraw = true;
    }

    /// Render one pass: nothing when no redraw is due, the greeting over an
    /// empty buffer, else one display string per visible row. Every pass
    /// that yields output clears the redraw flag.
    pub fn render(&mut self) -> (plan: RenderPlan)
        ensures
            !old(self).needs_redraw ==> plan is Unchanged,
            old(self).needs_redraw && old(self).buffer@.len() == 0 ==> plan is Welcome,
            old(self).needs_redraw && old(self).buffer@.len() > 0 ==> plan is Rows,
            match plan {
                RenderPlan::Unchanged => *final(self) == *old(self),
                RenderPlan::Welcome(origin, message) => {
                    &&& final(self).buffer == old(self).buffer
                    &&& final(self).size == old(self).size
                    &&& final(self).cursor_position == old(self).cursor_position
                    &&& final(self).scroll_offset == old(self).scroll_offset
                    &&& final(self).needs_redraw == false
                    &&& origin.row as int == old(self).size.height as int / 3
                    &&& origin.col as int == sat_sub(
                        old(self).size.width as int,
                        message@.len() as int,
                    ) / 2
                    &&& message@ == spec_welcome().take(
                        spec_min(spec_welcome().len() as int, old(self).size.width as int),
                    )
                },
                RenderPlan::Rows(rows) => {
                    &&& final(self).buffer == old(self).buffer
                    &&& final(self).size == old(self).size
                    &&& final(self).cursor_position == old(self).cursor_position
                    &&& final(self).scroll_offset == old(self).scroll_offset
                    &&& final(self).needs_redraw == false
                    &&& rows@.len() == old(self).size.height
                    &&& forall|r: int|
                        0 <= r < rows@.len() && spec_row_exact(
                            old(self).buffer@,
                            old(self).scroll_offset,
                            old(self).size,
                            r,
                        ) ==> (#[trigger] rows@[r])@ == spec_rendered_row(
                            old(self).buffer@,
                            old(self).scroll_offset,
                            old(self).size,
                            r,
                        )
                },
            },
    {
        if !self.needs_redraw {
            return RenderPlan::Unchanged;
        }
        if self.buffer.is_empty() {
            let (origin, message) = self.render_welcome_message();
            self.needs_redraw = false;
            RenderPlan::Welcome(origin, message)
        } else {
            RenderPlan::Rows(self.render_buffer())
        }
    }

    /// One display string per visible row: the line at the scroll offset
    /// plus the row number, clipped to the window's columns, or a tilde for
    /// rows past the document's end. Clears the redraw flag.
    fn render_buffer(&mut self) -> (rows: Vec<String>)
        ensures
            final(self).buffer == old(self).buffer,
            final(self).size == old(self).size,
            final(self).cursor_position == old(self).cursor_position,
            final(self).scroll_offset == old(self).scroll_offset,
            final(self).needs_redraw == false,
            rows@.len() == old(self).size.height,
            forall|r: int|
                0 <= r < rows@.len() && spec_row_exact(
                    old(self).buffer@,
                    old(self).scroll_offset,
                    old(self).size,
                    r,
                ) ==> (#[trigger] rows@[r])@ == spec_rendered_row(
                    old(self).buffer@,
                    old(self).scroll_offset,
                    old(self).size,
                    r,
                ),
    {
        let height = self.size.height;
        let width = self.size.width;
        let top = self.scroll_offset.row;
        let left = self.scroll_offset.col;
        let total_lines = self.buffer.num_lines();
        let mut rows: Vec<String> = Vec::new();
        let mut current: usize = 0;
        while current < height
            invariant
                *self == *old(self),
                height == self.size.height,
                width == self.size.width,
                top == self.scroll_offset.row,
                left == self.scroll_offset.col,
                total_lines == self.buffer@.len(),
                current <= height,
                rows@.len() == current,
                forall|r: int|
                    0 <= r < current && spec_row_exact(
                        self.buffer@,
                        self.scroll_offset,
                        self.size,
                        r,
                    ) ==> (#[trigger] rows@[r])@ == spec_rendered_row(
                        self.buffer@,
                        self.scroll_offset,
                        self.size,
                        r,
                    ),
            decreases height - current,
        {
            let ghost row_spec = spec_rendered_row(
                self.buffer@,
                self.scroll_offset,
                self.size,
                current as int,
            );
            let ghost row_exact = spec_row_exact(
                self.buffer@,
                self.scroll_offset,
                self.size,
                current as int,
            );
            let idx = top.saturating_add(current);
            match self.buffer.get_line(idx) {
                Some(line) => {
                    proof {
                        assert(idx as int == top as int + current as int);
                    }
                    let end = left.saturating_add(width);
                    let s = line.get(left..end);
                    proof {
                        if row_exact {
                            assert(end as int == left as int + width as int);
                            assert(s@ == row_spec);
                        }
                    }
                    rows.push(s);
                },
                None => {
                    proof {
                        assert(top as int + current as int >= self.buffer@.len());
                        assert(row_spec == seq!['~']);
                    }
                    let tilde = String::from_str("~");
                    proof {
                        reveal_strlit("~");
                        assert(tilde@ =~= seq!['~']);
                    }
                    rows.push(tilde);
                },
            }
            current += 1;
        }
        self.needs_redraw = false;
        rows
    }

    /// The greeting for an empty buffer: its text, clipped to the window's
    /// width, and the position that centers it a third of the way down.
    pub fn render_welcome_message(&self) -> (r: (Position, String))
        ensures
            r.0.row as int == self.size.height as int / 3,
            r.0.col as int == sat_sub(self.size.width as int, r.1@.len() as int) / 2,
            r.1@ == spec_welcome().take(spec_min(spec_welcome().len() as int, self.size.width as int)),
    {
        let message = welcome_text();
        let full = message.unicode_len();
        let keep = if full <= self.size.width {
            full
        } else {
            self.size.width
        };
        let truncated = message.substring_char(0, keep);
        proof {
            assert(truncated@ =~= spec_welcome().take(keep as int));
        }
        let col = self.size.width.saturating_sub(keep) / 2;
        let row = self.size.height / 3;
        (Position { row, col }, String::from_str(truncated))
    }

    /// The cursor's position inside the window: its grid position, shifted
    /// by the scroll offset.
    pub fn get_cursor_position(&self) -> (p: Position)
        ensures
            p.row as int == sat_sub(self.cursor_position.row as int, self.scroll_offset.row as int),
            p.col as int == sat_sub(
                spec_grid_col(self.buffer@, self.cursor_position),
                self.scroll_offset.col as int,
            ),
    {
        let absolute = self.buffer.grid_position_of(self.cursor_position);
        Position {
            row: absolute.row.saturating_sub(self.scroll_offset.row),
            col: absolute.col.saturating_sub(self.scroll_offset.col),
        }
    }
}

impl Default for View {
    /// A view over an empty buffer, sized like a conventional terminal
    /// window.
    fn default() -> (v: View)
        ensures
            v.buffer@.len() == 0,
            v.buffer.wf(),
            v.needs_redraw == true,
            v.size == (Size { width: 80, height: 24 }),
            v.cursor_position == (Position { row: 0, col: 0 }),
            v.scroll_offset == (Position { row: 0, col: 0 }),
    {
        View {
            buffer: Buffer::default(),
            needs_redraw: true,
            size: Size { width: 80, height: 24 },
            cursor_position: Position { row: 0, col: 0 },
            scroll_offset: Position { row: 0, col: 0 },
        }
    }
}

} // verus!
