//! An ordered document of lines, addressed by logical (row, grapheme-column)
//! positions and translated to rendered grid coordinates.

use vstd::prelude::*;

use crate::line::{frag_wf, line_from_text, Line};
use crate::position::Position;

verus! {

/// The document: one `Line` per text line, in file order.
pub struct Buffer {
    lines: Vec<Line>,
}

impl View for Buffer {
    type V = Seq<Line>;

    closed spec fn view(&self) -> Seq<Line> {
        self.lines@
    }
}

/// The grapheme length of the line at `row`, or zero when `row` is out of
/// range.
pub open spec fn spec_line_len(lines: Seq<Line>, row: int) -> int {
    if 0 <= row < lines.len() {
        lines[row]@.len() as int
    } else {
        0
    }
}

/// The display column of the logical position `p`: the width of the
/// clusters before it on its line, or zero when the row is out of range.
pub open spec fn spec_grid_col(lines: Seq<Line>, p: Position) -> int {
    if (p.row as int) < lines.len() {
        Line::spec_position_of(lines[p.row as int]@, p.col as int)
    } else {
        0
    }
}

/// A grid column is never negative: widths only accumulate.
pub proof fn lemma_grid_col_nonneg(lines: Seq<Line>, p: Position)
    ensures
        spec_grid_col(lines, p) >= 0,
{
    if (p.row as int) < lines.len() {
        let frags = lines[p.row as int]@;
        let n = if p.col as int <= frags.len() {
            p.col as int
        } else {
            frags.len() as int
        };
        crate::line::lemma_prefix_width_monotone(frags, 0, n);
    }
}

/// How an insertion at `at` relates the document before it to the document
/// after it: within an existing row, one new cluster holding `ch` before
/// column `at.col` (clamped to the row's end); at the row one past the end,
/// one new one-cluster line; farther out, no change at all.
pub open spec fn spec_buffer_insert(
    old_lines: Seq<Line>,
    new_lines: Seq<Line>,
    at: Position,
    ch: char,
) -> bool {
    &&& at.row < old_lines.len() ==> {
        let row = at.row as int;
        let idx = if at.col <= old_lines[row]@.len() {
            at.col as int
        } else {
            old_lines[row]@.len() as int
        };
        &&& new_lines == old_lines.update(row, new_lines[row])
        &&& new_lines[row]@ == old_lines[row]@.insert(idx, new_lines[row]@[idx])
        &&& (new_lines[row]@[idx]).grapheme@ == seq![ch]
        &&& frag_wf(new_lines[row]@[idx])
    }
    &&& at.row == old_lines.len() ==> {
        let row = at.row as int;
        &&& new_lines == old_lines.push(new_lines[row])
        &&& new_lines[row]@.len() == 1
        &&& (new_lines[row]@[0]).grapheme@ == seq![ch]
        &&& frag_wf(new_lines[row]@[0])
    }
    &&& at.row > old_lines.len() ==> new_lines == old_lines
}

/// Whether `at` addresses a cluster that a deletion would remove.
pub open spec fn spec_can_delete(lines: Seq<Line>, at: Position) -> bool {
    (at.row as int) < lines.len() && (at.col as int) < lines[at.row as int]@.len()
}

/// How a deletion at `at` relates the document before it to the document
/// after it: the addressed cluster is removed and nothing else changes;
/// when `at` addresses no cluster, no change at all. Lines are never joined
/// and never removed.
pub open spec fn spec_buffer_delete(
    old_lines: Seq<Line>,
    new_lines: Seq<Line>,
    at: Position,
) -> bool {
    if spec_can_delete(old_lines, at) {
        &&& new_lines == old_lines.update(at.row as int, new_lines[at.row as int])
        &&& new_lines[at.row as int]@ == old_lines[at.row as int]@.remove(at.col as int)
    } else {
        new_lines == old_lines
    }
}

impl Buffer {
    /// Every line's fragments are well classified.
    pub open spec fn wf(self) -> bool {
        forall|i: int| 0 <= i < self@.len() ==> (#[trigger] self@[i]).wf()
    }

    /// The line at `index`, if there is one.
    pub fn get_line(&self, index: usize) -> (r: Option<&Line>)
        ensures
            match r {
                Some(line) => index < self@.len() && *line == self@[index as int],
                None => index >= self@.len(),
            },
    {
        if index < self.lines.len() {
            Some(&self.lines[index])
        } else {
            None
        }
    }

    /// Whether the document has no lines at all.
    pub fn is_empty(&self) -> (r: bool)
        ensures
            r == (self@.len() == 0),
    {
        self.lines.is_empty()
    }

    /// Append one line holding the classified clusters of `line`.
    pub fn push(&mut self, line: &str)
        ensures
            final(self)@.len() == old(self)@.len() + 1,
            final(self)@ == old(self)@.push(final(self)@[old(self)@.len() as int]),
            line_from_text(final(self)@[old(self)@.len() as int], line@),
            old(self).wf() ==> final(self).wf(),
    {
        self.lines.push(Line::from(line));
    }

    /// Insert `ch` at the logical position `at`: on an existing row the
    /// character joins that line before the cluster at `at.col`; at the row
    /// one past the end it opens a new one-character line; farther rows are
    /// left alone — an insertion never creates a gap.
    pub fn insert(&mut self, at: Position, ch: char)
        ensures
            spec_buffer_insert(old(self)@, final(self)@, at, ch),
            old(self).wf() ==> final(self).wf(),
    {
        if at.row == self.lines.len() {
            let mut line = Line::from("");
            proof {
                reveal_strlit("");
                crate::line::lemma_line_from_empty_text(line, ""@);
            }
            line.insert(0, ch);
            self.lines.push(line);
        } else if at.row < self.lines.len() {
            self.lines[at.row].insert(at.col, ch);
        }
    }

    /// Remove the cluster at the logical position `at`, reporting whether a
    /// removal occurred; nothing is removed exactly when `at` addresses no
    /// cluster. Lines are never joined and never removed.
    pub fn delete(&mut self, at: Position) -> (deleted: bool)
        ensures
            deleted == spec_can_delete(old(self)@, at),
            spec_buffer_delete(old(self)@, final(self)@, at),
            old(self).wf() ==> final(self).wf(),
    {
        if at.row < self.lines.len() {
            let deleted = self.lines[at.row].delete(at.col);
            proof {
                if !deleted {
                    assert(self.lines@ =~= old(self).lines@);
                }
            }
            deleted
        } else {
            false
        }
    }

    /// The number of lines in the document.
    pub fn num_lines(&self) -> (n: usize)
        ensures
            n == self@.len(),
    {
        self.lines.len()
    }

    /// The grapheme length of the line at `at`, or zero when `at` is out of
    /// range, so callers may probe without a bounds check.
    pub fn line_len(&self, at: usize) -> (n: usize)
        ensures
            n as int == spec_line_len(self@, at as int),
    {
        if at < self.lines.len() {
            self.lines[at].len()
        } else {
            0
        }
    }

    /// Convert a grapheme-based location (line and column) into a position
    /// on the rendered grid, where each grapheme may span multiple cells;
    /// the column is zero when the row does not exist.
    pub fn grid_position_of(&self, location: Position) -> (grid: Position)
        ensures
            grid.row == location.row,
            grid.col as int == spec_grid_col(self@, location),
    {
        let col = if location.row < self.lines.len() {
            self.lines[location.row].position_of(location.col)
        } else {
            0
        };
        Position { row: location.row, col }
    }
}

impl Default for Buffer {
    /// An empty document.
    fn default() -> (b: Buffer)
        ensures
            b@.len() == 0,
            b.wf(),
    {
        Buffer { lines: Vec::new() }
    }
}

} // verus!
