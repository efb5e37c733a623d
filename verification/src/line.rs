//! One line of text, held as a sequence of grapheme-cluster fragments that
//! carry their rendered width and, where needed, a substitution character.

use vstd::prelude::*;

use core::ops::Range;
use crate::charclass::{control_char, is_control_char, is_whitespace_char, whitespace_char};
use crate::unicode::{concat_all, grapheme_width, graphemes_of, push_char, split_graphemes,
    str_width};

verus! {

/// Substitute shown for a tab.
pub const TAB_SUBSTITUTE: char = ' ';

/// Substitute (an open box) shown for visible whitespace other than a space.
pub const BLANK_SUBSTITUTE: char = '\u{2423}';

/// Substitute (a white rectangle) shown for a lone control character.
pub const CONTROL_SUBSTITUTE: char = '\u{25AF}';

/// Substitute (a middle dot) shown for any other zero-width cluster.
pub const ZERO_WIDTH_SUBSTITUTE: char = '\u{00B7}';

/// Marker (a midline ellipsis) shown for a cluster only partly inside the
/// requested display range.
pub const ELLIPSIS: char = '\u{22EF}';

/// The number of display cells a fragment occupies: one or two.
#[derive(Copy, Clone, Debug, PartialEq, Eq, Structural)]
pub enum GraphemeWidth {
    Half,
    Full,
}

impl GraphemeWidth {
    /// Width in display columns.
    pub open spec fn spec_width(self) -> int {
        match self {
            GraphemeWidth::Half => 1,
            GraphemeWidth::Full => 2,
        }
    }

    /// Width in display columns.
    pub fn width(self) -> (w: usize)
        ensures
            w as int == self.spec_width(),
    {
        match self {
            GraphemeWidth::Half => 1,
            GraphemeWidth::Full => 2,
        }
    }
}

/// One grapheme cluster of a line, with its rendered width and, for
/// clusters that cannot be shown as they are, a substitution character.
pub struct TextFragment {
    pub grapheme: String,
    pub rendered_width: GraphemeWidth,
    pub replacement: Option<char>,
}

/// Whether every character of `g` is Unicode white space.
pub open spec fn all_whitespace(g: Seq<char>) -> bool {
    forall|i: int| 0 <= i < g.len() ==> is_whitespace_char(#[trigger] g[i])
}

/// The substitution character prescribed for a grapheme cluster, if any: a
/// tab displays as a space, other visible whitespace as an open box, a lone
/// zero-width control character as a rectangle, and any other zero-width
/// cluster as a middle dot.
pub open spec fn spec_replacement(g: Seq<char>) -> Option<char> {
    if g.len() == 1 && g[0] == ' ' {
        None
    } else if g.len() == 1 && g[0] == '\t' {
        Some(TAB_SUBSTITUTE)
    } else if str_width(g) > 0 && all_whitespace(g) {
        Some(BLANK_SUBSTITUTE)
    } else if str_width(g) == 0 {
        if g.len() == 1 && is_control_char(g[0]) {
            Some(CONTROL_SUBSTITUTE)
        } else {
            Some(ZERO_WIDTH_SUBSTITUTE)
        }
    } else {
        None
    }
}

/// The rendered width prescribed for a grapheme cluster: substituted
/// clusters take one cell, otherwise the cluster is `Full` exactly when its
/// intrinsic display width is two or more.
pub open spec fn spec_frag_width(g: Seq<char>) -> GraphemeWidth {
    if spec_replacement(g) is Some {
        GraphemeWidth::Half
    } else if str_width(g) >= 2 {
        GraphemeWidth::Full
    } else {
        GraphemeWidth::Half
    }
}

/// A fragment is well formed when its stored width and substitution are the
/// ones its grapheme cluster prescribes.
pub open spec fn frag_wf(f: TextFragment) -> bool {
    &&& f.rendered_width == spec_frag_width(f.grapheme@)
    &&& f.replacement == spec_replacement(f.grapheme@)
}

/// What a fragment contributes to rendered text: its substitution character
/// if it has one, else the cluster itself.
pub open spec fn frag_display(f: TextFragment) -> Seq<char> {
    match f.replacement {
        Some(c) => seq![c],
        None => f.grapheme@,
    }
}

/// The sum of the rendered widths of the first `n` fragments.
pub open spec fn prefix_width(frags: Seq<TextFragment>, n: int) -> int
    decreases n,
{
    if n <= 0 {
        0
    } else {
        prefix_width(frags, n - 1) + frags[n - 1].rendered_width.spec_width()
    }
}

/// The text rendered for display columns `[start, end)`, walking fragments
/// from index `i`, which begins at display position `pos`: a fragment ending
/// at or before `start` is skipped; one beginning at or past `end` stops the
/// walk; one only partly inside the range becomes a single ellipsis and
/// stops the walk; one wholly inside contributes its display text.
pub open spec fn render_from(
    frags: Seq<TextFragment>,
    i: int,
    pos: int,
    start: int,
    end: int,
) -> Seq<char>
    decreases frags.len() - i,
{
    if i < 0 || i >= frags.len() {
        Seq::empty()
    } else {
        let fragment_end = pos + frags[i].rendered_width.spec_width();
        if fragment_end <= start {
            render_from(frags, i + 1, fragment_end, start, end)
        } else if pos >= end {
            Seq::empty()
        } else if pos < start || fragment_end > end {
            seq![ELLIPSIS]
        } else {
            frag_display(frags[i]) + render_from(frags, i + 1, fragment_end, start, end)
        }
    }
}

/// The whole rendering of a fragment sequence for display columns
/// `[start, end)`.
pub open spec fn spec_render(frags: Seq<TextFragment>, start: int, end: int) -> Seq<char> {
    render_from(frags, 0, 0, start, end)
}

/// Whether the line's total rendered width stays below the machine limit,
/// as it does for any line that fits in memory.
pub open spec fn frags_fit(frags: Seq<TextFragment>) -> bool {
    prefix_width(frags, frags.len() as int) <= usize::MAX as int
}

/// The text of a line: its grapheme clusters, concatenated in order.
pub open spec fn line_text(frags: Seq<TextFragment>) -> Seq<char> {
    concat_all(frags.map_values(|f: TextFragment| f.grapheme@))
}

/// Each prefix width is at least the previous one plus one cell.
pub proof fn lemma_prefix_width_monotone(frags: Seq<TextFragment>, m: int, n: int)
    requires
        0 <= m <= n,
    ensures
        prefix_width(frags, m) <= prefix_width(frags, n),
        prefix_width(frags, m) >= 0,
    decreases n,
{
    if n > m {
        lemma_prefix_width_monotone(frags, m, n - 1);
    } else if n > 0 {
        lemma_prefix_width_monotone(frags, 0, n - 1);
    }
}

/// Fragment sequences that agree below `n` accumulate the same width up to
/// `n`.
pub proof fn lemma_prefix_width_agree(a: Seq<TextFragment>, b: Seq<TextFragment>, n: int)
    requires
        n <= a.len(),
        n <= b.len(),
        forall|i: int| 0 <= i < n ==> a[i] == b[i],
    ensures
        prefix_width(a, n) == prefix_width(b, n),
    decreases n,
{
    if n > 0 {
        lemma_prefix_width_agree(a, b, n - 1);
    }
}

proof fn lemma_render_full_from(frags: Seq<TextFragment>, i: int)
    requires
        0 <= i <= frags.len(),
        forall|j: int| 0 <= j < frags.len() ==> (#[trigger] frags[j]).replacement is None,
    ensures
        render_from(frags, i, prefix_width(frags, i), 0, prefix_width(frags, frags.len() as int))
            == line_text(frags.skip(i)),
    decreases frags.len() - i,
{
    let n = frags.len() as int;
    let to_text = |f: TextFragment| f.grapheme@;
    if i == n {
        assert(frags.skip(i) =~= Seq::<TextFragment>::empty());
        assert(frags.skip(i).map_values(to_text) =~= Seq::<Seq<char>>::empty());
    } else {
        lemma_prefix_width_monotone(frags, 0, i);
        lemma_prefix_width_monotone(frags, i + 1, n);
        lemma_render_full_from(frags, i + 1);
        assert(frags.skip(i).map_values(to_text).first() == frags[i].grapheme@);
        assert(frags.skip(i).map_values(to_text).drop_first() =~= frags.skip(i + 1).map_values(
            to_text,
        ));
        assert(line_text(frags.skip(i)) == frags[i].grapheme@ + line_text(frags.skip(i + 1)));
    }
}

/// Law: a line whose clusters all display as themselves — none carries a
/// substitution character — renders, over its full width, exactly its own
/// text.
pub proof fn lemma_full_render_reconstructs_text(frags: Seq<TextFragment>)
    requires
        forall|j: int| 0 <= j < frags.len() ==> (#[trigger] frags[j]).replacement is None,
    ensures
        spec_render(frags, 0, prefix_width(frags, frags.len() as int)) == line_text(frags),
{
    lemma_render_full_from(frags, 0);
    assert(frags.skip(0) =~= frags);
}

/// Law: a line built from a text none of whose clusters calls for a
/// substitution character — no tabs, no zero-width or combining clusters, no
/// visible whitespace beside plain spaces — renders, over its full width,
/// exactly that text.
pub proof fn lemma_line_renders_its_text(line: Line, t: Seq<char>)
    requires
        line_from_text(line, t),
        forall|j: int| 0 <= j < line@.len() ==> (#[trigger] line@[j]).replacement is None,
    ensures
        spec_render(line@, 0, prefix_width(line@, line@.len() as int)) == t,
{
    lemma_full_render_reconstructs_text(line@);
}

/// Law: inserting a cluster at an index within bounds and then deleting at
/// the same index restores the original fragment sequence, and with it the
/// line's content and length.
pub proof fn lemma_insert_then_delete(frags: Seq<TextFragment>, i: int, f: TextFragment)
    requires
        0 <= i <= frags.len(),
    ensures
        frags.insert(i, f).remove(i) == frags,
{
    assert(frags.insert(i, f).remove(i) =~= frags);
}

/// Law: for a cluster that displays as itself, the stored width is `Full`
/// exactly when the cluster's intrinsic display width is two or more, and a
/// `Full` cluster occupies exactly two display columns.
pub proof fn lemma_wide_cluster_two_columns(f: TextFragment)
    requires
        frag_wf(f),
        f.replacement is None,
    ensures
        f.rendered_width == GraphemeWidth::Full <==> str_width(f.grapheme@) >= 2,
        str_width(f.grapheme@) >= 2 ==> f.rendered_width.spec_width() == 2,
{
}

proof fn lemma_split_from(frags: Seq<TextFragment>, k: int, i: int, start: int, end: int)
    requires
        0 <= k <= i < frags.len(),
        forall|j: int| 0 <= j < i ==> #[trigger] prefix_width(frags, j + 1) <= start,
        prefix_width(frags, i) < end,
        prefix_width(frags, i + 1) > start,
        prefix_width(frags, i) < start || prefix_width(frags, i + 1) > end,
    ensures
        render_from(frags, k, prefix_width(frags, k), start, end) == seq![ELLIPSIS],
    decreases i - k,
{
    if k < i {
        lemma_prefix_width_monotone(frags, k + 1, i);
        lemma_split_from(frags, k + 1, i, start, end);
    } else {
        lemma_prefix_width_monotone(frags, 0, i);
    }
}

/// Law: when the first cluster reaching into the display range is only
/// partly inside it — as a two-column cluster straddling a range boundary
/// is — the whole rendering is a single ellipsis marker and nothing else.
pub proof fn lemma_split_cluster_renders_ellipsis(
    frags: Seq<TextFragment>,
    i: int,
    start: int,
    end: int,
)
    requires
        0 <= i < frags.len(),
        forall|j: int| 0 <= j < i ==> #[trigger] prefix_width(frags, j + 1) <= start,
        prefix_width(frags, i) < end,
        prefix_width(frags, i + 1) > start,
        prefix_width(frags, i) < start || prefix_width(frags, i + 1) > end,
    ensures
        spec_render(frags, start, end) == seq![ELLIPSIS],
{
    lemma_split_from(frags, 0, i, start, end);
}

/// Law: a zero-width cluster (other than a lone space, which never has
/// width zero) carries a substitution character, occupies exactly one
/// display column, and renders as exactly one character.
pub proof fn lemma_zero_width_cluster(f: TextFragment)
    requires
        frag_wf(f),
        str_width(f.grapheme@) == 0,
        f.grapheme@ != seq![' '],
    ensures
        f.replacement is Some,
        f.rendered_width.spec_width() == 1,
        frag_display(f).len() == 1,
{
    if f.grapheme@.len() == 1 && f.grapheme@[0] == ' ' {
        assert(f.grapheme@ =~= seq![' ']);
    }
}

/// A line of text, addressable by grapheme index for editing and by display
/// column for rendering.
pub struct Line {
    fragments: Vec<TextFragment>,
}

impl View for Line {
    type V = Seq<TextFragment>;

    closed spec fn view(&self) -> Seq<TextFragment> {
        self.fragments@
    }
}

/// The line holds exactly the classified grapheme clusters of `text`.
pub open spec fn line_from_text(line: Line, text: Seq<char>) -> bool {
    &&& line.wf()
    &&& line@.len() == graphemes_of(text).len()
    &&& forall|i: int| 0 <= i < line@.len() ==> (#[trigger] line@[i]).grapheme@ == graphemes_of(
        text,
    )[i]
    &&& forall|i: int| 0 <= i < line@.len() ==> (#[trigger] line@[i]).grapheme@.len() > 0
    &&& line_text(line@) == text
}

/// A line built from the empty text has no fragments.
pub proof fn lemma_line_from_empty_text(line: Line, text: Seq<char>)
    requires
        line_from_text(line, text),
        text.len() == 0,
    ensures
        line@.len() == 0,
{
    let parts = line@.map_values(|f: TextFragment| f.grapheme@);
    crate::unicode::lemma_concat_all_nonempty(parts);
}

/// Classify one grapheme cluster into a fragment.
fn make_fragment(g: String) -> (f: TextFragment)
    ensures
        f.grapheme@ == g@,
        frag_wf(f),
{
    let repl = Line::replacement_character(g.as_str());
    let w = grapheme_width(g.as_str());
    let rendered = if repl.is_some() {
        GraphemeWidth::Half
    } else if w >= 2 {
        GraphemeWidth::Full
    } else {
        GraphemeWidth::Half
    };
    TextFragment { grapheme: g, rendered_width: rendered, replacement: repl }
}

/// Whether every character of the string is Unicode white space.
fn all_whitespace_str(s: &str) -> (r: bool)
    ensures
        r == all_whitespace(s@),
{
    let n = s.unicode_len();
    let mut i: usize = 0;
    while i < n
        invariant
            n == s@.len(),
            i <= n,
            forall|j: int| 0 <= j < i ==> is_whitespace_char(#[trigger] s@[j]),
        decreases n - i,
    {
        if !whitespace_char(s.get_char(i)) {
            return false;
        }
        i += 1;
    }
    true
}

impl Line {
    /// Segment `line_str` into grapheme clusters and classify each one.
    pub fn from(line_str: &str) -> (line: Line)
        ensures
            line_from_text(line, line_str@),
    {
        let graphemes = split_graphemes(line_str);
        let n = graphemes.len();
        let mut fragments: Vec<TextFragment> = Vec::new();
        let mut i: usize = 0;
        while i < n
            invariant
                n == graphemes@.len(),
                i <= n,
                forall|j: int| 0 <= j < n ==> (#[trigger] graphemes@[j])@.len() > 0,
                fragments@.len() == i,
                forall|j: int| 0 <= j < i ==> frag_wf(#[trigger] fragments@[j]),
                forall|j: int|
                    0 <= j < i ==> (#[trigger] fragments@[j]).grapheme@ == graphemes@[j]@,
                forall|j: int| 0 <= j < i ==> (#[trigger] fragments@[j]).grapheme@.len() > 0,
            decreases n - i,
        {
            let g = graphemes[i].clone();
            let f = make_fragment(g);
            fragments.push(f);
            i += 1;
        }
        proof {
            assert(fragments@.map_values(|f: TextFragment| f.grapheme@) =~= graphemes@.map_values(
                |g: String| g@,
            ));
        }
        Line { fragments }
    }

    /// All fragments carry the width and substitution their cluster
    /// prescribes.
    pub open spec fn wf(self) -> bool {
        forall|i: int| 0 <= i < self@.len() ==> frag_wf(#[trigger] self@[i])
    }

    /// The substitution character for a grapheme cluster, if it needs one.
    pub fn replacement_character(for_str: &str) -> (r: Option<char>)
        ensures
            r == spec_replacement(for_str@),
    {
        let n = for_str.unicode_len();
        let w = grapheme_width(for_str);
        if n == 1 && for_str.get_char(0) == ' ' {
            None
        } else if n == 1 && for_str.get_char(0) == '\t' {
            Some(TAB_SUBSTITUTE)
        } else if w > 0 && all_whitespace_str(for_str) {
            Some(BLANK_SUBSTITUTE)
        } else if w == 0 {
            if n == 1 && control_char(for_str.get_char(0)) {
                Some(CONTROL_SUBSTITUTE)
            } else {
                Some(ZERO_WIDTH_SUBSTITUTE)
            }
        } else {
            None
        }
    }

    /// The number of grapheme clusters in the line.
    pub fn len(&self) -> (n: usize)
        ensures
            n == self@.len(),
    {
        self.fragments.len()
    }

    /// The display column where the cluster at index `grapheme` begins, or
    /// one past the line's content when `grapheme` is the line's length;
    /// indices past the end count the whole line. Saturates at the machine
    /// limit.
    pub open spec fn spec_position_of(frags: Seq<TextFragment>, grapheme: int) -> int {
        let n = if grapheme <= frags.len() {
            grapheme
        } else {
            frags.len() as int
        };
        let total = prefix_width(frags, n);
        if total <= usize::MAX as int {
            total
        } else {
            usize::MAX as int
        }
    }

    /// Render the part of the line inside display columns `range`. A
    /// fragment only partly inside the range is shown as one ellipsis
    /// character, never as part of a glyph. Exact whenever the line's total
    /// rendered width fits the machine limit.
    pub fn get(&self, range: Range<usize>) -> (s: String)
        ensures
            frags_fit(self@) ==> s@ == spec_render(
                self@,
                range.start as int,
                range.end as int,
            ),
    {
        let ghost fits = frags_fit(self@);
        let ghost start = range.start as int;
        let ghost end = range.end as int;
        let n = self.fragments.len();
        let mut acc = String::new();
        let mut pos: usize = 0;
        let mut i: usize = 0;
        let mut done = false;
        while i < n && !done
            invariant
                n == self@.len(),
                i <= n,
                fits == (prefix_width(self@, n as int) <= usize::MAX as int),
                start == range.start as int,
                end == range.end as int,
                fits ==> pos as int == prefix_width(self@, i as int),
                fits && !done ==> spec_render(self@, start, end) == acc@ + render_from(
                    self@,
                    i as int,
                    pos as int,
                    start,
                    end,
                ),
                fits && done ==> spec_render(self@, start, end) == acc@,
            decreases n - i, (if done { 0int } else { 1int }),
        {
            proof {
                lemma_prefix_width_monotone(self@, i as int, n as int);
                lemma_prefix_width_monotone(self@, i + 1, n as int);
            }
            let ghost acc0 = acc@;
            let ghost rest = render_from(self@, i + 1, pos + self@[i as int].rendered_width.spec_width(), start, end);
            let fragment = &self.fragments[i];
            let w = fragment.rendered_width.width();
            let fragment_end = pos.saturating_add(w);
            if fragment_end <= range.start {
                // wholly before the requested range: skip it
            } else if pos >= range.end {
                proof {
                    if fits {
                        assert(acc0 + Seq::<char>::empty() =~= acc0);
                    }
                }
                done = true;
            } else if pos < range.start || fragment_end > range.end {
                push_char(&mut acc, ELLIPSIS);
                proof {
                    if fits {
                        assert(acc0 + seq![ELLIPSIS] =~= acc@);
                    }
                }
                done = true;
            } else {
                match fragment.replacement {
                    Some(c) => {
                        push_char(&mut acc, c);
                        proof {
                            if fits {
                                assert(acc0 + frag_display(self@[i as int]) =~= acc@);
                                assert((acc0 + frag_display(self@[i as int])) + rest =~= acc0 + (
                                frag_display(self@[i as int]) + rest));
                            }
                        }
                    },
                    None => {
                        acc.append(fragment.grapheme.as_str());
                        proof {
                            if fits {
                                assert(acc0 + frag_display(self@[i as int]) =~= acc@);
                                assert((acc0 + frag_display(self@[i as int])) + rest =~= acc0 + (
                                frag_display(self@[i as int]) + rest));
                            }
                        }
                    },
                }
            }
            if !done {
                pos = fragment_end;
                i += 1;
            }
        }
        proof {
            if fits && !done {
                assert(acc@ + render_from(self@, i as int, pos as int, start, end) =~= acc@);
            }
        }
        acc
    }

    /// Insert `ch` as a new single-character cluster immediately before the
    /// cluster at `at`; when `at` is at or past the end, append it.
    pub fn insert(&mut self, at: usize, ch: char)
        ensures
            ({
                let idx = if at <= old(self)@.len() {
                    at as int
                } else {
                    old(self)@.len() as int
                };
                &&& final(self)@ == old(self)@.insert(idx, final(self)@[idx])
                &&& (final(self)@[idx]).grapheme@ == seq![ch]
                &&& frag_wf(final(self)@[idx])
            }),
            final(self)@.len() == old(self)@.len() + 1,
            old(self).wf() ==> final(self).wf(),
    {
        let mut g = String::new();
        push_char(&mut g, ch);
        proof {
            assert(g@ =~= seq![ch]);
        }
        let f = make_fragment(g);
        let idx = if at <= self.fragments.len() {
            at
        } else {
            self.fragments.len()
        };
        self.fragments.insert(idx, f);
    }

    /// Remove the cluster at `at` if it exists; report whether a removal
    /// occurred. There is nothing to remove exactly when `at` is at or past
    /// the end.
    pub fn delete(&mut self, at: usize) -> (deleted: bool)
        ensures
            deleted == (at < old(self)@.len()),
            at < old(self)@.len() ==> final(self)@ == old(self)@.remove(at as int),
            at >= old(self)@.len() ==> *final(self) == *old(self),
            old(self).wf() ==> final(self).wf(),
    {
        if at >= self.fragments.len() {
            return false;
        }
        self.fragments.remove(at);
        true
    }

    /// The display column offset of the grapheme at `grapheme`: the sum of
    /// the rendered widths of the clusters before it.
    pub fn position_of(&self, grapheme: usize) -> (col: usize)
        ensures
            col as int == Line::spec_position_of(self@, grapheme as int),
    {
        let count = if grapheme <= self.fragments.len() {
            grapheme
        } else {
            self.fragments.len()
        };
        let mut width: usize = 0;
        let mut i: usize = 0;
        while i < count
            invariant
                count <= self@.len(),
                i <= count,
                width as int == (if prefix_width(self@, i as int) <= usize::MAX as int {
                    prefix_width(self@, i as int)
                } else {
                    usize::MAX as int
                }),
            decreases count - i,
        {
            let w = self.fragments[i].rendered_width.width();
            proof {
                lemma_prefix_width_monotone(self@, 0, i as int);
            }
            width = width.saturating_add(w);
            i += 1;
        }
        width
    }
}

} // verus!
