//! The trusted boundary to the Unicode crates: grapheme segmentation and
//! display width, plus a single-character append from std.

use vstd::prelude::*;

use unicode_segmentation::UnicodeSegmentation;
use unicode_width::UnicodeWidthStr;

verus! {

/// The extended grapheme clusters of a string, in order, as the
/// `unicode-segmentation` crate computes them (UAX #29).
pub uninterp spec fn graphemes_of(s: Seq<char>) -> Seq<Seq<char>>;

/// The display width of a string in terminal columns, as the
/// `unicode-width` crate computes it (UAX #11).
pub uninterp spec fn str_width(s: Seq<char>) -> nat;

/// Concatenation of a sequence of character sequences.
pub open spec fn concat_all(parts: Seq<Seq<char>>) -> Seq<char>
    decreases parts.len(),
{
    if parts.len() == 0 {
        Seq::empty()
    } else {
        parts.first() + concat_all(parts.drop_first())
    }
}

/// A concatenation of non-empty parts is at least as long as the number of
/// parts.
pub proof fn lemma_concat_all_nonempty(parts: Seq<Seq<char>>)
    requires
        forall|i: int| 0 <= i < parts.len() ==> (#[trigger] parts[i]).len() > 0,
    ensures
        concat_all(parts).len() >= parts.len(),
    decreases parts.len(),
{
    if parts.len() > 0 {
        assert(parts.drop_first().len() == parts.len() - 1);
        assert(forall|i: int|
            0 <= i < parts.drop_first().len() ==> (#[trigger] parts.drop_first()[i]).len() > 0) by {
            assert(forall|i: int|
                0 <= i < parts.drop_first().len() ==> parts.drop_first()[i] == parts[i + 1]);
        }
        lemma_concat_all_nonempty(parts.drop_first());
    }
}

/// Relies on unicode_segmentation's `graphemes(true)`: it yields the
/// extended grapheme clusters of the string — non-empty substrings whose
/// concatenation is the original string.
#[verifier::external_body]
pub(crate) fn split_graphemes(s: &str) -> (r: Vec<String>)
    ensures
        r@.map_values(|g: String| g@) == graphemes_of(s@),
        concat_all(r@.map_values(|g: String| g@)) == s@,
        forall|i: int| 0 <= i < r@.len() ==> (#[trigger] r@[i])@.len() > 0,
{
    s.graphemes(true).map(|g| g.to_string()).collect()
}

/// Relies on unicode_width's `UnicodeWidthStr::width`: the displayed width
/// of a string in columns, a function of its characters alone.
#[verifier::external_body]
pub(crate) fn grapheme_width(s: &str) -> (w: usize)
    ensures
        w as nat == str_width(s@),
{
    s.width()
}

/// Relies on std's `String::push`: appends one character to the string.
#[verifier::external_body]
pub(crate) fn push_char(s: &mut String, c: char)
    ensures
        final(s)@ == old(s)@.push(c),
{
    s.push(c);
}

} // verus!
