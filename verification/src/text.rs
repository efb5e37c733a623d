//! Splitting a text into lines: at each newline, with a carriage return
//! directly before the newline stripped, and with a final line terminator
//! ending the last line rather than opening a new one.

use vstd::prelude::*;

verus! {

/// The first index at or after `from` holding a newline, or the text's
/// length when there is none.
pub open spec fn first_newline_from(s: Seq<char>, from: int) -> int
    decreases s.len() - from,
{
    if from < 0 || from >= s.len() {
        s.len() as int
    } else if s[from] == '\n' {
        from
    } else {
        first_newline_from(s, from + 1)
    }
}

/// A line with one carriage return stripped from its end, if it has one.
pub open spec fn strip_cr(l: Seq<char>) -> Seq<char> {
    if l.len() > 0 && l.last() == '\r' {
        l.drop_last()
    } else {
        l
    }
}

/// The lines of `s` from index `from` on.
pub open spec fn lines_from(s: Seq<char>, from: int) -> Seq<Seq<char>>
    decreases s.len() - from,
    via lines_from_decreases
{
    if from < 0 || from >= s.len() {
        Seq::empty()
    } else {
        let i = first_newline_from(s, from);
        if i >= s.len() {
            seq![s.subrange(from, s.len() as int)]
        } else {
            seq![strip_cr(s.subrange(from, i))] + lines_from(s, i + 1)
        }
    }
}

#[via_fn]
proof fn lines_from_decreases(s: Seq<char>, from: int) {
    if 0 <= from < s.len() {
        lemma_first_newline_from_bounds(s, from);
    }
}

/// The lines of a text.
pub open spec fn lines_of(s: Seq<char>) -> Seq<Seq<char>> {
    lines_from(s, 0)
}

/// The first newline at or after `from` lies between `from` and the text's
/// end, no newline comes before it, and it is a newline when within bounds.
pub proof fn lemma_first_newline_from_bounds(s: Seq<char>, from: int)
    requires
        0 <= from <= s.len(),
    ensures
        from <= first_newline_from(s, from) <= s.len(),
        forall|j: int| from <= j < first_newline_from(s, from) ==> #[trigger] s[j] != '\n',
        first_newline_from(s, from) < s.len() ==> s[first_newline_from(s, from)] == '\n',
    decreases s.len() - from,
{
    if from < s.len() && s[from] != '\n' {
        lemma_first_newline_from_bounds(s, from + 1);
    }
}

/// An index `i` with a newline (or the text's end) and no newline at or
/// after `from` before it is the first newline after `from`.
proof fn lemma_first_newline_from_value(s: Seq<char>, from: int, i: int)
    requires
        0 <= from <= i <= s.len(),
        forall|j: int| from <= j < i ==> #[trigger] s[j] != '\n',
        i == s.len() || s[i] == '\n',
    ensures
        first_newline_from(s, from) == i,
    decreases i - from,
{
    if from < i {
        lemma_first_newline_from_value(s, from + 1, i);
    }
}

/// The character sequences of a vector of strings.
pub open spec fn texts_of(lines: Seq<String>) -> Seq<Seq<char>> {
    lines.map_values(|l: String| l@)
}

/// Split a text into its lines.
pub fn split_lines(s: &str) -> (lines: Vec<String>)
    ensures
        texts_of(lines@) == lines_of(s@),
{
    let n = s.unicode_len();
    let mut lines: Vec<String> = Vec::new();
    let mut start: usize = 0;
    let mut i: usize = 0;
    while i < n
        invariant
            n == s@.len(),
            start <= i <= n,
            lines_of(s@) == texts_of(lines@) + lines_from(s@, start as int),
            forall|j: int| start <= j < i ==> #[trigger] s@[j] != '\n',
        decreases n - i,
    {
        let ghost lines0 = texts_of(lines@);
        if s.get_char(i) == '\n' {
            proof {
                lemma_first_newline_from_value(s@, start as int, i as int);
            }
            let e = if i > start && s.get_char(i - 1) == '\r' {
                i - 1
            } else {
                i
            };
            let piece = s.substring_char(start, e);
            proof {
                assert(piece@ =~= strip_cr(s@.subrange(start as int, i as int)));
            }
            lines.push(String::from_str(piece));
            proof {
                assert(texts_of(lines@) =~= lines0 + seq![piece@]);
                assert(lines0 + (seq![piece@] + lines_from(s@, i + 1)) =~= (lines0 + seq![piece@])
                    + lines_from(s@, i + 1));
            }
            start = i + 1;
        }
        i += 1;
    }
    if start < n {
        proof {
            lemma_first_newline_from_value(s@, start as int, n as int);
        }
        let ghost lines0 = texts_of(lines@);
        let piece = s.substring_char(start, n);
        lines.push(String::from_str(piece));
        proof {
            assert(texts_of(lines@) =~= lines0 + seq![piece@]);
        }
    } else {
        proof {
            assert(texts_of(lines@) + lines_from(s@, start as int) =~= texts_of(lines@));
        }
    }
    lines
}

} // verus!
