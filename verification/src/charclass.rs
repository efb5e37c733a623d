//! Character classes consulted when classifying grapheme clusters: the
//! Unicode `White_Space` characters and the control characters.

use vstd::prelude::*;

verus! {

/// The Unicode `White_Space` characters.
pub open spec fn is_whitespace_char(c: char) -> bool {
    ||| c == ' '
    ||| (0x09 <= c as u32 && c as u32 <= 0x0D)
    ||| c as u32 == 0x85
    ||| c as u32 == 0xA0
    ||| c as u32 == 0x1680
    ||| (0x2000 <= c as u32 && c as u32 <= 0x200A)
    ||| c as u32 == 0x2028
    ||| c as u32 == 0x2029
    ||| c as u32 == 0x202F
    ||| c as u32 == 0x205F
    ||| c as u32 == 0x3000
}

/// The control characters: the C0 range with delete, and the C1 range.
pub open spec fn is_control_char(c: char) -> bool {
    (c as u32) < 0x20 || (0x7F <= c as u32 && c as u32 <= 0x9F)
}

/// Decides membership in the Unicode `White_Space` class.
pub fn whitespace_char(c: char) -> (r: bool)
    ensures
        r == is_whitespace_char(c),
{
    let u = c as u32;
    u == 0x20 || (0x09 <= u && u <= 0x0D) || u == 0x85 || u == 0xA0 || u == 0x1680
        || (0x2000 <= u && u <= 0x200A) || u == 0x2028 || u == 0x2029 || u == 0x202F
        || u == 0x205F || u == 0x3000
}

/// Decides whether `c` is a control character.
pub fn control_char(c: char) -> (r: bool)
    ensures
        r == is_control_char(c),
{
    let u = c as u32;
    u < 0x20 || (0x7F <= u && u <= 0x9F)
}

} // verus!
