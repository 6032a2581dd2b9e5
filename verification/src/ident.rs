//! Which case values may stand as the suffix of a generated test's name.

use vstd::prelude::*;
use vstd::string::StrSliceExecFns;

verus! {

/// Whether `char::is_alphanumeric` holds of `c`: whether `c` falls in one of
/// Unicode's alphabetic or numeric general categories. The result depends on
/// the character alone.
pub uninterp spec fn unicode_alphanumeric(c: char) -> bool;

/// Relies on `char::is_alphanumeric` of std: true exactly on the characters
/// of Unicode's alphabetic and numeric general categories, which include the
/// ASCII letters and digits.
pub assume_specification[ char::is_alphanumeric ](c: char) -> (r: bool)
    ensures
        r == unicode_alphanumeric(c),
        ('a' <= c <= 'z' || 'A' <= c <= 'Z' || '0' <= c <= '9') ==> r,
;

/// A character that may stand in the suffix of a generated test's name:
/// alphanumeric or an underscore.
pub open spec fn case_char_ok(c: char) -> bool {
    unicode_alphanumeric(c) || c == '_'
}

/// A case value that may stand as an identifier suffix: every character of
/// it is acceptable.
pub open spec fn case_name_ok(s: Seq<char>) -> bool {
    forall|i: int| 0 <= i < s.len() ==> case_char_ok(#[trigger] s[i])
}

/// Decides whether `s` may be appended, after an underscore, to a test's
/// name: true exactly when every character is alphanumeric or an underscore.
pub fn is_identifier_suffix(s: &str) -> (r: bool)
    ensures
        r == case_name_ok(s@),
{
    let n = s.unicode_len();
    let mut i: usize = 0;
    while i < n
        invariant
            i <= n,
            n == s@.len(),
            forall|j: int| 0 <= j < i ==> case_char_ok(#[trigger] s@[j]),
        decreases n - i,
    {
        let c = s.get_char(i);
        if !(c.is_alphanumeric() || c == '_') {
            return false;
        }
        i += 1;
    }
    true
}

} // verus!
