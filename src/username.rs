use vstd::prelude::*;

verus! {

/// A character allowed in a username: an ASCII letter or digit, `_` or `-`.
pub open spec fn is_name_char(c: char) -> bool {
    ('a' <= c && c <= 'z') || ('A' <= c && c <= 'Z') || ('0' <= c && c <= '9') || c == '_'
        || c == '-'
}

/// A username holds 3 to 20 characters, each of them a name character.
pub open spec fn valid_username(s: Seq<char>) -> bool {
    3 <= s.len() <= 20 && forall|i: int| 0 <= i < s.len() ==> #[trigger] is_name_char(s[i])
}

fn is_name_char_exec(c: char) -> (r: bool)
    ensures
        r == is_name_char(c),
{
    ('a' <= c && c <= 'z') || ('A' <= c && c <= 'Z') || ('0' <= c && c <= '9') || c == '_'
        || c == '-'
}

/// Decides whether `s` may be used as a display name.
pub fn is_valid_username(s: &str) -> (r: bool)
    ensures
        r == valid_username(s@),
{
    let n = s.unicode_len();
    if n < 3 || n > 20 {
        return false;
    }
    let mut i: usize = 0;
    while i < n
        invariant
            n == s@.len(),
            0 <= i <= n,
            forall|j: int| 0 <= j < i ==> #[trigger] is_name_char(s@[j]),
        decreases n - i,
    {
        if !is_name_char_exec(s.get_char(i)) {
            return false;
        }
        i = i + 1;
    }
    true
}

} // verus!
