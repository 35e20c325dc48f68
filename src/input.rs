use vstd::prelude::*;

verus! {

/// A character with the Unicode `White_Space` property, as `char::is_whitespace`
/// tests it.
pub open spec fn is_white_space(c: char) -> bool {
    ('\u{9}' <= c && c <= '\u{d}') || c == ' ' || c == '\u{85}' || c == '\u{a0}' || c
        == '\u{1680}' || ('\u{2000}' <= c && c <= '\u{200a}') || c == '\u{2028}' || c
        == '\u{2029}' || c == '\u{202f}' || c == '\u{205f}' || c == '\u{3000}'
}

/// `s` without its leading white space.
pub open spec fn trim_start_of(s: Seq<char>) -> Seq<char>
    decreases s.len(),
{
    if s.len() > 0 && is_white_space(s[0]) {
        trim_start_of(s.drop_first())
    } else {
        s
    }
}

/// `s` without its trailing white space.
pub open spec fn trim_end_of(s: Seq<char>) -> Seq<char>
    decreases s.len(),
{
    if s.len() > 0 && is_white_space(s.last()) {
        trim_end_of(s.drop_last())
    } else {
        s
    }
}

/// `s` without leading and trailing white space.
pub open spec fn trim_of(s: Seq<char>) -> Seq<char> {
    trim_end_of(trim_start_of(s))
}

/// Relies on `str::trim`: the string with leading and trailing white space
/// (Unicode `White_Space`) removed.
#[verifier::external_body]
fn trimmed(s: &str) -> (r: &str)
    ensures
        r@ == trim_of(s@),
{
    s.trim()
}

/// The line that asks for the list of connected users.
pub open spec fn list_trigger() -> Seq<char> {
    seq!['/', 'l', 'i', 's', 't', 'a', 'r']
}

/// The line that ends the session.
pub open spec fn quit_trigger() -> Seq<char> {
    seq!['/', 'q', 'u', 'i', 't', 'a', 'r']
}

/// What the operator asked for with one line of input.
#[derive(Debug, Clone, PartialEq, Eq)]
pub enum LineAction {
    /// An empty line: nothing to do.
    Skip,
    ListUsers,
    Quit,
    /// Any other line is chat text, sent as it stands after trimming.
    Say(String),
}

/// `a` is the action for the already trimmed line `t`.
pub open spec fn action_for(t: Seq<char>, a: LineAction) -> bool {
    match a {
        LineAction::Skip => t.len() == 0,
        LineAction::ListUsers => t == list_trigger(),
        LineAction::Quit => t == quit_trigger(),
        LineAction::Say(text) => t.len() > 0 && t != list_trigger() && t != quit_trigger()
            && text@ == t,
    }
}

/// Character-wise equality of two strings.
pub fn same_text(a: &str, b: &str) -> (r: bool)
    ensures
        r == (a@ == b@),
{
    let n = a.unicode_len();
    if n != b.unicode_len() {
        return false;
    }
    let mut i: usize = 0;
    while i < n
        invariant
            n == a@.len(),
            n == b@.len(),
            0 <= i <= n,
            forall|j: int| 0 <= j < i ==> a@[j] == b@[j],
        decreases n - i,
    {
        if a.get_char(i) != b.get_char(i) {
            return false;
        }
        i = i + 1;
    }
    assert(a@ =~= b@);
    true
}

/// Classifies a line that has already been trimmed.
pub fn classify_trimmed(t: &str) -> (r: LineAction)
    ensures
        action_for(t@, r),
{
    proof {
        reveal_strlit("/listar");
        reveal_strlit("/quitar");
        assert("/listar"@ =~= list_trigger());
        assert("/quitar"@ =~= quit_trigger());
    }
    if t.unicode_len() == 0 {
        LineAction::Skip
    } else if same_text(t, "/listar") {
        LineAction::ListUsers
    } else if same_text(t, "/quitar") {
        LineAction::Quit
    } else {
        LineAction::Say(String::from_str(t))
    }
}

/// An answer to a prompt: the trimmed line, or `default` when nothing but
/// white space was typed.
pub fn line_or_default(line: &str, default: &str) -> (r: String)
    ensures
        r@ == (if trim_of(line@).len() == 0 {
            default@
        } else {
            trim_of(line@)
        }),
{
    let t = trimmed(line);
    if t.unicode_len() == 0 {
        String::from_str(default)
    } else {
        String::from_str(t)
    }
}

/// Classifies one line of operator input, after trimming the white space
/// around it.
pub fn classify_line(line: &str) -> (r: LineAction)
    ensures
        action_for(trim_of(line@), r),
{
    classify_trimmed(trimmed(line))
}

} // verus!
