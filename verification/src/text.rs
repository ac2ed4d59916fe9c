use vstd::prelude::*;

verus! {

/// Whether `c` carries the Unicode `White_Space` property.
pub open spec fn spec_is_whitespace(c: char) -> bool {
    let n = c as u32;
    ||| 0x0009 <= n <= 0x000D
    ||| n == 0x0020
    ||| n == 0x0085
    ||| n == 0x00A0
    ||| n == 0x1680
    ||| 0x2000 <= n <= 0x200A
    ||| n == 0x2028
    ||| n == 0x2029
    ||| n == 0x202F
    ||| n == 0x205F
    ||| n == 0x3000
}

/// A text is blank when it is empty or made of white space only.
pub open spec fn spec_is_blank(s: Seq<char>) -> bool {
    forall|i: int| 0 <= i < s.len() ==> spec_is_whitespace(#[trigger] s[i])
}

/// Decides whether `c` is a white-space character.
pub fn is_whitespace(c: char) -> (r: bool)
    ensures
        r == spec_is_whitespace(c),
{
    let n: u32 = c as u32;
    (0x0009 <= n && n <= 0x000D)
        || n == 0x0020
        || n == 0x0085
        || n == 0x00A0
        || n == 0x1680
        || (0x2000 <= n && n <= 0x200A)
        || n == 0x2028
        || n == 0x2029
        || n == 0x202F
        || n == 0x205F
        || n == 0x3000
}

/// Decides whether `s` is empty or holds white space only.
pub fn is_blank(s: &str) -> (r: bool)
    ensures
        r == spec_is_blank(s@),
{
    let chars = s.chars();
    for c in it: chars
        invariant
            it.seq() == s@,
            forall|i: int| 0 <= i < it.index() ==> spec_is_whitespace(#[trigger] s@[i]),
    {
        if !is_whitespace(c) {
            return false;
        }
    }
    true
}

/// The empty text is blank, and a text that holds a character other than
/// white space is not.
pub proof fn lemma_blank_texts(s: Seq<char>, i: int)
    ensures
        s.len() == 0 ==> spec_is_blank(s),
        0 <= i < s.len() && !spec_is_whitespace(s[i]) ==> !spec_is_blank(s),
{
}

} // verus!
