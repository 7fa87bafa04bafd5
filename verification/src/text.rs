//! Character and string operations of std that vstd leaves unspecified,
//! and the text predicates built on them.

use vstd::prelude::*;

verus! {

/// An ASCII decimal digit.
pub open spec fn is_digit(c: char) -> bool {
    '0' <= c && c <= '9'
}

/// Whether `char::is_numeric` holds of `c`: the character belongs to one of
/// Unicode's number categories (Nd, Nl, No).
pub uninterp spec fn spec_is_numeric(c: char) -> bool;

/// What `str::to_lowercase` returns for a string: its Unicode lowercase mapping.
pub uninterp spec fn spec_lowercase(s: Seq<char>) -> Seq<char>;

/// Appends one character, through `String::push`.
/// Claimed: the string afterwards is the old one followed by `c`.
#[verifier::external_body]
pub(crate) fn push_char(s: &mut String, c: char)
    ensures
        final(s)@ == old(s)@.push(c),
{
    s.push(c);
}

/// Tests a character with `char::is_numeric`.
/// Claimed: the result is `spec_is_numeric(c)`; and, as the Unicode number
/// categories hold no ASCII character but the ten decimal digits, for an ASCII
/// character the result is whether it is one of '0' to '9'.
#[verifier::external_body]
pub(crate) fn char_is_numeric(c: char) -> (r: bool)
    ensures
        r == spec_is_numeric(c),
        (c as u32) < 128 ==> (r <==> is_digit(c)),
{
    c.is_numeric()
}

/// Lowercases a string with `str::to_lowercase`.
/// Claimed: the result is `spec_lowercase` of the argument's characters. How
/// Unicode maps each character is left unsaid.
#[verifier::external_body]
pub(crate) fn str_to_lowercase(s: &str) -> (r: String)
    ensures
        r@ == spec_lowercase(s@),
{
    s.to_lowercase()
}

/// Every character of `s` is numeric in the sense of `char::is_numeric`.
pub open spec fn all_numeric(s: Seq<char>) -> bool {
    forall|i: int| 0 <= i < s.len() ==> #[trigger] spec_is_numeric(s[i])
}

/// Whether every character of `s` is numeric (`char::is_numeric`); true of the
/// empty string.
pub fn is_all_numeric(s: &str) -> (r: bool)
    ensures
        r == all_numeric(s@),
{
    let n = s.unicode_len();
    let mut i: usize = 0;
    while i < n
        invariant
            n == s@.len(),
            i <= n,
            forall|j: int| 0 <= j < i ==> #[trigger] spec_is_numeric(s@[j]),
        decreases n - i,
    {
        let c = s.get_char(i);
        if !char_is_numeric(c) {
            return false;
        }
        i = i + 1;
    }
    true
}

/// The empty string is all numeric, and a string stays all numeric exactly
/// when each character added to it is numeric.
pub proof fn lemma_all_numeric_push(s: Seq<char>, c: char)
    ensures
        all_numeric(Seq::<char>::empty()),
        all_numeric(s.push(c)) == (all_numeric(s) && spec_is_numeric(c)),
{
    let t = s.push(c);
    assert(t[s.len() as int] == c);
    if all_numeric(t) {
        assert forall|i: int| 0 <= i < s.len() implies #[trigger] spec_is_numeric(s[i]) by {
            assert(t[i] == s[i]);
        }
    }
    if all_numeric(s) && spec_is_numeric(c) {
        assert forall|i: int| 0 <= i < t.len() implies #[trigger] spec_is_numeric(t[i]) by {
            if i < s.len() {
                assert(t[i] == s[i]);
            }
        }
    }
}

/// A string of any length whose characters are each numeric is all numeric.
pub proof fn lemma_all_numeric_of_numeric_chars(s: Seq<char>)
    requires
        forall|i: int| 0 <= i < s.len() ==> #[trigger] spec_is_numeric(s[i]),
    ensures
        all_numeric(s),
    decreases s.len(),
{
    if s.len() == 0 {
        lemma_all_numeric_push(s, ' ');
        assert(s =~= Seq::<char>::empty());
    } else {
        let p = s.drop_last();
        assert forall|i: int| 0 <= i < p.len() implies #[trigger] spec_is_numeric(p[i]) by {
            assert(p[i] == s[i]);
        }
        lemma_all_numeric_of_numeric_chars(p);
        assert(spec_is_numeric(s[s.len() - 1]));
        lemma_all_numeric_push(p, s.last());
        assert(p.push(s.last()) =~= s);
    }
}

} // verus!
