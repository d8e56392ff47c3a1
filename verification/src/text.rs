//! Character-level text primitives: whitespace trimming, case-insensitive
//! comparison and the alphanumeric test used for dependency names.

use vstd::prelude::*;
use vstd::string::StrSliceExecFns;

verus! {

/// A character with the Unicode `White_Space` property: the set of characters
/// that trimming strips from both ends of a text.
pub open spec fn is_space_char(c: char) -> bool {
    let u = c as u32;
    (9 <= u && u <= 13) || u == 32 || u == 0x85 || u == 0xA0 || u == 0x1680 || (0x2000 <= u && u
        <= 0x200A) || u == 0x2028 || u == 0x2029 || u == 0x202F || u == 0x205F || u == 0x3000
}

/// Executable test for [`is_space_char`].
pub fn is_space(c: char) -> (r: bool)
    ensures
        r == is_space_char(c),
{
    let u = c as u32;
    (9 <= u && u <= 13) || u == 32 || u == 0x85 || u == 0xA0 || u == 0x1680 || (0x2000 <= u && u
        <= 0x200A) || u == 0x2028 || u == 0x2029 || u == 0x202F || u == 0x205F || u == 0x3000
}

/// How many whitespace characters the text starts with.
pub open spec fn leading_spaces(s: Seq<char>) -> int
    decreases s.len(),
{
    if s.len() == 0 {
        0
    } else if is_space_char(s[0]) {
        1 + leading_spaces(s.drop_first())
    } else {
        0
    }
}

/// How many whitespace characters the text ends with.
pub open spec fn trailing_spaces(s: Seq<char>) -> int
    decreases s.len(),
{
    if s.len() == 0 {
        0
    } else if is_space_char(s[s.len() - 1]) {
        1 + trailing_spaces(s.drop_last())
    } else {
        0
    }
}

/// The text with leading and trailing whitespace removed.
pub open spec fn trim_spec(s: Seq<char>) -> Seq<char> {
    if leading_spaces(s) == s.len() {
        Seq::empty()
    } else {
        s.subrange(leading_spaces(s), s.len() - trailing_spaces(s))
    }
}

/// The text is empty or all whitespace.
pub open spec fn is_blank_spec(s: Seq<char>) -> bool {
    trim_spec(s).len() == 0
}

pub proof fn lemma_leading_spaces(s: Seq<char>)
    ensures
        0 <= leading_spaces(s) <= s.len(),
        forall|j: int| 0 <= j < leading_spaces(s) ==> is_space_char(s[j]),
        leading_spaces(s) < s.len() ==> !is_space_char(s[leading_spaces(s)]),
    decreases s.len(),
{
    if s.len() == 0 {
    } else if is_space_char(s[0]) {
        lemma_leading_spaces(s.drop_first());
        assert forall|j: int| 0 <= j < leading_spaces(s) implies is_space_char(s[j]) by {
            if j > 0 {
                assert(s.drop_first()[j - 1] == s[j]);
            }
        }
        if leading_spaces(s) < s.len() {
            assert(s.drop_first()[leading_spaces(s) - 1] == s[leading_spaces(s)]);
        }
    } else {
    }
}

pub proof fn lemma_trailing_spaces(s: Seq<char>)
    ensures
        0 <= trailing_spaces(s) <= s.len(),
        forall|j: int| s.len() - trailing_spaces(s) <= j < s.len() ==> is_space_char(s[j]),
        trailing_spaces(s) < s.len() ==> !is_space_char(s[s.len() - trailing_spaces(s) - 1]),
    decreases s.len(),
{
    if s.len() == 0 {
    } else if is_space_char(s[s.len() - 1]) {
        lemma_trailing_spaces(s.drop_last());
        assert forall|j: int|
            s.len() - trailing_spaces(s) <= j < s.len() implies is_space_char(s[j]) by {
            if j < s.len() - 1 {
                assert(s.drop_last()[j] == s[j]);
            }
        }
        if trailing_spaces(s) < s.len() {
            assert(s.drop_last()[s.len() - trailing_spaces(s) - 1] == s[s.len() - trailing_spaces(
                s,
            ) - 1]);
        }
    } else {
    }
}

/// An index below which everything is whitespace and at which (if inside the
/// text) something else stands is exactly the count of leading spaces.
pub proof fn lemma_leading_unique(s: Seq<char>, a: int)
    requires
        0 <= a <= s.len(),
        forall|j: int| 0 <= j < a ==> is_space_char(s[j]),
        a < s.len() ==> !is_space_char(s[a]),
    ensures
        leading_spaces(s) == a,
{
    lemma_leading_spaces(s);
    let l = leading_spaces(s);
    if l < a {
        assert(is_space_char(s[l]));
    }
    if a < l {
        assert(is_space_char(s[a]));
    }
}

/// The count from the right is fixed the same way.
pub proof fn lemma_trailing_unique(s: Seq<char>, t: int)
    requires
        0 <= t <= s.len(),
        forall|j: int| s.len() - t <= j < s.len() ==> is_space_char(s[j]),
        t < s.len() ==> !is_space_char(s[s.len() - t - 1]),
    ensures
        trailing_spaces(s) == t,
{
    lemma_trailing_spaces(s);
    let r = trailing_spaces(s);
    if r < t {
        assert(is_space_char(s[s.len() - r - 1]));
    }
    if t < r {
        assert(is_space_char(s[s.len() - t - 1]));
    }
}

/// If some character is not whitespace, the trimmed ends leave a non-empty
/// middle part.
pub proof fn lemma_trim_bounds(s: Seq<char>)
    requires
        leading_spaces(s) < s.len(),
    ensures
        leading_spaces(s) < s.len() - trailing_spaces(s),
        0 <= trailing_spaces(s),
{
    lemma_leading_spaces(s);
    lemma_trailing_spaces(s);
    let l = leading_spaces(s);
    if l >= s.len() - trailing_spaces(s) {
        assert(is_space_char(s[l]));
    }
}

/// The text with surrounding whitespace removed, as [`trim_spec`] states.
pub fn trim(s: &str) -> (r: &str)
    ensures
        r@ == trim_spec(s@),
{
    let n = s.unicode_len();
    let mut a: usize = 0;
    while a < n && is_space(s.get_char(a))
        invariant
            0 <= a <= n,
            n == s@.len(),
            forall|j: int| 0 <= j < a ==> is_space_char(s@[j]),
        decreases n - a,
    {
        a = a + 1;
    }
    proof {
        lemma_leading_unique(s@, a as int);
    }
    if a == n {
        let r = s.substring_char(a, n);
        proof {
            assert(r@ =~= trim_spec(s@));
        }
        return r;
    }
    let mut b: usize = n;
    while b > a && is_space(s.get_char(b - 1))
        invariant
            a <= b <= n,
            n == s@.len(),
            a < n,
            !is_space_char(s@[a as int]),
            forall|j: int| b <= j < n ==> is_space_char(s@[j]),
        decreases b,
    {
        b = b - 1;
    }
    proof {
        if b == a {
            assert(is_space_char(s@[a as int]));
        }
        lemma_trailing_unique(s@, n - b);
        lemma_trim_bounds(s@);
    }
    let r = s.substring_char(a, b);
    proof {
        assert(r@ =~= trim_spec(s@));
    }
    r
}

/// Whether the text is empty or all whitespace.
pub fn is_blank(s: &str) -> (r: bool)
    ensures
        r == is_blank_spec(s@),
{
    let t = trim(s);
    t.is_empty()
}

/// Case folding of a single character: ASCII capital letters map onto their
/// small form, everything else stands for itself.
pub open spec fn fold_char(c: char) -> int {
    let u = c as u32;
    if 65 <= u && u <= 90 {
        u + 32
    } else {
        u as int
    }
}

/// Two texts are equal up to ASCII letter case.
pub open spec fn seq_eq_ci(a: Seq<char>, b: Seq<char>) -> bool {
    a.len() == b.len() && (forall|i: int| 0 <= i < a.len() ==> fold_char(a[i]) == fold_char(b[i]))
}

/// Executable case folding of one character, as a scalar.
pub fn fold_char_exec(c: char) -> (r: u32)
    ensures
        r as int == fold_char(c),
{
    let u = c as u32;
    if 65 <= u && u <= 90 {
        u + 32
    } else {
        u
    }
}

/// Case-insensitive comparison of two texts, per [`seq_eq_ci`].
pub fn str_eq_ci(a: &str, b: &str) -> (r: bool)
    ensures
        r == seq_eq_ci(a@, b@),
{
    let na = a.unicode_len();
    let nb = b.unicode_len();
    if na != nb {
        return false;
    }
    let mut i: usize = 0;
    while i < na
        invariant
            0 <= i <= na,
            na == a@.len(),
            na == b@.len(),
            forall|j: int| 0 <= j < i ==> fold_char(a@[j]) == fold_char(b@[j]),
        decreases na - i,
    {
        if fold_char_exec(a.get_char(i)) != fold_char_exec(b.get_char(i)) {
            return false;
        }
        i = i + 1;
    }
    true
}

/// Texts equal up to ASCII case compare equally, up to ASCII case, with every
/// third text.
pub proof fn lemma_eq_ci_trans(a: Seq<char>, b: Seq<char>, c: Seq<char>)
    requires
        seq_eq_ci(a, b),
    ensures
        seq_eq_ci(a, c) == seq_eq_ci(b, c),
{
    if seq_eq_ci(a, c) {
        assert forall|i: int| 0 <= i < b.len() implies fold_char(b[i]) == fold_char(c[i]) by {
            assert(fold_char(a[i]) == fold_char(b[i]));
            assert(fold_char(a[i]) == fold_char(c[i]));
        }
        assert(seq_eq_ci(b, c));
    }
    if seq_eq_ci(b, c) {
        assert forall|i: int| 0 <= i < a.len() implies fold_char(a[i]) == fold_char(c[i]) by {
            assert(fold_char(a[i]) == fold_char(b[i]));
            assert(fold_char(b[i]) == fold_char(c[i]));
        }
        assert(seq_eq_ci(a, c));
    }
}

/// What `char::is_alphanumeric` answers for the character: membership in the
/// Unicode alphabetic and numeric categories, a function of the character
/// alone.
pub uninterp spec fn char_is_alphanumeric(c: char) -> bool;

/// Relies on `char::is_alphanumeric` of std: whether the character belongs to
/// the Unicode alphabetic or numeric categories; the answer depends on the
/// character alone.
#[verifier::external_body]
pub(crate) fn alphanumeric_char(c: char) -> (r: bool)
    ensures
        r == char_is_alphanumeric(c),
{
    c.is_alphanumeric()
}

/// Every character of the text is alphanumeric.
pub open spec fn all_alphanumeric(s: Seq<char>) -> bool {
    forall|i: int| 0 <= i < s.len() ==> char_is_alphanumeric(s[i])
}

/// Executable test for [`all_alphanumeric`].
pub fn check_all_alphanumeric(s: &str) -> (r: bool)
    ensures
        r == all_alphanumeric(s@),
{
    let n = s.unicode_len();
    let mut i: usize = 0;
    while i < n
        invariant
            0 <= i <= n,
            n == s@.len(),
            forall|j: int| 0 <= j < i ==> char_is_alphanumeric(s@[j]),
        decreases n - i,
    {
        if !alphanumeric_char(s.get_char(i)) {
            return false;
        }
        i = i + 1;
    }
    true
}

} // verus!
