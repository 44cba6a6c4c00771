//! Text helpers: blank checks, decimal numbers, comparison and case folding.

use vstd::prelude::*;
use vstd::string::*;

verus! {

/// The characters that carry the Unicode `White_Space` property.
pub open spec fn is_white(c: char) -> bool {
    let n = c as u32;
    ||| 0x9 <= n <= 0xd
    ||| n == 0x20
    ||| n == 0x85
    ||| n == 0xa0
    ||| n == 0x1680
    ||| 0x2000 <= n <= 0x200a
    ||| n == 0x2028
    ||| n == 0x2029
    ||| n == 0x202f
    ||| n == 0x205f
    ||| n == 0x3000
}

/// Text with nothing but white space in it, or with nothing in it at all.
pub open spec fn blank(s: Seq<char>) -> bool {
    forall|i: int| 0 <= i < s.len() ==> is_white(#[trigger] s[i])
}

fn white(c: char) -> (r: bool)
    ensures
        r == is_white(c),
{
    let n: u32 = c as u32;
    (0x9 <= n && n <= 0xd) || n == 0x20 || n == 0x85 || n == 0xa0 || n == 0x1680 || (0x2000 <= n
        && n <= 0x200a) || n == 0x2028 || n == 0x2029 || n == 0x202f || n == 0x205f || n == 0x3000
}

/// Whether nothing is left of `s` once the white space around it is gone.
pub fn is_blank(s: &str) -> (r: bool)
    ensures
        r == blank(s@),
{
    for c in it: s.chars()
        invariant
            it.seq() == s@,
            forall|i: int| 0 <= i < it.index() ==> is_white(#[trigger] s@[i]),
    {
        if !white(c) {
            assert(!is_white(s@[it.index() as int]));
            return false;
        }
    }
    true
}

/// The decimal digit `d`.
pub open spec fn digit_char(d: nat) -> char {
    (48 + d) as char
}

/// A number in decimal, without leading zeros.
pub open spec fn decimal_text(n: nat) -> Seq<char>
    decreases n,
{
    if n < 10 {
        seq![digit_char(n)]
    } else {
        decimal_text(n / 10).push(digit_char(n % 10))
    }
}

/// A signed number in decimal.
pub open spec fn signed_text(n: int) -> Seq<char> {
    if n < 0 {
        "-"@ + decimal_text((-n) as nat)
    } else {
        decimal_text(n as nat)
    }
}

fn digit(d: u64) -> (r: &'static str)
    requires
        d < 10,
    ensures
        r@ == seq![digit_char(d as nat)],
{
    proof {
        reveal_strlit("0");
        reveal_strlit("1");
        reveal_strlit("2");
        reveal_strlit("3");
        reveal_strlit("4");
        reveal_strlit("5");
        reveal_strlit("6");
        reveal_strlit("7");
        reveal_strlit("8");
        reveal_strlit("9");
    }
    let r = if d == 0 {
        "0"
    } else if d == 1 {
        "1"
    } else if d == 2 {
        "2"
    } else if d == 3 {
        "3"
    } else if d == 4 {
        "4"
    } else if d == 5 {
        "5"
    } else if d == 6 {
        "6"
    } else if d == 7 {
        "7"
    } else if d == 8 {
        "8"
    } else {
        "9"
    };
    assert(r@ =~= seq![digit_char(d as nat)]);
    r
}

/// Writes `n` in decimal.
pub fn decimal(n: u64) -> (r: String)
    ensures
        r@ == decimal_text(n as nat),
    decreases n,
{
    if n < 10 {
        String::from_str(digit(n))
    } else {
        let mut s = decimal(n / 10);
        s.append(digit(n % 10));
        assert(s@ =~= decimal_text(n as nat));
        s
    }
}

/// Writes `n` in decimal, with its sign.
pub fn signed_decimal(n: i64) -> (r: String)
    ensures
        r@ == signed_text(n as int),
{
    if n >= 0 {
        decimal(n as u64)
    } else {
        let mut s = String::from_str("-");
        let magnitude: u64 = (-(n + 1)) as u64 + 1;
        s.append(decimal(magnitude).as_str());
        s
    }
}

/// `a` with `b` behind it.
pub fn joined(a: &str, b: &str) -> (r: String)
    ensures
        r@ == a@ + b@,
{
    let mut s = String::from_str(a);
    s.append(b);
    s
}

/// `a` with `b` and `c` behind it.
pub fn joined3(a: &str, b: &str, c: &str) -> (r: String)
    ensures
        r@ == a@ + b@ + c@,
{
    let mut s = joined(a, b);
    s.append(c);
    s
}

/// `==` of std on two string slices: whether they hold the same characters.
#[verifier::external_body]
pub(crate) fn same_text(a: &str, b: &str) -> (r: bool)
    ensures
        r == (a@ == b@),
{
    a == b
}

/// What `str::to_lowercase` of std makes of a text.
pub uninterp spec fn lowercase_text(s: Seq<char>) -> Seq<char>;

/// An ASCII character with the letters `A` to `Z` turned into `a` to `z`.
pub open spec fn ascii_lower(c: char) -> char {
    if 65 <= c as u32 <= 90 {
        (c as u32 + 32) as char
    } else {
        c
    }
}

/// `str::to_lowercase` of std. Unicode's lower-case mapping is left to the name; on
/// ASCII text it only turns `A` to `Z` into `a` to `z`.
#[verifier::external_body]
pub(crate) fn to_lowercase(s: &str) -> (r: String)
    ensures
        r@ == lowercase_text(s@),
        (forall|i: int| 0 <= i < s@.len() ==> (#[trigger] s@[i] as u32) < 128) ==> r@
            == s@.map_values(|c: char| ascii_lower(c)),
{
    s.to_lowercase()
}

/// `str::starts_with` of std: the text begins with the characters of the other.
#[verifier::external_body]
pub(crate) fn starts_with(s: &str, prefix: &str) -> (r: bool)
    ensures
        r == prefix@.is_prefix_of(s@),
{
    s.starts_with(prefix)
}

/// The characters that Unicode counts as white space.
pub open spec fn white_points() -> Seq<u32> {
    seq![
        0x9u32, 0xa, 0xb, 0xc, 0xd, 0x20, 0x85, 0xa0, 0x1680, 0x2000, 0x2001, 0x2002, 0x2003, 0x2004,
        0x2005, 0x2006, 0x2007, 0x2008, 0x2009, 0x200a, 0x2028, 0x2029, 0x202f, 0x205f, 0x3000,
    ]
}

/// White space is what Unicode counts as such, and text is blank exactly if every character of it
/// is white space.
pub proof fn white_space_is_unicode(c: char, s: Seq<char>)
    ensures
        is_white(c) <==> white_points().contains(c as u32),
        blank(s) <==> !exists|i: int|
            0 <= i < s.len() && !white_points().contains(#[trigger] s[i] as u32),
{
    assert forall|d: char| is_white(d) == white_points().contains(#[trigger] (d as u32)) by {
        let points = white_points();
        if is_white(d) {
            let n = d as u32;
            let i: int = if n <= 0xd {
                n - 0x9
            } else if n == 0x20 {
                5
            } else if n == 0x85 {
                6
            } else if n == 0xa0 {
                7
            } else if n == 0x1680 {
                8
            } else if n <= 0x200a {
                9 + (n - 0x2000)
            } else if n == 0x2028 {
                20
            } else if n == 0x2029 {
                21
            } else if n == 0x202f {
                22
            } else if n == 0x205f {
                23
            } else {
                24
            };
            assert(points[i] == n);
        }
    }
    assert(is_white(c) == white_points().contains(c as u32));
    if !blank(s) {
        let i = choose|i: int| 0 <= i < s.len() && !is_white(#[trigger] s[i]);
        assert(!white_points().contains(s[i] as u32));
    }
    if exists|i: int| 0 <= i < s.len() && !white_points().contains(#[trigger] s[i] as u32) {
        let i = choose|i: int| 0 <= i < s.len() && !white_points().contains(#[trigger] s[i] as u32);
        assert(!is_white(s[i]));
    }
}

/// The number that decimal digits spell.
pub open spec fn spelled(s: Seq<char>) -> int
    decreases s.len(),
{
    if s.len() == 0 {
        0
    } else {
        10 * spelled(s.drop_last()) + (s.last() as u32 - 48)
    }
}

/// The decimal digits of a number spell it, and the first is no zero but in zero itself.
pub proof fn decimals_spell_their_number(n: nat)
    ensures
        spelled(decimal_text(n)) == n,
        decimal_text(n).len() > 0,
        n > 0 ==> decimal_text(n)[0] != '0',
    decreases n,
{
    assert forall|d: nat| d < 10 implies #[trigger] digit_char(d) as u32 == 48 + d by {}
    if n < 10 {
        assert(spelled(Seq::<char>::empty()) == 0);
        assert(decimal_text(n).drop_last() =~= Seq::<char>::empty());
    } else {
        decimals_spell_their_number(n / 10);
        assert(decimal_text(n).drop_last() =~= decimal_text(n / 10));
        assert(decimal_text(n).last() == digit_char(n % 10));
    }
}

/// A negative number is written as a minus sign and the digits of its size, and no other number has
/// the sign.
pub proof fn signs_are_written(n: int)
    ensures
        n < 0 ==> signed_text(n)[0] == '-' && spelled(signed_text(n).skip(1)) == -n,
        n >= 0 ==> signed_text(n)[0] != '-' && spelled(signed_text(n)) == n,
{
    reveal_strlit("-");
    if n < 0 {
        decimals_spell_their_number((-n) as nat);
        assert(signed_text(n).skip(1) =~= decimal_text((-n) as nat));
    } else {
        decimals_spell_their_number(n as nat);
        first_digits_are_digits(n as nat);
    }
}

proof fn first_digits_are_digits(n: nat)
    ensures
        decimal_text(n).len() > 0,
        48 <= decimal_text(n)[0] as u32 <= 57,
    decreases n,
{
    assert forall|d: nat| d < 10 implies #[trigger] digit_char(d) as u32 == 48 + d by {}
    if n >= 10 {
        first_digits_are_digits(n / 10);
    }
}

} // verus!
