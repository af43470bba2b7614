//! The pieces every sentence on the desktop is built from: a count in decimal digits,
//! one character at a time, a string's Debug quoting, a character's upper case, and text
//! with its surrounding white space removed.

use vstd::prelude::*;

verus! {

/// The decimal digit `d` (0 to 9) as a character.
pub open spec fn digit_char(d: nat) -> char {
    if d == 0 { '0' }
    else if d == 1 { '1' }
    else if d == 2 { '2' }
    else if d == 3 { '3' }
    else if d == 4 { '4' }
    else if d == 5 { '5' }
    else if d == 6 { '6' }
    else if d == 7 { '7' }
    else if d == 8 { '8' }
    else { '9' }
}

/// A number in decimal digits, most significant first, with no leading zero.
pub open spec fn decimal(n: nat) -> Seq<char>
    decreases n,
{
    if n < 10 {
        seq![digit_char(n)]
    } else {
        decimal(n / 10).push(digit_char(n % 10))
    }
}

/// What Rust's `Debug` formatting writes for a string: the string in double quotes, with
/// its quotes, backslashes and unprintable characters escaped.
pub uninterp spec fn debug_quoted(s: Seq<char>) -> Seq<char>;

/// Whether `Debug` formatting leaves a character as it is: an ASCII letter or digit, a
/// space, or one of `-`, `_`, `.`, `/` and `:`. None of these is a quote, a backslash or
/// unprintable, so none is escaped.
pub open spec fn plain_char(c: char) -> bool {
    ||| 'a' <= c <= 'z'
    ||| 'A' <= c <= 'Z'
    ||| '0' <= c <= '9'
    ||| c == ' ' || c == '-' || c == '_' || c == '.' || c == '/' || c == ':'
}

/// A name as a message quotes it: a name of plain characters between double quotes, and
/// any other as `Debug` formatting writes it.
pub open spec fn quoted_name(s: Seq<char>) -> Seq<char> {
    if forall|i: int| 0 <= i < s.len() ==> plain_char(#[trigger] s[i]) {
        seq!['"'] + s + seq!['"']
    } else {
        debug_quoted(s)
    }
}

/// What `char::to_uppercase` yields for a character: its Unicode upper-case mapping.
pub uninterp spec fn uppercase_of(c: char) -> Seq<char>;

/// Whether a character is an ASCII lower-case letter.
pub open spec fn is_ascii_lower(c: char) -> bool {
    'a' <= c <= 'z'
}

/// `String::push`: `c` appended to `s`.
#[verifier::external_body]
pub(crate) fn push_char(s: &mut String, c: char)
    ensures
        final(s)@ == old(s)@.push(c),
{
    s.push(c);
}

/// `char::to_uppercase`, collected into a string: the character's Unicode upper-case
/// mapping. Of ASCII the contract states what `std` documents: a lower-case letter maps to
/// its capital, and every other ASCII character to itself.
#[verifier::external_body]
pub(crate) fn uppercase(c: char) -> (s: String)
    ensures
        s@ == uppercase_of(c),
        is_ascii_lower(c) ==> s@ == seq![((c as u32) - 32) as char],
        (c as u32) < 128 && !is_ascii_lower(c) ==> s@ == seq![c],
{
    c.to_uppercase().collect()
}

/// `Debug` formatting of a string: quoted and escaped. The contract names the result;
/// of the escaping rules it states only that a string of plain characters is written
/// between double quotes unchanged, as `char::escape_debug` leaves such characters alone.
#[verifier::external_body]
pub(crate) fn debug_string(s: &str) -> (r: String)
    ensures
        r@ == debug_quoted(s@),
        (forall|i: int| 0 <= i < s@.len() ==> plain_char(#[trigger] s@[i])) ==> r@ == seq!['"'] + s@ + seq!['"'],
{
    format!("{s:?}")
}

/// The digit for `d`, below ten.
pub fn digit(d: u64) -> (c: char)
    requires
        d < 10,
    ensures
        c == digit_char(d as nat),
{
    match d {
        0 => '0',
        1 => '1',
        2 => '2',
        3 => '3',
        4 => '4',
        5 => '5',
        6 => '6',
        7 => '7',
        8 => '8',
        _ => '9',
    }
}

/// Append `n` in decimal digits.
pub fn push_decimal(s: &mut String, n: u64)
    ensures
        final(s)@ == old(s)@ + decimal(n as nat),
    decreases n,
{
    if n >= 10 {
        push_decimal(s, n / 10);
        push_char(s, digit(n % 10));
        assert(decimal(n as nat) == decimal((n / 10) as nat).push(digit_char((n % 10) as nat)));
        assert(final(s)@ =~= old(s)@ + decimal(n as nat)) by {
            assert(final(s)@ =~= (old(s)@ + decimal((n / 10) as nat)).push(digit_char((n % 10) as nat)));
        }
    } else {
        push_char(s, digit(n));
        assert(final(s)@ =~= old(s)@ + decimal(n as nat));
    }
}

/// `n` in decimal digits.
pub fn decimal_string(n: u64) -> (s: String)
    ensures
        s@ == decimal(n as nat),
{
    let mut s = String::new();
    push_decimal(&mut s, n);
    assert(s@ =~= decimal(n as nat));
    s
}

/// Append `t`.
pub fn push_str(s: &mut String, t: &str)
    ensures
        final(s)@ == old(s)@ + t@,
{
    s.append(t);
}


/// Whether two strings hold the same characters.
pub fn str_eq(a: &str, b: &str) -> (same: bool)
    ensures
        same == (a@ == b@),
{
    a.to_owned() == b.to_owned()
}


/// Three pieces, one after the other.
pub fn concat3(a: &str, b: &str, c: &str) -> (s: String)
    ensures
        s@ == a@ + b@ + c@,
{
    let mut s = String::from_str(a);
    push_str(&mut s, b);
    push_str(&mut s, c);
    s
}


/// Two pieces, one after the other.
pub fn concat2(a: &str, b: &str) -> (s: String)
    ensures
        s@ == a@ + b@,
{
    let mut s = String::from_str(a);
    push_str(&mut s, b);
    s
}


/// Whether a character has the Unicode `White_Space` property, which is what `str::trim`
/// strips.
pub open spec fn is_white_space(c: char) -> bool {
    ||| '\u{9}' <= c <= '\u{d}'
    ||| c == ' '
    ||| c == '\u{85}'
    ||| c == '\u{a0}'
    ||| c == '\u{1680}'
    ||| '\u{2000}' <= c <= '\u{200a}'
    ||| c == '\u{2028}'
    ||| c == '\u{2029}'
    ||| c == '\u{202f}'
    ||| c == '\u{205f}'
    ||| c == '\u{3000}'
}

/// Whether `t` is `s` with its leading and trailing white space removed: a run of `s` that
/// starts and ends on a character that is not white space, or nothing when `s` is all
/// white space.
pub open spec fn trimmed(s: Seq<char>, t: Seq<char>) -> bool {
    exists|a: int, b: int|
        0 <= a <= b <= s.len() && t == s.subrange(a, b)
        && (forall|k: int| 0 <= k < a ==> is_white_space(#[trigger] s[k]))
        && (forall|k: int| b <= k < s.len() ==> is_white_space(#[trigger] s[k]))
        && (a < b ==> !is_white_space(s[a]) && !is_white_space(s[b - 1]))
}

/// Whether every character of `s` is white space.
pub open spec fn all_white_space(s: Seq<char>) -> bool {
    forall|k: int| 0 <= k < s.len() ==> is_white_space(#[trigger] s[k])
}

/// Whether a character is white space.
pub fn white_space(c: char) -> (w: bool)
    ensures
        w == is_white_space(c),
{
    ('\u{9}' <= c && c <= '\u{d}') || c == ' ' || c == '\u{85}' || c == '\u{a0}' || c == '\u{1680}'
        || ('\u{2000}' <= c && c <= '\u{200a}') || c == '\u{2028}' || c == '\u{2029}'
        || c == '\u{202f}' || c == '\u{205f}' || c == '\u{3000}'
}

/// The characters of `s`, in order.
pub fn chars_of(s: &str) -> (cs: Vec<char>)
    ensures
        cs@ == s@,
{
    let mut cs: Vec<char> = Vec::new();
    for c in it: s.chars()
        invariant
            cs@ == it.seq().take(it.index() as int),
    {
        cs.push(c);
    }
    cs
}

/// `s` with its leading and trailing white space removed.
pub fn trim(s: &str) -> (t: String)
    ensures
        trimmed(s@, t@),
        t@.len() == 0 <==> all_white_space(s@),
{
    let cs = chars_of(s);
    let mut a: usize = 0;
    while a < cs.len() && white_space(cs[a])
        invariant
            a <= cs@.len(),
            forall|k: int| 0 <= k < a ==> is_white_space(#[trigger] cs@[k]),
        decreases cs@.len() - a,
    {
        a = a + 1;
    }
    let mut b: usize = cs.len();
    while b > a && white_space(cs[b - 1])
        invariant
            a <= b <= cs@.len(),
            forall|k: int| b <= k < cs@.len() ==> is_white_space(#[trigger] cs@[k]),
        decreases b,
    {
        b = b - 1;
    }
    let mut t = String::new();
    let mut i: usize = a;
    while i < b
        invariant
            a <= i <= b <= cs@.len(),
            t@ == cs@.subrange(a as int, i as int),
        decreases b - i,
    {
        push_char(&mut t, cs[i]);
        assert(t@ =~= cs@.subrange(a as int, i + 1));
        i = i + 1;
    }
    assert(t@ == s@.subrange(a as int, b as int));
    if a == b {
        assert(all_white_space(s@)) by {
            assert forall|k: int| 0 <= k < s@.len() implies is_white_space(#[trigger] s@[k]) by {
                if k < a {
                } else {
                    assert(b <= k);
                }
            }
        }
    } else {
        assert(!is_white_space(s@[a as int]));
    }
    t
}


proof fn digit_chars_differ(a: nat, b: nat)
    requires
        a < 10,
        b < 10,
        a != b,
    ensures
        digit_char(a) != digit_char(b),
{
}

/// A number written in decimal takes at least two digits from ten up.
proof fn decimal_len(n: nat)
    ensures
        decimal(n).len() >= 1,
        n >= 10 ==> decimal(n).len() >= 2,
    decreases n,
{
    if n >= 10 {
        decimal_len(n / 10);
    }
}

/// Two numbers are written alike in decimal only if they are the same number.
pub proof fn decimal_is_injective(n: nat, m: nat)
    requires
        decimal(n) == decimal(m),
    ensures
        n == m,
    decreases n + m,
{
    decimal_len(n);
    decimal_len(m);
    if n < 10 && m < 10 {
        if n != m {
            digit_chars_differ(n, m);
            let a = digit_char(n);
            let b = digit_char(m);
            assert(decimal(n) == seq![a]);
            assert(decimal(m) == seq![b]);
            assert(seq![a][0] == a);
            assert(seq![b][0] == b);
            assert(a != b);
        }
    } else if n < 10 || m < 10 {
        assert(decimal(n).len() != decimal(m).len());
    } else {
        let dn = decimal(n);
        let dm = decimal(m);
        assert(dn.last() == digit_char(n % 10));
        assert(dm.last() == digit_char(m % 10));
        if n % 10 != m % 10 {
            digit_chars_differ(n % 10, m % 10);
        }
        assert(dn.drop_last() == decimal(n / 10));
        assert(dm.drop_last() == decimal(m / 10));
        decimal_is_injective(n / 10, m / 10);
    }
}

} // verus!
