//! Verified text helpers: substring search, suffix tests, identifier
//! casing and decimal rendering, all specified over character sequences.

use vstd::prelude::*;

verus! {

/// Whether `p` occurs in `t` starting at position `i`.
pub open spec fn spec_contains_at(t: Seq<char>, p: Seq<char>, i: int) -> bool {
    0 <= i && i + p.len() <= t.len() && t.subrange(i, i + p.len()) == p
}

/// Whether `p` occurs anywhere in `t`.
pub open spec fn spec_contains(t: Seq<char>, p: Seq<char>) -> bool {
    exists|i: int| spec_contains_at(t, p, i)
}

/// Whether `t` ends with `p`.
pub open spec fn spec_ends_with(t: Seq<char>, p: Seq<char>) -> bool {
    p.len() <= t.len() && t.subrange(t.len() - p.len(), t.len() as int) == p
}

/// Whether `p` occurs in `t` starting exactly at `i`, by characters.
fn matches_at(text: &str, pat: &str, i: usize) -> (r: bool)
    requires
        i + pat@.len() <= text@.len(),
    ensures
        r == (text@.subrange(i as int, i + pat@.len()) == pat@),
{
    let n: usize = text.unicode_len();
    let m: usize = pat.unicode_len();
    let mut j: usize = 0;
    while j < m
        invariant
            n == text@.len(),
            m == pat@.len(),
            i + m <= text@.len(),
            j <= m,
            forall|k: int| 0 <= k < j ==> text@[i + k] == pat@[k],
        decreases m - j,
    {
        if text.get_char(i + j) != pat.get_char(j) {
            proof {
                assert(text@.subrange(i as int, i + pat@.len())[j as int] != pat@[j as int]);
            }
            return false;
        }
        j += 1;
    }
    proof {
        assert(text@.subrange(i as int, i + pat@.len()) =~= pat@);
    }
    true
}

/// Whether the pattern occurs anywhere in the text.
pub fn contains_str(text: &str, pat: &str) -> (r: bool)
    ensures
        r == spec_contains(text@, pat@),
{
    let n: usize = text.unicode_len();
    let m: usize = pat.unicode_len();
    if m > n {
        proof {
            assert(!spec_contains(text@, pat@));
        }
        return false;
    }
    if m == 0 {
        proof {
            assert(text@.subrange(0, 0) =~= pat@);
            assert(spec_contains_at(text@, pat@, 0));
        }
        return true;
    }
    let mut i: usize = 0;
    while i <= n - m
        invariant
            n == text@.len(),
            m == pat@.len(),
            1 <= m <= n,
            i <= n - m + 1,
            forall|k: int| 0 <= k < i ==> !spec_contains_at(text@, pat@, k),
        decreases n - i,
    {
        if matches_at(text, pat, i) {
            proof {
                assert(spec_contains_at(text@, pat@, i as int));
            }
            return true;
        }
        i += 1;
    }
    proof {
        assert forall|k: int| !spec_contains_at(text@, pat@, k) by {
            if 0 <= k <= n - m {
                assert(!spec_contains_at(text@, pat@, k));
            }
        }
    }
    false
}

/// Whether the text ends with the pattern.
pub fn ends_with_str(text: &str, pat: &str) -> (r: bool)
    ensures
        r == spec_ends_with(text@, pat@),
{
    let n: usize = text.unicode_len();
    let m: usize = pat.unicode_len();
    if m > n {
        return false;
    }
    matches_at(text, pat, n - m)
}

/// Whether a character is an ASCII letter or digit.
pub open spec fn is_ascii_alnum(c: char) -> bool {
    ('a' <= c && c <= 'z') || ('A' <= c && c <= 'Z') || ('0' <= c && c <= '9')
}

/// Whether a character may appear in a project name: letters, digits,
/// hyphen or underscore.
pub open spec fn is_name_char(c: char) -> bool {
    is_ascii_alnum(c) || c == '-' || c == '_'
}

/// Whether a project name is acceptable: every character is a letter, a
/// digit, a hyphen or an underscore.
pub open spec fn spec_valid_name(s: Seq<char>) -> bool {
    forall|i: int| 0 <= i < s.len() ==> is_name_char(#[trigger] s[i])
}

/// Validates a project name character by character.
pub fn is_valid_project_name(name: &str) -> (r: bool)
    ensures
        r == spec_valid_name(name@),
{
    let n: usize = name.unicode_len();
    let mut i: usize = 0;
    while i < n
        invariant
            n == name@.len(),
            i <= n,
            forall|k: int| 0 <= k < i ==> is_name_char(#[trigger] name@[k]),
        decreases n - i,
    {
        let c: char = name.get_char(i);
        let ok: bool = ('a' <= c && c <= 'z') || ('A' <= c && c <= 'Z') || ('0' <= c && c <= '9')
            || c == '-' || c == '_';
        if !ok {
            return false;
        }
        i += 1;
    }
    true
}

/// Relies on String::push: appends exactly one character to the string.
#[verifier::external_body]
pub(crate) fn push_char(s: &mut String, c: char)
    ensures
        final(s)@ == old(s)@ + seq![c],
{
    s.push(c);
}

/// The upper-case form of an ASCII letter; anything else is unchanged.
pub open spec fn spec_to_upper(c: char) -> char {
    match c {
        'a' => 'A',
        'b' => 'B',
        'c' => 'C',
        'd' => 'D',
        'e' => 'E',
        'f' => 'F',
        'g' => 'G',
        'h' => 'H',
        'i' => 'I',
        'j' => 'J',
        'k' => 'K',
        'l' => 'L',
        'm' => 'M',
        'n' => 'N',
        'o' => 'O',
        'p' => 'P',
        'q' => 'Q',
        'r' => 'R',
        's' => 'S',
        't' => 'T',
        'u' => 'U',
        'v' => 'V',
        'w' => 'W',
        'x' => 'X',
        'y' => 'Y',
        'z' => 'Z',
        _ => c,
    }
}

fn to_upper_char(c: char) -> (r: char)
    ensures
        r == spec_to_upper(c),
{
    match c {
        'a' => 'A',
        'b' => 'B',
        'c' => 'C',
        'd' => 'D',
        'e' => 'E',
        'f' => 'F',
        'g' => 'G',
        'h' => 'H',
        'i' => 'I',
        'j' => 'J',
        'k' => 'K',
        'l' => 'L',
        'm' => 'M',
        'n' => 'N',
        'o' => 'O',
        'p' => 'P',
        'q' => 'Q',
        'r' => 'R',
        's' => 'S',
        't' => 'T',
        'u' => 'U',
        'v' => 'V',
        'w' => 'W',
        'x' => 'X',
        'y' => 'Y',
        'z' => 'Z',
        _ => c,
    }
}

/// PascalCase of a character stream: alphanumeric runs are words, every
/// other character is a separator that is dropped, and the first
/// character of each word is upper-cased.  `boundary` records whether
/// the next alphanumeric character starts a word.
pub open spec fn spec_pascal(s: Seq<char>, boundary: bool) -> Seq<char>
    decreases s.len(),
{
    if s.len() == 0 {
        Seq::empty()
    } else {
        let c = s[0];
        if !is_ascii_alnum(c) {
            spec_pascal(s.drop_first(), true)
        } else if boundary {
            seq![spec_to_upper(c)] + spec_pascal(s.drop_first(), false)
        } else {
            seq![c] + spec_pascal(s.drop_first(), false)
        }
    }
}

/// Derives the PascalCase struct name from a project name: words are
/// the alphanumeric runs, each starts with its letter upper-cased.
pub fn to_pascal_case(s: &str) -> (r: String)
    ensures
        r@ == spec_pascal(s@, true),
{
    let n: usize = s.unicode_len();
    let mut out: String = String::new();
    let mut boundary: bool = true;
    let mut i: usize = 0;
    proof {
        assert(s@.subrange(0, n as int) =~= s@);
        assert(out@ + spec_pascal(s@, true) =~= spec_pascal(s@, true));
    }
    while i < n
        invariant
            n == s@.len(),
            i <= n,
            spec_pascal(s@, true) == out@ + spec_pascal(
                s@.subrange(i as int, n as int),
                boundary,
            ),
        decreases n - i,
    {
        let ghost pre: Seq<char> = s@.subrange(i as int, n as int);
        let ghost out0: Seq<char> = out@;
        let ghost b0: bool = boundary;
        let c: char = s.get_char(i);
        proof {
            assert(pre[0] == s@[i as int]);
            assert(pre.drop_first() =~= s@.subrange(i as int + 1, n as int));
        }
        let alnum: bool = ('a' <= c && c <= 'z') || ('A' <= c && c <= 'Z') || ('0' <= c && c
            <= '9');
        if !alnum {
            boundary = true;
        } else {
            if boundary {
                push_char(&mut out, to_upper_char(c));
            } else {
                push_char(&mut out, c);
            }
            boundary = false;
        }
        proof {
            let rest = spec_pascal(s@.subrange(i as int + 1, n as int), boundary);
            if !is_ascii_alnum(c) {
                assert(spec_pascal(pre, b0) == rest);
            } else if b0 {
                assert(spec_pascal(pre, b0) == seq![spec_to_upper(c)] + rest);
                assert(out0 + (seq![spec_to_upper(c)] + rest) =~= (out0 + seq![
                    spec_to_upper(c),
                ]) + rest);
            } else {
                assert(spec_pascal(pre, b0) == seq![c] + rest);
                assert(out0 + (seq![c] + rest) =~= (out0 + seq![c]) + rest);
            }
        }
        i += 1;
    }
    proof {
        assert(s@.subrange(n as int, n as int) =~= Seq::<char>::empty());
    }
    out
}

/// The decimal digit character of a value below ten; values above nine
/// render as '9' (never reached by the renderers here).
pub open spec fn spec_digit_char(d: nat) -> char {
    if d == 0 {
        '0'
    } else if d == 1 {
        '1'
    } else if d == 2 {
        '2'
    } else if d == 3 {
        '3'
    } else if d == 4 {
        '4'
    } else if d == 5 {
        '5'
    } else if d == 6 {
        '6'
    } else if d == 7 {
        '7'
    } else if d == 8 {
        '8'
    } else {
        '9'
    }
}

/// The decimal digits of a number, most significant first.
pub open spec fn spec_decimal(n: nat) -> Seq<char>
    decreases n,
{
    if n < 10 {
        seq![spec_digit_char(n)]
    } else {
        spec_decimal(n / 10) + seq![spec_digit_char(n % 10)]
    }
}

fn digit_str(d: u64) -> (r: &'static str)
    requires
        d < 10,
    ensures
        r@ == seq![spec_digit_char(d as nat)],
{
    if d == 0 {
        proof {
            reveal_strlit("0");
            assert("0"@ =~= seq!['0']);
        }
        "0"
    } else if d == 1 {
        proof {
            reveal_strlit("1");
            assert("1"@ =~= seq!['1']);
        }
        "1"
    } else if d == 2 {
        proof {
            reveal_strlit("2");
            assert("2"@ =~= seq!['2']);
        }
        "2"
    } else if d == 3 {
        proof {
            reveal_strlit("3");
            assert("3"@ =~= seq!['3']);
        }
        "3"
    } else if d == 4 {
        proof {
            reveal_strlit("4");
            assert("4"@ =~= seq!['4']);
        }
        "4"
    } else if d == 5 {
        proof {
            reveal_strlit("5");
            assert("5"@ =~= seq!['5']);
        }
        "5"
    } else if d == 6 {
        proof {
            reveal_strlit("6");
            assert("6"@ =~= seq!['6']);
        }
        "6"
    } else if d == 7 {
        proof {
            reveal_strlit("7");
            assert("7"@ =~= seq!['7']);
        }
        "7"
    } else if d == 8 {
        proof {
            reveal_strlit("8");
            assert("8"@ =~= seq!['8']);
        }
        "8"
    } else {
        proof {
            reveal_strlit("9");
            assert("9"@ =~= seq!['9']);
        }
        "9"
    }
}

/// Renders a number in decimal.
pub fn u64_to_string(n: u64) -> (s: String)
    ensures
        s@ == spec_decimal(n as nat),
    decreases n,
{
    if n < 10 {
        let mut s: String = String::new();
        s.append(digit_str(n));
        s
    } else {
        let mut s: String = u64_to_string(n / 10);
        s.append(digit_str(n % 10));
        s
    }
}

/// The value `b / d` in hundredths, rounded to the nearest whole
/// hundredth (halves rounding up).
pub open spec fn spec_scaled_hundredths(b: nat, d: nat) -> nat
    recommends
        d > 0,
{
    (b * 100 + d / 2) / d
}

/// A count of hundredths rendered with exactly two fractional digits:
/// `q.ff` where `q` is the whole part and `ff` the remainder,
/// zero-padded to two places.
pub open spec fn spec_fixed2(hundredths: nat) -> Seq<char> {
    spec_decimal(hundredths / 100) + seq!['.'] + seq![
        spec_digit_char((hundredths / 10) % 10),
        spec_digit_char(hundredths % 10),
    ]
}

/// A human-readable size: above one MiB as `q.ff MB` (1 MiB = 1,048,576
/// bytes), above one KiB as `q.ff KB` (1 KiB = 1,024 bytes), both
/// rounded to two fractional decimal digits, and small values as plain
/// bytes.
pub open spec fn spec_format_size(b: nat) -> Seq<char> {
    if b > 1048576 {
        spec_fixed2(spec_scaled_hundredths(b, 1048576)) + seq![' ', 'M', 'B']
    } else if b > 1024 {
        spec_fixed2(spec_scaled_hundredths(b, 1024)) + seq![' ', 'K', 'B']
    } else {
        spec_decimal(b) + seq![' ', 'b', 'y', 't', 'e', 's']
    }
}

fn fixed2(hundredths: u64) -> (s: String)
    ensures
        s@ == spec_fixed2(hundredths as nat),
{
    let mut s: String = u64_to_string(hundredths / 100);
    proof {
        reveal_strlit(".");
        assert("."@ =~= seq!['.']);
    }
    s.append(".");
    s.append(digit_str((hundredths / 10) % 10));
    s.append(digit_str(hundredths % 10));
    s
}

/// The rounded hundredths of `bytes / divisor`, computed without
/// overflowing: the quotient fits back in a size because the divisor
/// is one of the two binary size units.
fn scaled_hundredths(bytes: u64, divisor: u64) -> (r: u64)
    requires
        divisor == 1024 || divisor == 1048576,
    ensures
        r as nat == spec_scaled_hundredths(bytes as nat, divisor as nat),
{
    let wide: u128 = ((bytes as u128) * 100 + (divisor / 2) as u128) / (divisor as u128);
    proof {
        let num = (bytes as int) * 100 + (divisor as int) / 2;
        let bound = 0xFFFF_FFFF_FFFF_FFFFint * 100 + 524288;
        assert(num <= bound) by (nonlinear_arith)
            requires
                bytes <= 0xFFFF_FFFF_FFFF_FFFFu64,
                (divisor == 1024u64 || divisor == 1048576u64),
                num == (bytes as int) * 100 + (divisor as int) / 2,
                bound == 0xFFFF_FFFF_FFFF_FFFFint * 100 + 524288,
        ;
        vstd::arithmetic::div_mod::lemma_div_is_ordered(num, bound, divisor as int);
        vstd::arithmetic::div_mod::lemma_div_is_ordered_by_denominator(bound, 1024, divisor as int);
        assert(bound / 1024 <= 0xFFFF_FFFF_FFFF_FFFFint) by (nonlinear_arith)
            requires bound == 0xFFFF_FFFF_FFFF_FFFFint * 100 + 524288;
    }
    wide as u64
}

/// Renders an artifact size for the build report.
pub fn format_size(bytes: u64) -> (s: String)
    ensures
        s@ == spec_format_size(bytes as nat),
{
    if bytes > 1048576 {
        let mut s: String = fixed2(scaled_hundredths(bytes, 1048576));
        proof {
            reveal_strlit(" MB");
            assert(" MB"@ =~= seq![' ', 'M', 'B']);
        }
        s.append(" MB");
        s
    } else if bytes > 1024 {
        let mut s: String = fixed2(scaled_hundredths(bytes, 1024));
        proof {
            reveal_strlit(" KB");
            assert(" KB"@ =~= seq![' ', 'K', 'B']);
        }
        s.append(" KB");
        s
    } else {
        let mut s: String = u64_to_string(bytes);
        proof {
            reveal_strlit(" bytes");
            assert(" bytes"@ =~= seq![' ', 'b', 'y', 't', 'e', 's']);
        }
        s.append(" bytes");
        s
    }
}

} // verus!
