//! Verified text codecs: decimal for waypoint versions, hexadecimal for
//! digests and account identifiers, and the split of a waypoint's
//! `version:digest` form at its first colon.

use vstd::prelude::*;

verus! {

/// The character for one digit value, lower case beyond nine.
pub open spec fn digit_char(d: nat) -> char {
    if d == 0 {
        '0'
    } else if d == 1 {
        '1'
    } else if d == 2 {
        '2'
    } else if d == 3 {
        '3'
    } else if d == 4 {
        '4'
    } else if d == 5 {
        '5'
    } else if d == 6 {
        '6'
    } else if d == 7 {
        '7'
    } else if d == 8 {
        '8'
    } else if d == 9 {
        '9'
    } else if d == 10 {
        'a'
    } else if d == 11 {
        'b'
    } else if d == 12 {
        'c'
    } else if d == 13 {
        'd'
    } else if d == 14 {
        'e'
    } else {
        'f'
    }
}

/// The digit value of a character, accepting both letter cases, or a
/// negative result where the character is no hexadecimal digit.
pub open spec fn char_digit(c: char) -> int {
    if c == '0' {
        0
    } else if c == '1' {
        1
    } else if c == '2' {
        2
    } else if c == '3' {
        3
    } else if c == '4' {
        4
    } else if c == '5' {
        5
    } else if c == '6' {
        6
    } else if c == '7' {
        7
    } else if c == '8' {
        8
    } else if c == '9' {
        9
    } else if c == 'a' || c == 'A' {
        10
    } else if c == 'b' || c == 'B' {
        11
    } else if c == 'c' || c == 'C' {
        12
    } else if c == 'd' || c == 'D' {
        13
    } else if c == 'e' || c == 'E' {
        14
    } else if c == 'f' || c == 'F' {
        15
    } else {
        -1
    }
}

pub open spec fn is_dec_char(c: char) -> bool {
    0 <= char_digit(c) <= 9
}

pub open spec fn is_hex_char(c: char) -> bool {
    char_digit(c) >= 0
}

/// The exec mirror of [`digit_char`].
pub fn exec_digit_char(d: u8) -> (c: char)
    requires
        d < 16,
    ensures
        c == digit_char(d as nat),
{
    if d == 0 {
        '0'
    } else if d == 1 {
        '1'
    } else if d == 2 {
        '2'
    } else if d == 3 {
        '3'
    } else if d == 4 {
        '4'
    } else if d == 5 {
        '5'
    } else if d == 6 {
        '6'
    } else if d == 7 {
        '7'
    } else if d == 8 {
        '8'
    } else if d == 9 {
        '9'
    } else if d == 10 {
        'a'
    } else if d == 11 {
        'b'
    } else if d == 12 {
        'c'
    } else if d == 13 {
        'd'
    } else if d == 14 {
        'e'
    } else {
        'f'
    }
}

/// The exec mirror of [`char_digit`]: the digit value, or nothing where
/// the character is no hexadecimal digit.
pub fn exec_char_digit(c: char) -> (r: Option<u8>)
    ensures
        char_digit(c) >= 0 ==> r == Some(char_digit(c) as u8),
        char_digit(c) < 0 ==> r is None,
{
    if c == '0' {
        Some(0)
    } else if c == '1' {
        Some(1)
    } else if c == '2' {
        Some(2)
    } else if c == '3' {
        Some(3)
    } else if c == '4' {
        Some(4)
    } else if c == '5' {
        Some(5)
    } else if c == '6' {
        Some(6)
    } else if c == '7' {
        Some(7)
    } else if c == '8' {
        Some(8)
    } else if c == '9' {
        Some(9)
    } else if c == 'a' || c == 'A' {
        Some(10)
    } else if c == 'b' || c == 'B' {
        Some(11)
    } else if c == 'c' || c == 'C' {
        Some(12)
    } else if c == 'd' || c == 'D' {
        Some(13)
    } else if c == 'e' || c == 'E' {
        Some(14)
    } else if c == 'f' || c == 'F' {
        Some(15)
    } else {
        None
    }
}

/// Relies on `String::push`: appends exactly the given character.
#[verifier::external_body]
pub fn push_char(s: &mut String, c: char)
    ensures
        final(s)@ == old(s)@.push(c),
{
    s.push(c)
}

// ---------------------------------------------------------------------
// Decimal
// ---------------------------------------------------------------------

/// The decimal digits of a number, most significant first, without
/// leading zeros (a lone zero for zero itself).
pub open spec fn dec_digits(n: nat) -> Seq<char>
    decreases n,
{
    if n < 10 {
        seq![digit_char(n)]
    } else {
        dec_digits(n / 10).push(digit_char(n % 10))
    }
}

/// The value of a digit string read as decimal. Only meaningful where
/// every character is a decimal digit.
pub open spec fn dec_value(s: Seq<char>) -> nat
    decreases s.len(),
{
    if s.len() == 0 {
        0
    } else {
        dec_value(s.drop_last()) * 10 + (if is_dec_char(s.last()) {
            char_digit(s.last()) as nat
        } else {
            0
        })
    }
}

pub open spec fn all_dec(s: Seq<char>) -> bool {
    forall|i: int| 0 <= i < s.len() ==> is_dec_char(s[i])
}

/// What parsing a decimal field yields: the value of a non-empty,
/// all-digit string that fits the version type, and nothing otherwise.
pub open spec fn parse_dec(s: Seq<char>) -> Option<u64> {
    if s.len() > 0 && all_dec(s) && dec_value(s) <= u64::MAX {
        Some(dec_value(s) as u64)
    } else {
        None
    }
}

/// Decimal rendering round-trips: the digits of `n` are non-empty, all
/// decimal, and read back as `n`.
pub proof fn lemma_dec_digits_value(n: nat)
    ensures
        dec_digits(n).len() >= 1,
        all_dec(dec_digits(n)),
        dec_value(dec_digits(n)) == n,
    decreases n,
{
    if n < 10 {
        let s = dec_digits(n);
        assert(s.last() == digit_char(n));
        assert(char_digit(digit_char(n)) == n);
        assert(is_dec_char(digit_char(n)));
        assert(s.drop_last() =~= Seq::<char>::empty());
        assert(dec_value(s.drop_last()) == 0);
        assert(dec_value(s) == 0 * 10 + n);
    } else {
        lemma_dec_digits_value(n / 10);
        let prev = dec_digits(n / 10);
        let s = dec_digits(n);
        assert(s == prev.push(digit_char(n % 10)));
        assert(s.drop_last() =~= prev);
        assert(s.last() == digit_char(n % 10));
        assert(char_digit(digit_char(n % 10)) == n % 10);
        assert(is_dec_char(digit_char(n % 10)));
        assert(forall|i: int| 0 <= i < s.len() ==> is_dec_char(s[i])) by {
            assert(forall|i: int| 0 <= i < prev.len() ==> s[i] == prev[i]);
        }
        assert(dec_value(s) == (n / 10) * 10 + n % 10);
        assert((n / 10) * 10 + n % 10 == n) by (nonlinear_arith);
    }
}

/// The value of a digit string grows with its length: every prefix of an
/// all-decimal string reads as at most the whole.
pub proof fn lemma_dec_value_prefix(s: Seq<char>, i: int)
    requires
        0 <= i <= s.len(),
        all_dec(s),
    ensures
        dec_value(s.take(i)) <= dec_value(s),
    decreases s.len(),
{
    if i < s.len() {
        let t = s.drop_last();
        assert(all_dec(t)) by {
            assert(forall|j: int| 0 <= j < t.len() ==> t[j] == s[j]);
        }
        lemma_dec_value_prefix(t, i);
        assert(t.take(i) =~= s.take(i));
        assert(dec_value(s) >= dec_value(t) * 10) by {
            assert(is_dec_char(s.last()));
        }
        assert(dec_value(t) * 10 >= dec_value(t)) by (nonlinear_arith);
    } else {
        assert(s.take(i) =~= s);
    }
}

// ---------------------------------------------------------------------
// Hexadecimal
// ---------------------------------------------------------------------

/// The two lower-case hexadecimal characters of one byte.
pub open spec fn byte_hex(b: u8) -> Seq<char> {
    seq![digit_char((b / 16) as nat), digit_char((b % 16) as nat)]
}

/// The hexadecimal text of a byte string, two characters per byte.
pub open spec fn hex_text(bs: Seq<u8>) -> Seq<char>
    decreases bs.len(),
{
    if bs.len() == 0 {
        Seq::empty()
    } else {
        hex_text(bs.drop_last()) + byte_hex(bs.last())
    }
}

/// What parsing hexadecimal text yields: the bytes of an even-length,
/// all-hexadecimal string (either letter case), and nothing otherwise.
pub open spec fn parse_hex(s: Seq<char>) -> Option<Seq<u8>>
    decreases s.len(),
{
    if s.len() % 2 != 0 {
        None
    } else if s.len() == 0 {
        Some(Seq::empty())
    } else {
        let hi = char_digit(s[s.len() - 2]);
        let lo = char_digit(s[s.len() - 1]);
        match parse_hex(s.take(s.len() - 2)) {
            Some(bs) => if hi >= 0 && lo >= 0 {
                Some(bs.push((hi * 16 + lo) as u8))
            } else {
                None
            },
            None => None,
        }
    }
}

/// Hexadecimal rendering round-trips: the text of `bs` has two characters
/// per byte, all hexadecimal, and parses back to `bs`.
pub proof fn lemma_hex_text_value(bs: Seq<u8>)
    ensures
        hex_text(bs).len() == 2 * bs.len(),
        forall|i: int| 0 <= i < hex_text(bs).len() ==> is_hex_char(#[trigger] hex_text(bs)[i]),
        parse_hex(hex_text(bs)) == Some(bs),
    decreases bs.len(),
{
    if bs.len() == 0 {
        assert(hex_text(bs) =~= Seq::<char>::empty());
    } else {
        let t = bs.drop_last();
        lemma_hex_text_value(t);
        let b = bs.last();
        let s = hex_text(bs);
        assert(s == hex_text(t) + byte_hex(b));
        assert(s.len() == 2 * bs.len());
        let hi = (b / 16) as nat;
        let lo = (b % 16) as nat;
        assert(hi < 16 && lo < 16);
        assert(char_digit(digit_char(hi)) == hi);
        assert(char_digit(digit_char(lo)) == lo);
        assert(s[s.len() - 2] == digit_char(hi));
        assert(s[s.len() - 1] == digit_char(lo));
        assert(forall|i: int| 0 <= i < s.len() - 2 ==> s[i] == #[trigger] hex_text(t)[i]);
        assert(s.take(s.len() - 2) =~= hex_text(t));
        assert((hi * 16 + lo) as u8 == b) by {
            assert(b / 16 * 16 + b % 16 == b) by (nonlinear_arith);
        }
        assert(parse_hex(s) == Some(t.push(b)));
        assert(t.push(b) =~= bs);
    }
}

/// Every character of a string that parses as hexadecimal is a
/// hexadecimal digit.
pub proof fn lemma_parse_hex_chars(s: Seq<char>, i: int)
    requires
        parse_hex(s) is Some,
        0 <= i < s.len(),
    ensures
        is_hex_char(s[i]),
    decreases s.len(),
{
    if i < s.len() - 2 {
        let t = s.take(s.len() - 2);
        lemma_parse_hex_chars(t, i);
    }
}

// ---------------------------------------------------------------------
// Exec: rendering
// ---------------------------------------------------------------------

/// Appends the decimal digits of `n`.
pub fn push_dec_digits(out: &mut String, n: u64)
    ensures
        final(out)@ == old(out)@ + dec_digits(n as nat),
    decreases n,
{
    if n < 10 {
        push_char(out, exec_digit_char(n as u8));
        proof {
            assert(final(out)@ =~= old(out)@ + dec_digits(n as nat));
        }
    } else {
        push_dec_digits(out, n / 10);
        push_char(out, exec_digit_char((n % 10) as u8));
        proof {
            assert(final(out)@ =~= old(out)@ + dec_digits(n as nat));
        }
    }
}

/// Appends the hexadecimal text of `bs`.
pub fn push_hex(out: &mut String, bs: &Vec<u8>)
    ensures
        final(out)@ == old(out)@ + hex_text(bs@),
{
    let mut i: usize = 0;
    proof {
        assert(bs@.take(0) =~= Seq::<u8>::empty());
        assert(out@ =~= old(out)@ + hex_text(bs@.take(0)));
    }
    while i < bs.len()
        invariant
            i <= bs.len(),
            out@ == old(out)@ + hex_text(bs@.take(i as int)),
        decreases bs.len() - i,
    {
        let b = bs[i];
        push_char(out, exec_digit_char(b / 16));
        push_char(out, exec_digit_char(b % 16));
        proof {
            let pre = bs@.take(i as int);
            let cur = bs@.take(i + 1 as int);
            assert(cur.drop_last() =~= pre);
            assert(cur.last() == bs@[i as int]);
            assert(hex_text(cur) == hex_text(pre) + byte_hex(bs@[i as int]));
            assert(out@ =~= old(out)@ + hex_text(cur));
        }
        i = i + 1;
    }
    proof {
        assert(bs@.take(bs@.len() as int) =~= bs@);
    }
}

// ---------------------------------------------------------------------
// Exec: parsing
// ---------------------------------------------------------------------

/// Parses the character range `[from, to)` of `s` as a decimal number.
pub fn parse_dec_range(s: &str, from: usize, to: usize) -> (r: Option<u64>)
    requires
        from <= to <= s@.len(),
    ensures
        r == parse_dec(s@.subrange(from as int, to as int)),
{
    let ghost sub = s@.subrange(from as int, to as int);
    if from == to {
        return None;
    }
    let mut val: u64 = 0;
    let mut i: usize = from;
    while i < to
        invariant
            from <= i <= to <= s@.len(),
            sub == s@.subrange(from as int, to as int),
            all_dec(sub.take(i - from)),
            val == dec_value(sub.take(i - from)),
        decreases to - i,
    {
        let c = s.get_char(i);
        let d = match exec_char_digit(c) {
            Some(d) => d,
            None => {
                proof {
                    assert(sub[i - from] == c);
                    assert(!is_dec_char(sub[i - from]));
                    assert(!all_dec(sub));
                }
                return None;
            },
        };
        if d > 9 {
            proof {
                assert(sub[i - from] == c);
                assert(!is_dec_char(sub[i - from]));
                assert(!all_dec(sub));
            }
            return None;
        }
        let wide: u128 = (val as u128) * 10 + (d as u128);
        proof {
            let pre = sub.take(i - from);
            let cur = sub.take(i - from + 1);
            assert(cur.drop_last() =~= pre);
            assert(cur.last() == sub[i - from]);
            assert(sub[i - from] == c);
            assert(is_dec_char(c));
            assert(dec_value(cur) == dec_value(pre) * 10 + char_digit(c));
            assert(wide == dec_value(cur));
        }
        if wide > u64::MAX as u128 {
            proof {
                let cur = sub.take(i - from + 1);
                if all_dec(sub) {
                    lemma_dec_value_prefix(sub, i - from + 1);
                    assert(dec_value(sub) >= dec_value(cur));
                }
                assert(parse_dec(sub) is None);
            }
            return None;
        }
        val = wide as u64;
        i = i + 1;
    }
    proof {
        assert(sub.take(to - from) =~= sub);
        assert(parse_dec(sub) == Some(val));
    }
    Some(val)
}

/// Parses the character range `[from, to)` of `s` as hexadecimal bytes.
pub fn parse_hex_range(s: &str, from: usize, to: usize) -> (r: Option<Vec<u8>>)
    requires
        from <= to <= s@.len(),
    ensures
        match r {
            Some(v) => parse_hex(s@.subrange(from as int, to as int)) == Some(v@),
            None => parse_hex(s@.subrange(from as int, to as int)) is None,
        },
{
    let ghost sub = s@.subrange(from as int, to as int);
    if (to - from) % 2 != 0 {
        return None;
    }
    let mut out: Vec<u8> = Vec::new();
    let mut i: usize = from;
    proof {
        assert(sub.take(0) =~= Seq::<char>::empty());
    }
    while i < to
        invariant
            from <= i <= to <= s@.len(),
            sub == s@.subrange(from as int, to as int),
            (to - from) % 2 == 0,
            (i - from) % 2 == 0,
            parse_hex(sub.take(i - from)) == Some(out@),
        decreases to - i,
    {
        let hi_c = s.get_char(i);
        let lo_c = s.get_char(i + 1);
        let hi = match exec_char_digit(hi_c) {
            Some(d) => d,
            None => {
                proof {
                    lemma_bad_char_kills_hex(sub, i - from);
                }
                return None;
            },
        };
        let lo = match exec_char_digit(lo_c) {
            Some(d) => d,
            None => {
                proof {
                    lemma_bad_char_kills_hex(sub, i - from + 1);
                }
                return None;
            },
        };
        out.push(hi * 16 + lo);
        proof {
            let pre = sub.take(i - from);
            let cur = sub.take(i - from + 2);
            assert(cur.take(cur.len() - 2) =~= pre);
            assert(cur[cur.len() - 2] == sub[i - from]);
            assert(cur[cur.len() - 1] == sub[i - from + 1]);
            assert(sub[i - from] == hi_c && sub[i - from + 1] == lo_c);
            assert(parse_hex(cur) == Some(out@));
        }
        i = i + 2;
    }
    proof {
        assert(sub.take(to - from) =~= sub);
    }
    Some(out)
}

/// A non-hexadecimal character anywhere makes the whole string fail to
/// parse as hexadecimal.
pub proof fn lemma_bad_char_kills_hex(s: Seq<char>, i: int)
    requires
        0 <= i < s.len(),
        !is_hex_char(s[i]),
    ensures
        parse_hex(s) is None,
{
    if parse_hex(s) is Some {
        lemma_parse_hex_chars(s, i);
    }
}

// ---------------------------------------------------------------------
// First colon
// ---------------------------------------------------------------------

/// The index of the first colon in `s`, or a negative result where there
/// is none.
pub open spec fn first_colon(s: Seq<char>) -> int
    decreases s.len(),
{
    if s.len() == 0 {
        -1
    } else if s[0] == ':' {
        0
    } else {
        let r = first_colon(s.drop_first());
        if r < 0 {
            -1
        } else {
            r + 1
        }
    }
}

/// The first colon is where the first colon is: a colon at `i` with none
/// before it pins [`first_colon`] to `i`.
pub proof fn lemma_first_colon_at(s: Seq<char>, i: int)
    requires
        0 <= i < s.len(),
        s[i] == ':',
        forall|j: int| 0 <= j < i ==> s[j] != ':',
    ensures
        first_colon(s) == i,
    decreases s.len(),
{
    if i > 0 {
        let t = s.drop_first();
        assert(forall|j: int| 0 <= j < i - 1 ==> t[j] != ':');
        assert(t[i - 1] == ':');
        lemma_first_colon_at(t, i - 1);
    }
}

/// A string without a colon has no first colon.
pub proof fn lemma_no_colon(s: Seq<char>)
    requires
        forall|j: int| 0 <= j < s.len() ==> s[j] != ':',
    ensures
        first_colon(s) < 0,
    decreases s.len(),
{
    if s.len() > 0 {
        let t = s.drop_first();
        assert(forall|j: int| 0 <= j < t.len() ==> t[j] != ':');
        lemma_no_colon(t);
    }
}

/// Finds the first colon of `s`, scanning from the front.
pub fn find_colon(s: &str) -> (r: Option<usize>)
    ensures
        match r {
            Some(i) => first_colon(s@) == i && i < s@.len(),
            None => first_colon(s@) < 0,
        },
{
    let n = s.unicode_len();
    let mut i: usize = 0;
    while i < n
        invariant
            i <= n == s@.len(),
            forall|j: int| 0 <= j < i ==> s@[j] != ':',
        decreases n - i,
    {
        if s.get_char(i) == ':' {
            proof {
                lemma_first_colon_at(s@, i as int);
            }
            return Some(i);
        }
        i = i + 1;
    }
    proof {
        lemma_no_colon(s@);
    }
    None
}

} // verus!
