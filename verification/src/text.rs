//! Text handling for lines typed at a prompt: trimming and decimal numbers.

use vstd::prelude::*;

verus! {

/// Whether `c` carries the Unicode `White_Space` property.
pub open spec fn is_whitespace(c: char) -> bool {
    let u = c as u32;
    ||| 0x09 <= u <= 0x0D
    ||| u == 0x20
    ||| u == 0x85
    ||| u == 0xA0
    ||| u == 0x1680
    ||| 0x2000 <= u <= 0x200A
    ||| u == 0x2028
    ||| u == 0x2029
    ||| u == 0x202F
    ||| u == 0x205F
    ||| u == 0x3000
}

/// `s` without its leading whitespace.
pub open spec fn trim_start(s: Seq<char>) -> Seq<char>
    decreases s.len(),
{
    if s.len() > 0 && is_whitespace(s[0]) {
        trim_start(s.subrange(1, s.len() as int))
    } else {
        s
    }
}

/// `s` without its trailing whitespace.
pub open spec fn trim_end(s: Seq<char>) -> Seq<char>
    decreases s.len(),
{
    if s.len() > 0 && is_whitespace(s[s.len() - 1]) {
        trim_end(s.subrange(0, s.len() - 1))
    } else {
        s
    }
}

/// `s` without leading and trailing whitespace.
pub open spec fn trimmed(s: Seq<char>) -> Seq<char> {
    trim_end(trim_start(s))
}

/// Whether `c` is whitespace.
pub fn char_is_whitespace(c: char) -> (b: bool)
    ensures
        b == is_whitespace(c),
{
    let u: u32 = c as u32;
    (0x09 <= u && u <= 0x0D) || u == 0x20 || u == 0x85 || u == 0xA0 || u == 0x1680 || (0x2000 <= u
        && u <= 0x200A) || u == 0x2028 || u == 0x2029 || u == 0x202F || u == 0x205F || u == 0x3000
}

/// The slice of `s` between its first and last characters that are not whitespace.
pub fn trim<'a>(s: &'a str) -> (r: &'a str)
    ensures
        r@ == trimmed(s@),
{
    let n: usize = s.unicode_len();
    let mut start: usize = 0;
    assert(s@.subrange(0, n as int) =~= s@);
    while start < n && char_is_whitespace(s.get_char(start))
        invariant
            start <= n,
            n == s@.len(),
            trim_start(s@) == trim_start(s@.subrange(start as int, n as int)),
        decreases n - start,
    {
        proof {
            let rest = s@.subrange(start as int, n as int);
            assert(rest.subrange(1, rest.len() as int) =~= s@.subrange(start + 1, n as int));
        }
        start += 1;
    }
    let mut end: usize = n;
    while end > start && char_is_whitespace(s.get_char(end - 1))
        invariant
            start <= end <= n,
            n == s@.len(),
            trim_end(s@.subrange(start as int, n as int)) == trim_end(
                s@.subrange(start as int, end as int),
            ),
        decreases end - start,
    {
        proof {
            let rest = s@.subrange(start as int, end as int);
            assert(rest.subrange(0, rest.len() - 1) =~= s@.subrange(start as int, end - 1));
        }
        end -= 1;
    }
    s.substring_char(start, end)
}

/// Whether `c` is one of the ASCII digits `0` to `9`.
pub open spec fn is_digit(c: char) -> bool {
    0x30 <= c as u32 <= 0x39
}

/// The number that the digit `c` stands for; 0 for any other character.
pub open spec fn digit_value(c: char) -> nat {
    if is_digit(c) {
        (c as u32 - 0x30) as nat
    } else {
        0
    }
}

/// Whether `s` holds ASCII digits only.
pub open spec fn all_digits(s: Seq<char>) -> bool {
    forall|i: int| 0 <= i < s.len() ==> is_digit(#[trigger] s[i])
}

/// The number written by the digits of `s` in base ten, the last digit weighing least.
pub open spec fn decimal_value(s: Seq<char>) -> nat
    decreases s.len(),
{
    if s.len() == 0 {
        0
    } else {
        10 * decimal_value(s.drop_last()) + digit_value(s.last())
    }
}

/// The number that a run of digits denotes, if there is at least one digit, nothing
/// but digits, and the number does not exceed `limit`.
pub open spec fn bounded_decimal(digits: Seq<char>, limit: nat) -> Option<nat> {
    if digits.len() > 0 && all_digits(digits) && decimal_value(digits) <= limit {
        Some(decimal_value(digits))
    } else {
        None
    }
}

/// What `s` denotes as a `usize`: an optional `+`, then digits, within the type's range.
pub open spec fn parse_usize_spec(s: Seq<char>) -> Option<usize> {
    let digits = if s.len() > 0 && s[0] == '+' {
        s.subrange(1, s.len() as int)
    } else {
        s
    };
    match bounded_decimal(digits, usize::MAX as nat) {
        Some(n) => Some(n as usize),
        None => None,
    }
}

/// What `s` denotes as an `i64`: an optional `+` or `-`, then digits, within the
/// type's range.
pub open spec fn parse_i64_spec(s: Seq<char>) -> Option<i64> {
    if s.len() > 0 && s[0] == '-' {
        match bounded_decimal(s.subrange(1, s.len() as int), 0x8000_0000_0000_0000) {
            Some(n) => Some((-(n as int)) as i64),
            None => None,
        }
    } else {
        let digits = if s.len() > 0 && s[0] == '+' {
            s.subrange(1, s.len() as int)
        } else {
            s
        };
        match bounded_decimal(digits, 0x7fff_ffff_ffff_ffff) {
            Some(n) => Some(n as i64),
            None => None,
        }
    }
}

/// A prefix of a digit string never denotes more than the whole.
pub proof fn lemma_decimal_value_prefix(s: Seq<char>, k: int)
    requires
        0 <= k <= s.len(),
    ensures
        decimal_value(s.subrange(0, k)) <= decimal_value(s),
    decreases s.len(),
{
    if k == s.len() {
        assert(s.subrange(0, k) =~= s);
    } else {
        assert(s.drop_last().subrange(0, k) =~= s.subrange(0, k));
        lemma_decimal_value_prefix(s.drop_last(), k);
    }
}

/// Reads the characters of `s` from position `from` on as a decimal number of at
/// most `limit`.
pub fn parse_digits(s: &str, from: usize, limit: u64) -> (r: Option<u64>)
    requires
        from <= s@.len(),
    ensures
        r == match bounded_decimal(s@.subrange(from as int, s@.len() as int), limit as nat) {
            Some(n) => Some(n as u64),
            None => None,
        },
{
    let n: usize = s.unicode_len();
    let ghost digits = s@.subrange(from as int, n as int);
    if from == n {
        return None;
    }
    let mut i: usize = from;
    let mut acc: u64 = 0;
    assert(s@.subrange(from as int, from as int) =~= Seq::<char>::empty());
    while i < n
        invariant
            from <= i <= n,
            n == s@.len(),
            digits == s@.subrange(from as int, n as int),
            all_digits(s@.subrange(from as int, i as int)),
            acc == decimal_value(s@.subrange(from as int, i as int)),
            acc <= limit,
        decreases n - i,
    {
        let c: char = s.get_char(i);
        let u: u32 = c as u32;
        if u < 0x30 || u > 0x39 {
            assert(!is_digit(digits[i - from]));
            return None;
        }
        let d: u64 = (u - 0x30) as u64;
        let ghost head = s@.subrange(from as int, i + 1);
        proof {
            assert(head.drop_last() =~= s@.subrange(from as int, i as int));
            assert(head.last() == c);
            assert(head =~= digits.subrange(0, i + 1 - from));
            lemma_decimal_value_prefix(digits, i + 1 - from);
        }
        if d > limit || acc > (limit - d) / 10 {
            return None;
        }
        acc = acc * 10 + d;
        i += 1;
    }
    assert(s@.subrange(from as int, i as int) =~= digits);
    Some(acc)
}

/// Reads `s` as a `usize` written in base ten.
pub fn parse_usize(s: &str) -> (r: Option<usize>)
    ensures
        r == parse_usize_spec(s@),
{
    let n: usize = s.unicode_len();
    let from: usize = if n > 0 && s.get_char(0) == '+' {
        1
    } else {
        0
    };
    assert(s@.subrange(0, n as int) =~= s@);
    match parse_digits(s, from, usize::MAX as u64) {
        Some(v) => Some(v as usize),
        None => None,
    }
}

/// Reads `s` as an `i64` written in base ten.
pub fn parse_i64(s: &str) -> (r: Option<i64>)
    ensures
        r == parse_i64_spec(s@),
{
    let n: usize = s.unicode_len();
    assert(s@.subrange(0, n as int) =~= s@);
    if n > 0 && s.get_char(0) == '-' {
        match parse_digits(s, 1, 0x8000_0000_0000_0000) {
            Some(v) => if v == 0x8000_0000_0000_0000 {
                Some(i64::MIN)
            } else {
                Some(-(v as i64))
            },
            None => None,
        }
    } else {
        let from: usize = if n > 0 && s.get_char(0) == '+' {
            1
        } else {
            0
        };
        match parse_digits(s, from, 0x7fff_ffff_ffff_ffff) {
            Some(v) => Some(v as i64),
            None => None,
        }
    }
}

/// The character that writes the digit `d`.
pub open spec fn digit_char(d: nat) -> char {
    if d == 0 {
        '0'
    } else if d == 1 {
        '1'
    } else if d == 2 {
        '2'
    } else if d == 3 {
        '3'
    } else if d == 4 {
        '4'
    } else if d == 5 {
        '5'
    } else if d == 6 {
        '6'
    } else if d == 7 {
        '7'
    } else if d == 8 {
        '8'
    } else {
        '9'
    }
}

/// `n` written in base ten without a sign or leading zeros.
pub open spec fn decimal_string(n: nat) -> Seq<char>
    decreases n,
{
    if n < 10 {
        seq![digit_char(n)]
    } else {
        decimal_string(n / 10).push(digit_char(n % 10))
    }
}

/// `v` written in base ten, with a `-` in front where it is negative.
pub open spec fn signed_decimal_string(v: int) -> Seq<char> {
    if v < 0 {
        seq!['-'] + decimal_string((-v) as nat)
    } else {
        decimal_string(v as nat)
    }
}

/// Writing a number and reading it back gives the number: what `decimal_string`
/// writes is a non-empty run of digits whose value is `n`.
pub proof fn lemma_decimal_string_value(n: nat)
    ensures
        decimal_string(n).len() > 0,
        all_digits(decimal_string(n)),
        decimal_value(decimal_string(n)) == n,
    decreases n,
{
    if n < 10 {
        let s = decimal_string(n);
        assert(s.drop_last() =~= Seq::<char>::empty());
        assert(decimal_value(s.drop_last()) == 0);
    } else {
        lemma_decimal_string_value(n / 10);
        let s = decimal_string(n);
        assert(s.drop_last() =~= decimal_string(n / 10));
        assert(is_digit(digit_char(n % 10)));
    }
}

/// A written number has no whitespace to trim.
pub proof fn lemma_decimal_string_trimmed(n: nat)
    ensures
        trimmed(decimal_string(n)) == decimal_string(n),
{
    lemma_decimal_string_value(n);
    let s = decimal_string(n);
    assert(is_digit(s[0]));
    assert(is_digit(s[s.len() - 1]));
}

/// A written number reads back as itself: what `decimal_string` writes for a number
/// that a `usize` can hold is read by `parse_usize_spec` as that number, and what
/// `signed_decimal_string` writes for an `i64` is read by `parse_i64_spec` as that
/// `i64`.
pub proof fn law_written_number_reads_back(n: usize, v: i64)
    ensures
        parse_usize_spec(decimal_string(n as nat)) == Some(n),
        parse_i64_spec(signed_decimal_string(v as int)) == Some(v),
{
    lemma_decimal_string_value(n as nat);
    assert(is_digit(decimal_string(n as nat)[0]));
    if v < 0 {
        let magnitude = (-(v as int)) as nat;
        lemma_decimal_string_value(magnitude);
        let s = signed_decimal_string(v as int);
        assert(s[0] == '-');
        assert(s.subrange(1, s.len() as int) =~= decimal_string(magnitude));
    } else {
        lemma_decimal_string_value(v as nat);
        assert(is_digit(decimal_string(v as nat)[0]));
    }
}

fn digit_str(d: u64) -> (r: &'static str)
    requires
        d < 10,
    ensures
        r@ == seq![digit_char(d as nat)],
{
    proof {
        reveal_strlit("0");
        reveal_strlit("1");
        reveal_strlit("2");
        reveal_strlit("3");
        reveal_strlit("4");
        reveal_strlit("5");
        reveal_strlit("6");
        reveal_strlit("7");
        reveal_strlit("8");
        reveal_strlit("9");
    }
    let r: &'static str = if d == 0 {
        "0"
    } else if d == 1 {
        "1"
    } else if d == 2 {
        "2"
    } else if d == 3 {
        "3"
    } else if d == 4 {
        "4"
    } else if d == 5 {
        "5"
    } else if d == 6 {
        "6"
    } else if d == 7 {
        "7"
    } else if d == 8 {
        "8"
    } else {
        "9"
    };
    assert(r@ =~= seq![digit_char(d as nat)]);
    r
}

/// Writes `n` in base ten.
pub fn u64_to_string(n: u64) -> (r: String)
    ensures
        r@ == decimal_string(n as nat),
    decreases n,
{
    if n < 10 {
        String::from_str(digit_str(n))
    } else {
        let mut s: String = u64_to_string(n / 10);
        s.append(digit_str(n % 10));
        assert(s@ =~= decimal_string(n as nat));
        s
    }
}

/// Writes `v` in base ten.
pub fn i64_to_string(v: i64) -> (r: String)
    ensures
        r@ == signed_decimal_string(v as int),
{
    if v < 0 {
        let magnitude: u64 = if v == i64::MIN {
            0x8000_0000_0000_0000
        } else {
            (-v) as u64
        };
        let digits: String = u64_to_string(magnitude);
        let mut s: String = String::from_str("-");
        s.append(digits.as_str());
        proof {
            reveal_strlit("-");
            assert(s@ =~= signed_decimal_string(v as int));
        }
        s
    } else {
        u64_to_string(v as u64)
    }
}

} // verus!
