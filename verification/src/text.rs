//! Small verified text helpers: decimal rendering of numbers, decimal
//! parsing with a saturation bound, ASCII case folding and line-ending
//! normalisation.

use vstd::prelude::*;

verus! {

/// The decimal digit character for a value below ten.
pub open spec fn dec_digit(d: nat) -> char {
    if d == 0 {
        '0'
    } else if d == 1 {
        '1'
    } else if d == 2 {
        '2'
    } else if d == 3 {
        '3'
    } else if d == 4 {
        '4'
    } else if d == 5 {
        '5'
    } else if d == 6 {
        '6'
    } else if d == 7 {
        '7'
    } else if d == 8 {
        '8'
    } else {
        '9'
    }
}

/// The decimal rendering of a natural number, without leading zeros
/// (a single zero for the number zero).
pub open spec fn dec_str_of(n: nat) -> Seq<char>
    decreases n,
{
    if n < 10 {
        seq![dec_digit(n)]
    } else {
        dec_str_of(n / 10).push(dec_digit(n % 10))
    }
}

fn digit_str(d: u64) -> (s: &'static str)
    requires
        d < 10,
    ensures
        s@ =~= seq![dec_digit(d as nat)],
{
    proof {
        reveal_strlit("0");
        reveal_strlit("1");
        reveal_strlit("2");
        reveal_strlit("3");
        reveal_strlit("4");
        reveal_strlit("5");
        reveal_strlit("6");
        reveal_strlit("7");
        reveal_strlit("8");
        reveal_strlit("9");
    }
    match d {
        0 => "0",
        1 => "1",
        2 => "2",
        3 => "3",
        4 => "4",
        5 => "5",
        6 => "6",
        7 => "7",
        8 => "8",
        _ => "9",
    }
}

/// Whether a character is a decimal digit.
pub open spec fn is_digit_char(c: char) -> bool {
    '0' <= c && c <= '9'
}

/// A number rendered as exactly two decimal digits, zero-padded.
pub open spec fn two_digit_str(n: nat) -> Seq<char> {
    seq![dec_digit(n / 10 % 10), dec_digit(n % 10)]
}

/// A number rendered as exactly four decimal digits, zero-padded.
pub open spec fn four_digit_str(n: nat) -> Seq<char> {
    seq![
        dec_digit(n / 1000 % 10),
        dec_digit(n / 100 % 10),
        dec_digit(n / 10 % 10),
        dec_digit(n % 10),
    ]
}

/// Render a number below one hundred as two zero-padded digits.
pub fn two_digit_string(n: u8) -> (s: String)
    requires
        n < 100,
    ensures
        s@ == two_digit_str(n as nat),
{
    let mut s = digit_str((n / 10) as u64).to_owned();
    s.append(digit_str((n % 10) as u64));
    assert(s@ =~= two_digit_str(n as nat));
    s
}

/// Render a number below ten thousand as four zero-padded digits.
pub fn four_digit_string(n: u16) -> (s: String)
    requires
        n < 10000,
    ensures
        s@ == four_digit_str(n as nat),
{
    let mut s = digit_str((n / 1000) as u64).to_owned();
    s.append(digit_str((n / 100 % 10) as u64));
    s.append(digit_str((n / 10 % 10) as u64));
    s.append(digit_str((n % 10) as u64));
    assert(s@ =~= four_digit_str(n as nat));
    s
}

/// Render a number in decimal.
pub fn dec_string(n: u64) -> (s: String)
    ensures
        s@ == dec_str_of(n as nat),
    decreases n,
{
    if n < 10 {
        digit_str(n).to_owned()
    } else {
        let mut s = dec_string(n / 10);
        s.append(digit_str(n % 10));
        assert(s@ =~= dec_str_of(n as nat));
        s
    }
}

/// The number of characters [`dec_str_of`] yields.
pub open spec fn dec_len_of(n: nat) -> nat
    decreases n,
{
    if n < 10 {
        1
    } else {
        dec_len_of(n / 10) + 1
    }
}

/// Powers of ten.
pub open spec fn pow10(k: nat) -> nat
    decreases k,
{
    if k == 0 {
        1
    } else {
        10 * pow10((k - 1) as nat)
    }
}

/// A number below the k-th power of ten takes at most k digits.
proof fn lemma_dec_len_pow(n: nat, k: nat)
    requires
        k >= 1,
        n < pow10(k),
    ensures
        dec_len_of(n) <= k,
    decreases k,
{
    if n >= 10 {
        assert(pow10(k) == 10 * pow10((k - 1) as nat));
        assert(n / 10 < pow10((k - 1) as nat)) by (nonlinear_arith)
            requires
                n < pow10(k),
                pow10(k) == 10 * pow10((k - 1) as nat),
                n >= 10,
        ;
        lemma_dec_len_pow(n / 10, (k - 1) as nat);
    }
}

/// How many characters a number takes in decimal.
pub fn dec_len(n: u64) -> (r: usize)
    ensures
        r == dec_len_of(n as nat),
        1 <= r <= 20,
    decreases n,
{
    if n < 10 {
        1
    } else {
        proof {
            reveal_with_fuel(pow10, 21);
            assert(((n / 10) as nat) < pow10(19));
            lemma_dec_len_pow((n / 10) as nat, 19);
        }
        let r = dec_len(n / 10);
        r + 1
    }
}

/// A character folded to lower case, for the ASCII letters.
pub open spec fn lower_char(c: char) -> char {
    match c {
        'A' => 'a',
        'B' => 'b',
        'C' => 'c',
        'D' => 'd',
        'E' => 'e',
        'F' => 'f',
        'G' => 'g',
        'H' => 'h',
        'I' => 'i',
        'J' => 'j',
        'K' => 'k',
        'L' => 'l',
        'M' => 'm',
        'N' => 'n',
        'O' => 'o',
        'P' => 'p',
        'Q' => 'q',
        'R' => 'r',
        'S' => 's',
        'T' => 't',
        'U' => 'u',
        'V' => 'v',
        'W' => 'w',
        'X' => 'x',
        'Y' => 'y',
        'Z' => 'z',
        _ => c,
    }
}

/// A text folded to lower case character by character.
pub open spec fn lower_seq(s: Seq<char>) -> Seq<char> {
    s.map_values(|c: char| lower_char(c))
}

/// Fold a character to lower case.
pub fn lower_char_exec(c: char) -> (r: char)
    ensures
        r == lower_char(c),
{
    match c {
        'A' => 'a',
        'B' => 'b',
        'C' => 'c',
        'D' => 'd',
        'E' => 'e',
        'F' => 'f',
        'G' => 'g',
        'H' => 'h',
        'I' => 'i',
        'J' => 'j',
        'K' => 'k',
        'L' => 'l',
        'M' => 'm',
        'N' => 'n',
        'O' => 'o',
        'P' => 'p',
        'Q' => 'q',
        'R' => 'r',
        'S' => 's',
        'T' => 't',
        'U' => 'u',
        'V' => 'v',
        'W' => 'w',
        'X' => 'x',
        'Y' => 'y',
        'Z' => 'z',
        _ => c,
    }
}

/// Whether the first text, folded to lower case, is a prefix of the
/// second.
pub fn folded_is_prefix(s: &str, of: &str) -> (r: bool)
    ensures
        r == lower_seq(s@).is_prefix_of(of@),
{
    let n = s.unicode_len();
    let m = of.unicode_len();
    if n > m {
        assert(lower_seq(s@).len() == s@.len());
        return false;
    }
    let mut i: usize = 0;
    while i < n
        invariant
            i <= n,
            n == s@.len(),
            n <= of@.len(),
            forall|j: int| 0 <= j < i ==> lower_seq(s@)[j] == of@[j],
        decreases n - i,
    {
        let c = lower_char_exec(s.get_char(i));
        if c != of.get_char(i) {
            assert(lower_seq(s@)[i as int] != of@[i as int]);
            return false;
        }
        i = i + 1;
    }
    proof {
        assert(lower_seq(s@) =~= of@.subrange(0, n as int));
    }
    true
}

/// Whether two texts hold the same characters.
pub fn str_eq(a: &str, b: &str) -> (r: bool)
    ensures
        r == (a@ == b@),
{
    let n = a.unicode_len();
    let m = b.unicode_len();
    if n != m {
        return false;
    }
    let mut i: usize = 0;
    while i < n
        invariant
            i <= n,
            n == a@.len() == b@.len(),
            forall|j: int| 0 <= j < i ==> a@[j] == b@[j],
        decreases n - i,
    {
        if a.get_char(i) != b.get_char(i) {
            return false;
        }
        i = i + 1;
    }
    proof {
        assert(a@ =~= b@);
    }
    true
}

/// The mathematical value of a digit sequence, most significant first.
pub open spec fn digits_val(s: Seq<char>) -> int
    decreases s.len(),
{
    if s.len() == 0 {
        0
    } else {
        digits_val(s.drop_last()) * 10 + (s.last() as int - '0' as int)
    }
}

/// A digit text's value is never negative.
pub proof fn lemma_digits_val_nonneg(s: Seq<char>)
    requires
        forall|i: int| 0 <= i < s.len() ==> is_digit_char(#[trigger] s[i]),
    ensures
        digits_val(s) >= 0,
    decreases s.len(),
{
    if s.len() > 0 {
        lemma_digits_val_nonneg(s.drop_last());
    }
}

/// The digit part of an integer text: what follows one optional sign.
pub open spec fn sign_digits(s: Seq<char>) -> Seq<char> {
    if s.len() > 0 && (s[0] == '+' || s[0] == '-') {
        s.skip(1)
    } else {
        s
    }
}

/// Whether a text is a decimal integer: an optional sign, then at least
/// one digit and nothing else.
pub open spec fn is_int_str(s: Seq<char>) -> bool {
    &&& sign_digits(s).len() > 0
    &&& forall|i: int|
        0 <= i < sign_digits(s).len() ==> is_digit_char(#[trigger] sign_digits(s)[i])
}

/// The value of a decimal integer text, saturated at the given bound on
/// its magnitude.
pub open spec fn int_val_sat(s: Seq<char>, bound: int) -> int {
    let mag = digits_val(sign_digits(s));
    let sat = if mag > bound {
        bound
    } else {
        mag
    };
    if s.len() > 0 && s[0] == '-' {
        -sat
    } else {
        sat
    }
}

/// Parse a decimal integer, saturating its magnitude at the given bound.
///
/// Yields nothing when the text is not an optionally signed run of
/// digits; otherwise the value, pulled to the bound when its magnitude
/// exceeds it.
pub fn parse_int_sat(s: &str, bound: i32) -> (r: Option<i32>)
    requires
        0 < bound <= 1000000,
    ensures
        match r {
            Some(v) => is_int_str(s@) && v == int_val_sat(s@, bound as int) && -bound <= v
                <= bound,
            None => !is_int_str(s@),
        },
{
    let n = s.unicode_len();
    if n == 0 {
        return None;
    }
    let first = s.get_char(0);
    let negative = first == '-';
    let skip: usize = if first == '-' || first == '+' {
        1
    } else {
        0
    };
    if n == skip {
        return None;
    }
    let ghost digits = sign_digits(s@);
    assert(digits =~= s@.skip(skip as int));
    let mut i: usize = skip;
    let mut acc: i32 = 0;
    while i < n
        invariant
            skip <= i <= n,
            skip < n,
            skip <= 1,
            n == s@.len(),
            0 < bound <= 1000000,
            digits == sign_digits(s@),
            digits == s@.skip(skip as int),
            negative == (s@[0] == '-'),
            (skip == 1) == (s@[0] == '+' || s@[0] == '-'),
            forall|j: int| 0 <= j < i - skip ==> is_digit_char(#[trigger] digits[j]),
            0 <= acc <= bound,
            acc == (if digits_val(digits.take(i - skip)) > bound {
                bound as int
            } else {
                digits_val(digits.take(i - skip))
            }),
        decreases n - i,
    {
        let c = s.get_char(i);
        if !('0' <= c && c <= '9') {
            assert(!is_digit_char(digits[i - skip]));
            return None;
        }
        let d: i32 = (c as u32 as i32) - 48;
        proof {
            assert(d == c as int - '0' as int);
            assert(digits.take(i - skip + 1).drop_last() =~= digits.take(i - skip));
        }
        let next = acc * 10 + d;
        acc = if next > bound {
            bound
        } else {
            next
        };
        proof {
            let prev = digits_val(digits.take(i - skip));
            let cur = digits_val(digits.take(i - skip + 1));
            assert(cur == prev * 10 + d);
            if prev > bound {
                assert(cur > bound) by (nonlinear_arith)
                    requires
                        prev > bound,
                        bound > 0,
                        d >= 0,
                        cur == prev * 10 + d,
                ;
            }
        }
        i = i + 1;
    }
    proof {
        assert(digits.take(n - skip) =~= digits);
    }
    if negative {
        Some(-acc)
    } else {
        Some(acc)
    }
}

/// A text's bytes with carriage returns stripped and every line feed
/// rewritten as a carriage return and line feed pair.
pub open spec fn crlf_normalized(s: Seq<u8>) -> Seq<u8>
    decreases s.len(),
{
    if s.len() == 0 {
        Seq::empty()
    } else if s[0] == 13 {
        crlf_normalized(s.skip(1))
    } else if s[0] == 10 {
        seq![13u8, 10u8] + crlf_normalized(s.skip(1))
    } else {
        seq![s[0]] + crlf_normalized(s.skip(1))
    }
}

/// Normalise line endings for the wire: drop every carriage return, then
/// write every line feed as a carriage return and line feed pair.
pub fn normalize_crlf(input: &[u8]) -> (out: Vec<u8>)
    ensures
        out@ == crlf_normalized(input@),
{
    let n = input.len();
    let mut out: Vec<u8> = Vec::new();
    let mut i: usize = 0;
    proof {
        assert(input@.skip(0) =~= input@);
        assert(out@ + crlf_normalized(input@) =~= crlf_normalized(input@));
    }
    while i < n
        invariant
            i <= n,
            n == input@.len(),
            crlf_normalized(input@) == out@ + crlf_normalized(input@.skip(i as int)),
        decreases n - i,
    {
        let b = input[i];
        proof {
            assert(input@.skip(i as int)[0] == input@[i as int]);
            assert(input@.skip(i as int).skip(1) =~= input@.skip(i as int + 1));
        }
        if b == 13 {
        } else if b == 10 {
            out.push(13);
            out.push(10);
        } else {
            out.push(b);
        }
        i = i + 1;
    }
    proof {
        assert(input@.skip(n as int) =~= Seq::<u8>::empty());
        assert(out@ =~= out@ + crlf_normalized(input@.skip(n as int)));
    }
    out
}

} // verus!
