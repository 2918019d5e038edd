//! Small text helpers with exact contracts over character sequences.

use vstd::prelude::*;
use vstd::utf8::*;

verus! {

/// Whether two strings hold the same characters.
pub fn str_eq(a: &str, b: &str) -> (same: bool)
    ensures
        same == (a@ == b@),
{
    let x = a.as_bytes();
    let y = b.as_bytes();
    proof {
        encode_utf8_decode_utf8(a@);
        encode_utf8_decode_utf8(b@);
    }
    if x.len() != y.len() {
        return false;
    }
    let mut i: usize = 0;
    while i < x.len()
        invariant
            i <= x.len(),
            x.len() == y.len(),
            x@ == encode_utf8(a@),
            y@ == encode_utf8(b@),
            forall|k: int| 0 <= k < i ==> x@[k] == y@[k],
        decreases x.len() - i,
    {
        if x[i] != y[i] {
            return false;
        }
        i += 1;
    }
    assert(x@ =~= y@);
    true
}

/// A character with an upper-case ASCII letter turned into its lower-case
/// form; every other character is kept.
pub open spec fn ascii_lower(c: char) -> char {
    if 'A' <= c <= 'Z' {
        ((c as u8 + 32) as u8) as char
    } else {
        c
    }
}

/// A text with `ascii_lower` applied to each character.
pub open spec fn ascii_lowercase(s: Seq<char>) -> Seq<char> {
    Seq::new(s.len(), |i: int| ascii_lower(s[i]))
}

/// `str::to_ascii_lowercase` of the standard library. Its documentation
/// promises a copy of the text in which the letters `A` to `Z` are replaced
/// by `a` to `z` and every other character is unchanged.
pub assume_specification[ str::to_ascii_lowercase ](s: &str) -> (lowered: String)
    ensures
        lowered@ == ascii_lowercase(s@),
;

/// One of the ten decimal digits.
pub open spec fn is_digit(c: char) -> bool {
    '0' <= c <= '9'
}

/// The number a decimal digit stands for.
pub open spec fn digit_of(c: char) -> nat {
    (c as nat - '0' as nat) as nat
}

/// The character that writes a number below ten.
pub open spec fn digit_char(d: nat) -> char {
    (d + '0' as nat) as char
}

pub open spec fn all_digits(s: Seq<char>) -> bool {
    forall|i: int| 0 <= i < s.len() ==> is_digit(#[trigger] s[i])
}

/// The number written by a run of decimal digits, most significant first.
pub open spec fn digits_value(s: Seq<char>) -> nat
    decreases s.len(),
{
    if s.len() == 0 {
        0
    } else {
        digits_value(s.drop_last()) * 10 + digit_of(s.last())
    }
}

/// The text with one leading plus sign taken off, if there is one.
pub open spec fn unsigned_part(s: Seq<char>) -> Seq<char> {
    if s.len() > 0 && s[0] == '+' {
        s.drop_first()
    } else {
        s
    }
}

/// The 64-bit number that a text denotes in decimal: an optional plus sign,
/// then at least one digit and nothing else, with a value that fits.
pub open spec fn decimal_u64(s: Seq<char>) -> Option<u64> {
    let body = unsigned_part(s);
    if body.len() > 0 && all_digits(body) && digits_value(body) <= u64::MAX {
        Some(digits_value(body) as u64)
    } else {
        None
    }
}

/// The shortest decimal writing of a number.
pub open spec fn decimal_digits(n: nat) -> Seq<char>
    decreases n,
{
    if n < 10 {
        seq![digit_char(n)]
    } else {
        decimal_digits(n / 10).push(digit_char(n % 10))
    }
}

proof fn lemma_digits_value_prefix(s: Seq<char>, k: int)
    requires
        0 <= k <= s.len(),
    ensures
        digits_value(s.take(k)) <= digits_value(s),
    decreases s.len() - k,
{
    if k == s.len() {
        assert(s.take(k) =~= s);
    } else {
        lemma_digits_value_prefix(s, k + 1);
        assert(s.take(k + 1).drop_last() =~= s.take(k));
    }
}

proof fn lemma_digits_step(s: Seq<char>, k: int)
    requires
        0 <= k < s.len(),
        all_digits(s.take(k)),
        is_digit(s[k]),
    ensures
        all_digits(s.take(k + 1)),
        digits_value(s.take(k + 1)) == digits_value(s.take(k)) * 10 + digit_of(s[k]),
        digits_value(s.take(k + 1)) <= digits_value(s),
{
    let longer = s.take(k + 1);
    assert(longer.drop_last() =~= s.take(k));
    assert(longer.last() == s[k]);
    assert forall|j: int| 0 <= j < longer.len() implies is_digit(#[trigger] longer[j]) by {
        if j < k {
            assert(longer[j] == s.take(k)[j]);
        }
    }
    lemma_digits_value_prefix(s, k + 1);
}

/// The bytes of an ASCII text are its characters, one for one.
spec fn spelled_by(chars: Seq<char>, bytes: Seq<u8>) -> bool {
    &&& chars.len() == bytes.len()
    &&& forall|k: int| 0 <= k < chars.len() ==> (#[trigger] chars[k]) as u8 == bytes[k]
    &&& forall|k: int| 0 <= k < chars.len() ==> '\0' <= #[trigger] chars[k] <= '\u{7f}'
}

proof fn lemma_spelled_digit(chars: Seq<char>, bytes: Seq<u8>, k: int)
    requires
        spelled_by(chars, bytes),
        0 <= k < chars.len(),
    ensures
        is_digit(chars[k]) <==> 48 <= bytes[k] <= 57,
        is_digit(chars[k]) ==> digit_of(chars[k]) == bytes[k] - 48,
        chars[k] == '+' <==> bytes[k] == 43,
{
    let c = chars[k];
    assert(c as u8 == bytes[k]);
    assert('\0' <= c <= '\u{7f}');
}

proof fn lemma_not_ascii_not_decimal(s: Seq<char>)
    requires
        !is_ascii_chars(s),
    ensures
        decimal_u64(s) is None,
{
    let i = choose|i: int| 0 <= i < s.len() && !('\0' <= #[trigger] s[i] <= '\u{7f}');
    let body = unsigned_part(s);
    if body.len() == s.len() {
        assert(!is_digit(body[i]));
    } else {
        assert(body[i - 1] == s[i]);
        assert(!is_digit(body[i - 1]));
    }
}

/// Reads a decimal number.
pub fn parse_u64(s: &str) -> (number: Option<u64>)
    ensures
        number == decimal_u64(s@),
{
    if !s.is_ascii() {
        proof {
            lemma_not_ascii_not_decimal(s@);
        }
        return None;
    }
    let bytes = s.as_bytes();
    proof {
        is_ascii_chars_encode_utf8(s@);
        assert(spelled_by(s@, bytes@));
    }
    let n = bytes.len();
    let mut start: usize = 0;
    if n > 0 && bytes[0] == 43 {
        start = 1;
    }
    let ghost body = s@.subrange(start as int, n as int);
    proof {
        if n > 0 {
            lemma_spelled_digit(s@, bytes@, 0);
        }
        assert(body =~= unsigned_part(s@));
    }
    if start == n {
        return None;
    }
    let mut acc: u64 = 0;
    let mut i: usize = start;
    proof {
        assert(body.take(0) =~= Seq::<char>::empty());
    }
    while i < n
        invariant
            start <= i <= n,
            start < n,
            n == bytes@.len(),
            spelled_by(s@, bytes@),
            body == unsigned_part(s@),
            body == s@.subrange(start as int, n as int),
            all_digits(body.take(i - start)),
            acc == digits_value(body.take(i - start)),
        decreases n - i,
    {
        let b = bytes[i];
        proof {
            lemma_spelled_digit(s@, bytes@, i as int);
            assert(body[i - start] == s@[i as int]);
        }
        if b < 48 || b > 57 {
            return None;
        }
        let d: u64 = (b - 48) as u64;
        proof {
            lemma_digits_step(body, i - start);
        }
        let shifted = match acc.checked_mul(10) {
            Some(v) => v,
            None => {
                return None;
            },
        };
        acc = match shifted.checked_add(d) {
            Some(v) => v,
            None => {
                return None;
            },
        };
        i += 1;
    }
    assert(body.take(i - start) =~= body);
    Some(acc)
}

fn digit_str(d: u64) -> (text: &'static str)
    requires
        d < 10,
    ensures
        text@ == seq![digit_char(d as nat)],
{
    proof {
        reveal_strlit("0");
        reveal_strlit("1");
        reveal_strlit("2");
        reveal_strlit("3");
        reveal_strlit("4");
        reveal_strlit("5");
        reveal_strlit("6");
        reveal_strlit("7");
        reveal_strlit("8");
        reveal_strlit("9");
    }
    let text = if d == 0 {
        "0"
    } else if d == 1 {
        "1"
    } else if d == 2 {
        "2"
    } else if d == 3 {
        "3"
    } else if d == 4 {
        "4"
    } else if d == 5 {
        "5"
    } else if d == 6 {
        "6"
    } else if d == 7 {
        "7"
    } else if d == 8 {
        "8"
    } else {
        "9"
    };
    assert(text@ =~= seq![digit_char(d as nat)]);
    text
}

/// Appends the decimal writing of a number to a text.
pub fn push_decimal(out: &mut String, n: u64)
    ensures
        final(out)@ == old(out)@ + decimal_digits(n as nat),
    decreases n,
{
    if n >= 10 {
        push_decimal(out, n / 10);
    }
    out.append(digit_str(n % 10));
    assert(out@ =~= old(out)@ + decimal_digits(n as nat));
}

/// Writes a number in decimal.
pub fn format_u64(n: u64) -> (text: String)
    ensures
        text@ == decimal_digits(n as nat),
{
    let mut text = String::new();
    push_decimal(&mut text, n);
    assert(text@ =~= decimal_digits(n as nat));
    text
}

/// What the decimal writing of a number looks like: digits only, at least
/// one of them, and their value is the number.
pub proof fn lemma_decimal_digits(n: nat)
    ensures
        decimal_digits(n).len() > 0,
        all_digits(decimal_digits(n)),
        digits_value(decimal_digits(n)) == n,
    decreases n,
{
    if n < 10 {
        let s = decimal_digits(n);
        assert(s.drop_last() =~= Seq::<char>::empty());
        assert(digits_value(s.drop_last()) == 0);
    } else {
        lemma_decimal_digits(n / 10);
        let shorter = decimal_digits(n / 10);
        let s = decimal_digits(n);
        assert(s.drop_last() =~= shorter);
        assert(s.last() == digit_char(n % 10));
    }
}

/// Reading back what `format_u64` wrote gives the number that was written.
pub proof fn lemma_decimal_round_trip(n: u64)
    ensures
        decimal_u64(decimal_digits(n as nat)) == Some(n),
{
    lemma_decimal_digits(n as nat);
    let s = decimal_digits(n as nat);
    assert(is_digit(s[0]));
    assert(unsigned_part(s) == s);
}

/// The decimal writing of a number that may be negative: a minus sign
/// before the digits of a negative one.
pub open spec fn signed_digits(n: int) -> Seq<char> {
    if n < 0 {
        "-"@ + decimal_digits((-n) as nat)
    } else {
        decimal_digits(n as nat)
    }
}

/// Appends the decimal writing of a number that may be negative.
pub fn push_signed(out: &mut String, n: i64)
    ensures
        final(out)@ == old(out)@ + signed_digits(n as int),
{
    if n < 0 {
        out.append("-");
        let size: u64 = (-(n as i128)) as u64;
        push_decimal(out, size);
        assert(out@ =~= old(out)@ + signed_digits(n as int));
    } else {
        push_decimal(out, n as u64);
    }
}

} // verus!
