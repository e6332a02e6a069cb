//! Numbers as text: hexadecimal and decimal digits, rendering and parsing.

use vstd::prelude::*;
use vstd::string::*;
use vstd::utf8::is_ascii_chars;

verus! {

/// The digit character for a value below sixteen, letters in upper case.
pub open spec fn hex_digit(n: int) -> char {
    if n == 0 { '0' } else if n == 1 { '1' } else if n == 2 { '2' } else if n == 3 { '3' }
    else if n == 4 { '4' } else if n == 5 { '5' } else if n == 6 { '6' } else if n == 7 { '7' }
    else if n == 8 { '8' } else if n == 9 { '9' } else if n == 10 { 'A' } else if n == 11 { 'B' }
    else if n == 12 { 'C' } else if n == 13 { 'D' } else if n == 14 { 'E' } else { 'F' }
}

/// Whether a character is a hexadecimal digit, in either case.
pub open spec fn is_hex_char(c: char) -> bool {
    ('0' <= c && c <= '9') || ('a' <= c && c <= 'f') || ('A' <= c && c <= 'F')
}

/// The value of a hexadecimal digit; zero for any other character.
pub open spec fn hex_value(c: char) -> nat {
    if '0' <= c && c <= '9' {
        (c as int - '0' as int) as nat
    } else if 'a' <= c && c <= 'f' {
        (c as int - 'a' as int + 10) as nat
    } else if 'A' <= c && c <= 'F' {
        (c as int - 'A' as int + 10) as nat
    } else {
        0
    }
}

/// Whether every character of a text is a hexadecimal digit.
pub open spec fn all_hex(s: Seq<char>) -> bool {
    forall|i: int| 0 <= i < s.len() ==> is_hex_char(#[trigger] s[i])
}

/// The number that a text of hexadecimal digits denotes, first digit most
/// significant.
pub open spec fn hex_number(s: Seq<char>) -> nat
    decreases s.len(),
{
    if s.len() == 0 {
        0
    } else {
        hex_number(s.drop_last()) * 16 + hex_value(s.last())
    }
}

/// The digits of a number in a base between two and sixteen, most
/// significant first, without leading zeros; zero is one digit.
pub open spec fn radix_digits(n: nat, base: nat) -> Seq<char>
    decreases n,
    via radix_digits_terminates
{
    if n < base || base < 2 {
        seq![hex_digit(n as int)]
    } else {
        radix_digits(n / base, base).push(hex_digit((n % base) as int))
    }
}

#[via_fn]
proof fn radix_digits_terminates(n: nat, base: nat) {
    if !(n < base || base < 2) {
        assert(n / base < n) by (nonlinear_arith)
            requires
                base >= 2,
                n >= base,
        ;
    }
}

/// A text filled up on the left with `'0'` to a minimum width.
pub open spec fn zero_padded(s: Seq<char>, width: nat) -> Seq<char> {
    if s.len() >= width {
        s
    } else {
        Seq::new((width - s.len()) as nat, |i: int| '0') + s
    }
}

/// Upper-case hexadecimal text of a number, at least `width` digits wide.
pub open spec fn hex_text(n: nat, width: nat) -> Seq<char> {
    zero_padded(radix_digits(n, 16), width)
}

/// Decimal text of a number.
pub open spec fn decimal_text(n: nat) -> Seq<char> {
    radix_digits(n, 10)
}

/// The two upper-case hexadecimal digits of a byte.
pub open spec fn byte_pair(b: u8) -> Seq<char> {
    seq![hex_digit(b as int / 16), hex_digit(b as int % 16)]
}

/// Bytes as two-digit upper-case hexadecimal pairs with one space between
/// neighbours and none at either end.
pub open spec fn spaced_hex(data: Seq<u8>) -> Seq<char>
    decreases data.len(),
{
    if data.len() == 0 {
        Seq::empty()
    } else if data.len() == 1 {
        byte_pair(data[0])
    } else {
        spaced_hex(data.drop_last()) + seq![' '] + byte_pair(data.last())
    }
}

/// The bytes that a text of hexadecimal digit pairs denotes.
pub open spec fn hex_pairs(s: Seq<char>) -> Seq<u8> {
    Seq::new(s.len() / 2, |i: int| (hex_value(s[2 * i]) * 16 + hex_value(s[2 * i + 1])) as u8)
}

/// What parsing a text as a base-16 unsigned 32-bit number gives: an
/// optional `+`, then one or more hexadecimal digits whose value fits.
pub open spec fn hex_u32(s: Seq<char>) -> Option<u32> {
    let digits = unsigned_digits(s);
    if digits.len() > 0 && all_hex(digits) && hex_number(digits) <= u32::MAX {
        Some(hex_number(digits) as u32)
    } else {
        None
    }
}

/// A text without its leading `+`, if it has one.
pub open spec fn unsigned_digits(s: Seq<char>) -> Seq<char> {
    if s.len() > 0 && s[0] == '+' {
        s.skip(1)
    } else {
        s
    }
}

/// A prefix of a digit text never denotes more than the whole text.
pub proof fn lemma_hex_number_prefix(s: Seq<char>, k: int)
    requires
        0 <= k <= s.len(),
    ensures
        hex_number(s.take(k)) <= hex_number(s),
    decreases s.len() - k,
{
    if k == s.len() {
        assert(s.take(k) =~= s);
    } else {
        lemma_hex_number_prefix(s, k + 1);
        assert(s.take(k + 1).drop_last() =~= s.take(k));
    }
}

/// A digit character has the value it was made from.
pub proof fn lemma_digit_value(n: int)
    requires
        0 <= n < 16,
    ensures
        is_hex_char(hex_digit(n)),
        hex_value(hex_digit(n)) == n,
        hex_digit(n) != '+',
{
}

/// The digits of a number are hexadecimal digits and denote the number.
pub proof fn lemma_digits_denote(n: nat)
    ensures
        all_hex(radix_digits(n, 16)),
        hex_number(radix_digits(n, 16)) == n,
        radix_digits(n, 16).len() >= 1,
    decreases n,
{
    let digits = radix_digits(n, 16);
    if n < 16 {
        lemma_digit_value(n as int);
        assert(digits.drop_last() =~= Seq::<char>::empty());
        assert(hex_number(digits.drop_last()) == 0);
    } else {
        let front = radix_digits(n / 16, 16);
        lemma_digits_denote(n / 16);
        lemma_digit_value((n % 16) as int);
        assert(digits.drop_last() =~= front);
        assert forall|i: int| 0 <= i < digits.len() implies is_hex_char(#[trigger] digits[i]) by {
            if i < front.len() {
                assert(digits[i] == front[i]);
            }
        }
    }
}

/// Zeros in front of a digit text change neither what it denotes nor
/// that it is made of digits.
pub proof fn lemma_leading_zeros(zeros: nat, s: Seq<char>)
    ensures
        hex_number(Seq::new(zeros, |i: int| '0') + s) == hex_number(s),
        all_hex(s) ==> all_hex(Seq::new(zeros, |i: int| '0') + s),
    decreases s.len(), zeros,
{
    let front = Seq::new(zeros, |i: int| '0');
    let whole = front + s;
    if s.len() > 0 {
        lemma_leading_zeros(zeros, s.drop_last());
        assert(whole.drop_last() =~= front + s.drop_last());
        assert(whole.last() == s.last());
    } else if zeros > 0 {
        lemma_leading_zeros((zeros - 1) as nat, s);
        assert(whole.drop_last() =~= Seq::new((zeros - 1) as nat, |i: int| '0') + s);
        assert(whole.last() == '0');
    } else {
        assert(whole =~= s);
    }
    if all_hex(s) {
        assert forall|i: int| 0 <= i < whole.len() implies is_hex_char(#[trigger] whole[i]) by {
            if i >= zeros {
                assert(whole[i] == s[i - zeros]);
            }
        }
    }
}

/// Rendering a number in hexadecimal and reading the text back gives the
/// number again, whatever the width.
pub proof fn lemma_hex_round_trip(n: nat, width: nat)
    ensures
        all_hex(hex_text(n, width)),
        hex_number(hex_text(n, width)) == n,
        hex_text(n, width).len() >= 1,
        hex_text(n, width).len() >= width,
{
    let digits = radix_digits(n, 16);
    lemma_digits_denote(n);
    if digits.len() < width {
        lemma_leading_zeros((width - digits.len()) as nat, digits);
    }
}

/// Two identifiers with the same eight-digit rendering are the same
/// identifier, and parsing the rendering gives the identifier back.
pub proof fn lemma_hex8_is_faithful(a: u32, b: u32)
    ensures
        hex_u32(hex_text(a as nat, 8)) == Some(a),
        hex_text(a as nat, 8) == hex_text(b as nat, 8) ==> a == b,
{
    lemma_hex_round_trip(a as nat, 8);
    lemma_hex_round_trip(b as nat, 8);
    let text = hex_text(a as nat, 8);
    assert(is_hex_char(text[0]));
    assert(unsigned_digits(text) == text);
}

/// A text that holds a character beyond ASCII is not made of hexadecimal
/// digits, with its leading `+` or without.
pub proof fn lemma_beyond_ascii_is_no_hex(s: Seq<char>)
    requires
        !is_ascii_chars(s),
    ensures
        !all_hex(s),
        !all_hex(unsigned_digits(s)),
{
    let bad = choose|i: int| 0 <= i < s.len() && !('\0' <= #[trigger] s[i] <= '\u{7f}');
    assert(!is_hex_char(s[bad]));
    if s.len() > 0 && s[0] == '+' {
        assert(unsigned_digits(s)[bad - 1] == s[bad]);
    }
}

/// One upper-case digit as text.
fn hex_digit_str(n: u8) -> (r: &'static str)
    requires
        n < 16,
    ensures
        r@ == seq![hex_digit(n as int)],
{
    proof {
        reveal_strlit("0"); reveal_strlit("1"); reveal_strlit("2"); reveal_strlit("3");
        reveal_strlit("4"); reveal_strlit("5"); reveal_strlit("6"); reveal_strlit("7");
        reveal_strlit("8"); reveal_strlit("9"); reveal_strlit("A"); reveal_strlit("B");
        reveal_strlit("C"); reveal_strlit("D"); reveal_strlit("E"); reveal_strlit("F");
    }
    let r = match n {
        0 => "0", 1 => "1", 2 => "2", 3 => "3", 4 => "4", 5 => "5", 6 => "6", 7 => "7",
        8 => "8", 9 => "9", 10 => "A", 11 => "B", 12 => "C", 13 => "D", 14 => "E", _ => "F",
    };
    assert(r@ =~= seq![hex_digit(n as int)]);
    r
}

/// The value of an ASCII byte read as a hexadecimal digit.
pub fn hex_byte_value(b: u8) -> (r: Option<u8>)
    ensures
        b < 128 ==> (r is Some <==> is_hex_char(b as char)),
        b < 128 && r is Some ==> r->0 == hex_value(b as char) && r->0 < 16,
        b >= 128 ==> r is None,
{
    if 48 <= b && b <= 57 {
        Some(b - 48)
    } else if 97 <= b && b <= 102 {
        Some(b - 97 + 10)
    } else if 65 <= b && b <= 70 {
        Some(b - 65 + 10)
    } else {
        None
    }
}

/// Renders a number in the given base, at least `width` digits wide, with
/// upper-case letters and zeros for padding.
fn radix_text(n: u64, base: u64, width: usize) -> (r: String)
    requires
        2 <= base <= 16,
    ensures
        r@ == zero_padded(radix_digits(n as nat, base as nat), width as nat),
{
    let mut low_first: Vec<u8> = Vec::new();
    let mut rest: u64 = n;
    let ghost mut tail: Seq<char> = Seq::empty();
    loop
        invariant_except_break
            2 <= base <= 16,
            radix_digits(n as nat, base as nat) == radix_digits(rest as nat, base as nat) + tail,
        invariant
            2 <= base <= 16,
            tail.len() == low_first@.len(),
            forall|j: int| 0 <= j < low_first@.len() ==> low_first@[j] < 16,
            forall|j: int|
                0 <= j < low_first@.len() ==> tail[low_first@.len() - 1 - j] == hex_digit(
                    #[trigger] low_first@[j] as int,
                ),
        ensures
            radix_digits(n as nat, base as nat) == tail,
            tail.len() >= 1,
        decreases rest,
    {
        let d: u8 = (rest % base) as u8;
        let before: u64 = rest;
        let ghost old_tail = tail;
        low_first.push(d);
        proof {
            tail = seq![hex_digit(d as int)] + old_tail;
        }
        rest = rest / base;
        if before < base {
            assert(before % base == before) by (nonlinear_arith)
                requires
                    before < base,
            ;
            assert(radix_digits(before as nat, base as nat) + old_tail =~= tail);
            break;
        }
        assert(radix_digits(before as nat, base as nat) == radix_digits(
            rest as nat,
            base as nat,
        ).push(hex_digit(d as int)));
        assert(radix_digits(before as nat, base as nat) + old_tail =~= radix_digits(
            rest as nat,
            base as nat,
        ) + tail);
    }
    let mut out = String::new();
    let mut pad: usize = low_first.len();
    while pad < width
        invariant
            pad >= low_first@.len(),
            pad == low_first@.len() || pad <= width,
            out@ == Seq::new((pad - low_first@.len()) as nat, |i: int| '0'),
        decreases width - pad,
    {
        proof {
            reveal_strlit("0");
        }
        out.append("0");
        pad = pad + 1;
        assert(out@ =~= Seq::new((pad - low_first@.len()) as nat, |i: int| '0'));
    }
    let ghost padding = out@;
    let mut left: usize = low_first.len();
    while left > 0
        invariant
            left <= low_first@.len(),
            tail.len() == low_first@.len(),
            forall|j: int| 0 <= j < low_first@.len() ==> low_first@[j] < 16,
            forall|j: int|
                0 <= j < low_first@.len() ==> tail[low_first@.len() - 1 - j] == hex_digit(
                    #[trigger] low_first@[j] as int,
                ),
            out@ == padding + tail.take(low_first@.len() - left),
        decreases left,
    {
        left = left - 1;
        let d = low_first[left];
        out.append(hex_digit_str(d));
        assert(tail.take(low_first@.len() - left) =~= tail.take(low_first@.len() - left - 1).push(
            tail[low_first@.len() - 1 - left],
        ));
        assert(out@ =~= padding + tail.take(low_first@.len() - left));
    }
    assert(tail.take(tail.len() as int) =~= tail);
    assert(out@ =~= zero_padded(tail, width as nat));
    out
}

/// Renders a number as upper-case hexadecimal digits, at least `width` of
/// them, with zeros for padding.
pub fn hex_string(n: u64, width: usize) -> (r: String)
    ensures
        r@ == hex_text(n as nat, width as nat),
{
    radix_text(n, 16, width)
}

/// Renders a number as decimal digits.
pub fn decimal_string(n: u64) -> (r: String)
    ensures
        r@ == decimal_text(n as nat),
{
    let r = radix_text(n, 10, 0);
    assert(r@ =~= decimal_text(n as nat));
    r
}

/// Renders an identifier as eight upper-case hexadecimal digits.
pub fn hex8(id: u32) -> (r: String)
    ensures
        r@ == hex_text(id as nat, 8),
{
    hex_string(id as u64, 8)
}

/// Renders bytes as space-separated upper-case hexadecimal pairs, with no
/// separator after the last pair.
pub fn array_to_hex_string(data: &[u8]) -> (r: String)
    ensures
        r@ == spaced_hex(data@),
{
    let mut out = String::new();
    let mut i: usize = 0;
    proof {
        assert(data@.take(0) =~= Seq::<u8>::empty());
    }
    while i < data.len()
        invariant
            i <= data.len(),
            out@ == spaced_hex(data@.take(i as int)),
        decreases data.len() - i,
    {
        let b = data[i];
        if i > 0 {
            proof {
                reveal_strlit(" ");
            }
            out.append(" ");
        }
        out.append(hex_digit_str(b / 16));
        out.append(hex_digit_str(b % 16));
        proof {
            let next = data@.take(i + 1);
            assert(next.drop_last() =~= data@.take(i as int));
            assert(next.last() == b);
            if i == 0 {
                assert(next.len() == 1);
                assert(out@ =~= byte_pair(b));
            } else {
                assert(out@ =~= spaced_hex(data@.take(i as int)) + seq![' '] + byte_pair(b));
            }
        }
        i = i + 1;
    }
    assert(data@.take(data@.len() as int) =~= data@);
    out
}

/// Parses a text as a base-16 unsigned 32-bit number: an optional `+`
/// followed by at least one hexadecimal digit, the value within range.
pub fn parse_hex_u32(text: &str) -> (r: Option<u32>)
    ensures
        r == hex_u32(text@),
{
    broadcast use is_ascii_spec_bytes;

    if !text.is_ascii() {
        proof {
            lemma_beyond_ascii_is_no_hex(text@);
        }
        return None;
    }
    let bytes = text.as_bytes();
    let n = bytes.len();
    proof {
        is_ascii_spec_bytes(text);
    }
    assert(n == text@.len());
    let start: usize = if n > 0 && bytes[0] == 43 { 1 } else { 0 };
    let ghost digits = unsigned_digits(text@);
    assert(digits =~= text@.skip(start as int));
    if start == n {
        return None;
    }
    let mut acc: u64 = 0;
    let mut i: usize = start;
    proof {
        assert(digits.take(0) =~= Seq::<char>::empty());
    }
    while i < n
        invariant
            start <= i <= n,
            n == text@.len(),
            is_ascii(text),
            bytes@ == text.spec_bytes(),
            digits == text@.skip(start as int),
            digits == unsigned_digits(text@),
            all_hex(digits.take(i - start)),
            acc == hex_number(digits.take(i - start)),
            acc <= u32::MAX,
        decreases n - i,
    {
        let b = bytes[i];
        let ghost c = text@[i as int];
        proof {
            is_ascii_spec_bytes(text);
        }
        assert(c == digits[i - start]);
        assert(b as char == c);
        let ghost next = digits.take(i - start + 1);
        proof {
            assert(next.drop_last() =~= digits.take(i - start));
            assert(next.last() == c);
        }
        match hex_byte_value(b) {
            None => {
                assert(!is_hex_char(digits[i - start]));
                return None;
            },
            Some(v) => {
                acc = acc * 16 + v as u64;
                assert(acc == hex_number(next));
                if acc > 0xFFFF_FFFF {
                    proof {
                        lemma_hex_number_prefix(digits, i - start + 1);
                    }
                    return None;
                }
                assert forall|j: int| 0 <= j < next.len() implies is_hex_char(
                    #[trigger] next[j],
                ) by {
                    if j < next.len() - 1 {
                        assert(next[j] == digits.take(i - start)[j]);
                    }
                }
            },
        }
        i = i + 1;
    }
    assert(digits.take(digits.len() as int) =~= digits);
    Some(acc as u32)
}

} // verus!
