//! Text rendering of numbers and padded fields, as used in progress lines
//! and in the history dump.
//!
//! Every rendering is specified as a sequence of characters and built by
//! verified code; nothing here relies on a formatting routine.

use vstd::prelude::*;

verus! {

/// The sixteen digit characters, in order of their value.
pub open spec fn digit_chars() -> Seq<char> {
    seq!['0', '1', '2', '3', '4', '5', '6', '7', '8', '9', 'a', 'b', 'c', 'd', 'e', 'f']
}

/// Decimal digits of `n`, most significant first; `0` renders as one digit.
pub open spec fn dec_digits(n: nat) -> Seq<char>
    decreases n,
{
    if n < 10 {
        seq![digit_chars()[n as int]]
    } else {
        dec_digits(n / 10).push(digit_chars()[(n % 10) as int])
    }
}

/// Lower-case hexadecimal digits of `n`, most significant first; `0` renders
/// as one digit.
pub open spec fn hex_digits(n: nat) -> Seq<char>
    decreases n,
{
    if n < 16 {
        seq![digit_chars()[n as int]]
    } else {
        hex_digits(n / 16).push(digit_chars()[(n % 16) as int])
    }
}

/// Number of hexadecimal digits needed for `n`, counting none for zero.
pub open spec fn hex_len(n: nat) -> nat
    decreases n,
{
    if n == 0 {
        0
    } else {
        1 + hex_len(n / 16)
    }
}

/// Number of decimal digits of `n`; zero has one digit.
pub open spec fn dec_len(n: nat) -> nat
    decreases n,
{
    if n < 10 {
        1
    } else {
        1 + dec_len(n / 10)
    }
}

/// `count` spaces.
pub open spec fn spaces(count: nat) -> Seq<char> {
    Seq::new(count, |i: int| ' ')
}

/// `s` right-aligned in a field of at least `width` characters.
pub open spec fn pad_left(s: Seq<char>, width: nat) -> Seq<char> {
    if s.len() >= width {
        s
    } else {
        spaces((width - s.len()) as nat) + s
    }
}

/// `s` left-aligned in a field of at least `width` characters.
pub open spec fn pad_right(s: Seq<char>, width: nat) -> Seq<char> {
    if s.len() >= width {
        s
    } else {
        s + spaces((width - s.len()) as nat)
    }
}

/// The two characters that introduce a hexadecimal number.
pub open spec fn hex_prefix() -> Seq<char> {
    seq!['0', 'x']
}

/// `n` in decimal, right-aligned in `width` columns.
pub open spec fn dec_field(n: nat, width: nat) -> Seq<char> {
    pad_left(dec_digits(n), width)
}

/// `n` in prefixed hexadecimal, right-aligned in `width` columns; the prefix
/// counts towards the width.
pub open spec fn hex_field(n: nat, width: nat) -> Seq<char> {
    pad_left(hex_prefix() + hex_digits(n), width)
}

/// A byte as prefixed hexadecimal with exactly two digits.
pub open spec fn hex_byte(b: u8) -> Seq<char> {
    hex_prefix().push(digit_chars()[b as int / 16]).push(digit_chars()[b as int % 16])
}

/// Width of the widest field needed to print numbers up to `max`: in
/// hexadecimal the prefix plus the digits of `max` (no digit for zero), in
/// decimal the digits of `max`.
pub open spec fn field_width_spec(max: nat, hex: bool) -> nat {
    if hex {
        2 + hex_len(max)
    } else {
        dec_len(max)
    }
}

/// A 64-bit number has at most sixteen hexadecimal digits.
pub proof fn lemma_hex_len_bound(n: nat)
    requires
        n <= u64::MAX,
    ensures
        hex_len(n) <= 16,
{
    reveal_with_fuel(hex_len, 18);
    assert(n / 16 / 16 / 16 / 16 / 16 / 16 / 16 / 16 / 16 / 16 / 16 / 16 / 16 / 16 / 16 / 16 == 0);
}

/// A 64-bit number has at most twenty decimal digits.
pub proof fn lemma_dec_len_bound(n: nat)
    requires
        n <= u64::MAX,
    ensures
        1 <= dec_len(n) <= 20,
{
    reveal_with_fuel(dec_len, 21);
    assert(n / 10 / 10 / 10 / 10 / 10 / 10 / 10 / 10 / 10 / 10 / 10 / 10 / 10 / 10 / 10 / 10 / 10
        / 10 / 10 / 10 == 0);
}

/// The decimal rendering of a number is as long as the number has digits.
pub proof fn lemma_dec_digits_len(n: nat)
    ensures
        dec_digits(n).len() == dec_len(n),
    decreases n,
{
    if n >= 10 {
        lemma_dec_digits_len(n / 10);
    }
}

/// Number of hexadecimal digits needed for `n`, none for zero.
fn hex_len_of(n: u64) -> (c: usize)
    ensures
        c == hex_len(n as nat),
        c <= 16,
{
    let mut rest: u64 = n;
    let mut c: usize = 0;
    proof {
        lemma_hex_len_bound(n as nat);
    }
    while rest != 0
        invariant
            c + hex_len(rest as nat) == hex_len(n as nat),
            hex_len(n as nat) <= 16,
        decreases rest,
    {
        rest = rest / 16;
        c = c + 1;
    }
    c
}

/// Number of decimal digits of `n`.
pub(crate) fn dec_len_of(n: u64) -> (c: usize)
    ensures
        c == dec_len(n as nat),
        1 <= c <= 20,
{
    let mut rest: u64 = n;
    let mut c: usize = 1;
    proof {
        lemma_dec_len_bound(n as nat);
    }
    while rest >= 10
        invariant
            c + dec_len(rest as nat) == 1 + dec_len(n as nat),
            dec_len(n as nat) <= 20,
        decreases rest,
    {
        rest = rest / 10;
        c = c + 1;
    }
    c
}

/// Calculate the maximum field width needed to print numbers up to `max`.
pub fn field_width(max: usize, hex: bool) -> (w: usize)
    ensures
        w == field_width_spec(max as nat, hex),
{
    if hex {
        2 + hex_len_of(max as u64)
    } else {
        dec_len_of(max as u64)
    }
}

/// The one-character string for a digit value.
fn digit_str(d: u8) -> (s: &'static str)
    requires
        d < 16,
    ensures
        s@ == seq![digit_chars()[d as int]],
{
    let all = "0123456789abcdef";
    proof {
        reveal_strlit("0123456789abcdef");
        assert(all@ =~= digit_chars());
    }
    let s = all.substring_ascii(d as usize, d as usize + 1);
    assert(s@ =~= seq![digit_chars()[d as int]]);
    s
}

/// Appends the decimal digits of `n` to `out`.
pub fn push_dec(out: &mut String, n: u64)
    ensures
        final(out)@ == old(out)@ + dec_digits(n as nat),
    decreases n,
{
    if n >= 10 {
        push_dec(out, n / 10);
    }
    out.append(digit_str((n % 10) as u8));
    assert(final(out)@ =~= old(out)@ + dec_digits(n as nat));
}

/// Appends the hexadecimal digits of `n` to `out`.
pub fn push_hex(out: &mut String, n: u64)
    ensures
        final(out)@ == old(out)@ + hex_digits(n as nat),
    decreases n,
{
    if n >= 16 {
        push_hex(out, n / 16);
    }
    out.append(digit_str((n % 16) as u8));
    assert(final(out)@ =~= old(out)@ + hex_digits(n as nat));
}

/// Appends `count` spaces to `out`.
pub fn push_spaces(out: &mut String, count: usize)
    ensures
        final(out)@ == old(out)@ + spaces(count as nat),
{
    let mut i: usize = 0;
    while i < count
        invariant
            i <= count,
            out@ == old(out)@ + spaces(i as nat),
        decreases count - i,
    {
        out.append(" ");
        proof {
            reveal_strlit(" ");
            assert(out@ =~= old(out)@ + spaces((i + 1) as nat));
        }
        i = i + 1;
    }
}

/// Number of characters in the decimal rendering of `n`.
fn dec_count(n: u64) -> (c: usize)
    ensures
        c == dec_digits(n as nat).len(),
        1 <= c <= 20,
{
    proof {
        lemma_dec_digits_len(n as nat);
    }
    dec_len_of(n)
}

/// The hexadecimal rendering of a number is as long as the number has
/// digits, and one digit long for zero.
pub proof fn lemma_hex_digits_len(n: nat)
    ensures
        hex_digits(n).len() == if n == 0 {
            1
        } else {
            hex_len(n)
        },
    decreases n,
{
    reveal_with_fuel(hex_len, 2);
    if n >= 16 {
        lemma_hex_digits_len(n / 16);
    }
}

/// Number of characters in the hexadecimal rendering of `n`, without prefix.
fn hex_count(n: u64) -> (c: usize)
    ensures
        c == hex_digits(n as nat).len(),
        1 <= c <= 16,
{
    proof {
        lemma_hex_digits_len(n as nat);
    }
    if n == 0 {
        1
    } else {
        hex_len_of(n)
    }
}

/// Appends `n` in decimal, right-aligned in `width` columns.
pub fn push_dec_field(out: &mut String, n: u64, width: usize)
    ensures
        final(out)@ == old(out)@ + dec_field(n as nat, width as nat),
{
    let len = dec_count(n);
    if len < width {
        push_spaces(out, width - len);
    }
    push_dec(out, n);
    assert(final(out)@ =~= old(out)@ + dec_field(n as nat, width as nat));
}

/// Appends `n` in prefixed hexadecimal, right-aligned in `width` columns.
pub fn push_hex_field(out: &mut String, n: u64, width: usize)
    ensures
        final(out)@ == old(out)@ + hex_field(n as nat, width as nat),
{
    let len = hex_count(n) + 2;
    if len < width {
        push_spaces(out, width - len);
    }
    out.append("0x");
    proof {
        reveal_strlit("0x");
        assert("0x"@ =~= hex_prefix());
    }
    push_hex(out, n);
    assert(final(out)@ =~= old(out)@ + hex_field(n as nat, width as nat));
}

/// Appends a byte as prefixed hexadecimal with exactly two digits.
pub fn push_hex_byte(out: &mut String, b: u8)
    ensures
        final(out)@ == old(out)@ + hex_byte(b),
{
    out.append("0x");
    proof {
        reveal_strlit("0x");
        assert("0x"@ =~= hex_prefix());
    }
    out.append(digit_str(b / 16));
    out.append(digit_str(b % 16));
    assert(final(out)@ =~= old(out)@ + hex_byte(b));
}

/// Appends `text`, left-aligned in `width` columns.
pub fn push_text_field(out: &mut String, text: &str, width: usize)
    ensures
        final(out)@ == old(out)@ + pad_right(text@, width as nat),
{
    out.append(text);
    let len = text.unicode_len();
    if len < width {
        push_spaces(out, width - len);
    }
    assert(final(out)@ =~= old(out)@ + pad_right(text@, width as nat));
}

} // verus!
