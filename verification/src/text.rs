use vstd::prelude::*;

verus! {

/// The decimal digit character for `d` (which is below ten).
pub open spec fn digit_char(d: nat) -> char {
    (48 + d) as char
}

/// The lowercase hexadecimal digit character for `d` (which is below sixteen).
pub open spec fn hex_char(d: nat) -> char {
    if d < 10 {
        (48 + d) as char
    } else {
        (87 + d) as char
    }
}

pub open spec fn is_ascii_digit(c: char) -> bool {
    '0' <= c && c <= '9'
}

/// The decimal representation of `n`, most significant digit first, without leading zeros.
pub open spec fn decimal(n: nat) -> Seq<char>
    decreases n,
{
    if n < 10 {
        seq![digit_char(n)]
    } else {
        decimal(n / 10).push(digit_char(n % 10))
    }
}

/// The decimal representation of a signed integer, with a leading `-` when negative.
pub open spec fn signed_decimal(v: int) -> Seq<char> {
    if v < 0 {
        seq!['-'] + decimal((-v) as nat)
    } else {
        decimal(v as nat)
    }
}

/// The last `width` lowercase hexadecimal digits of `n`, most significant first.
pub open spec fn hex_fixed(n: nat, width: nat) -> Seq<char>
    decreases width,
{
    if width == 0 {
        seq![]
    } else {
        hex_fixed(n / 16, (width - 1) as nat).push(hex_char(n % 16))
    }
}

/// The value of a string of decimal digits.
pub open spec fn digits_value(s: Seq<char>) -> nat
    decreases s.len(),
{
    if s.len() == 0 {
        0
    } else {
        digits_value(s.drop_last()) * 10 + ((s.last() as int - 48) as nat)
    }
}

/// `s` does not contain the character `c`.
pub open spec fn lacks(s: Seq<char>, c: char) -> bool {
    forall|i: int| 0 <= i < s.len() ==> s[i] != c
}

/// `String::push` appends one character at the end of the string.
#[verifier::external_body]
pub(crate) fn push_char(s: &mut String, c: char)
    ensures
        final(s)@ == old(s)@.push(c),
{
    s.push(c)
}

/// Appends the decimal digit for `d` to `s`.
fn push_digit(s: &mut String, d: u8)
    requires
        d < 10,
    ensures
        final(s)@ == old(s)@.push(digit_char(d as nat)),
{
    let c = (48u8 + d) as char;
    assert(c == digit_char(d as nat));
    push_char(s, c);
}

/// Appends the decimal representation of `n` to `s`.
pub fn push_decimal(s: &mut String, n: u128)
    ensures
        final(s)@ == old(s)@ + decimal(n as nat),
    decreases n,
{
    if n >= 10 {
        push_decimal(s, n / 10);
    }
    let ghost mid = s@;
    push_digit(s, (n % 10) as u8);
    proof {
        if n >= 10 {
            assert(old(s)@ + decimal(n as nat) =~= old(s)@ + decimal((n / 10) as nat) + seq![
                digit_char((n % 10) as nat),
            ]);
        } else {
            assert(old(s)@ + decimal(n as nat) =~= mid.push(digit_char((n % 10) as nat)));
        }
    }
}

/// Appends the decimal representation of a signed integer to `s`.
pub fn push_signed_decimal(s: &mut String, v: i64)
    ensures
        final(s)@ == old(s)@ + signed_decimal(v as int),
{
    if v < 0 {
        push_char(s, '-');
        let mag: u128 = (0i128 - v as i128) as u128;
        push_decimal(s, mag);
        assert(final(s)@ =~= old(s)@ + signed_decimal(v as int));
    } else {
        push_decimal(s, v as u128);
    }
}

/// Appends the last `width` hexadecimal digits of `n` to `s`.
fn push_hex_fixed(s: &mut String, n: u64, width: u32)
    ensures
        final(s)@ == old(s)@ + hex_fixed(n as nat, width as nat),
    decreases width,
{
    if width == 0 {
        assert(old(s)@ + hex_fixed(n as nat, 0) =~= old(s)@);
        return ;
    }
    push_hex_fixed(s, n / 16, width - 1);
    let d: u8 = (n % 16) as u8;
    let c = if d < 10 {
        (48u8 + d) as char
    } else {
        (87u8 + d) as char
    };
    assert(c == hex_char(d as nat));
    push_char(s, c);
    assert(final(s)@ =~= old(s)@ + hex_fixed(n as nat, width as nat));
}

/// The sixteen lowercase hexadecimal digits of `n`, zero-padded on the left.
pub fn hex16(n: u64) -> (r: String)
    ensures
        r@ == hex_fixed(n as nat, 16),
{
    let mut s = String::new();
    push_hex_fixed(&mut s, n, 16);
    assert(s@ =~= hex_fixed(n as nat, 16));
    s
}

/// The decimal representation of `n` is a non-empty string of ASCII digits
/// whose value is `n`.
pub proof fn lemma_decimal_digits(n: nat)
    ensures
        decimal(n).len() >= 1,
        forall|i: int| 0 <= i < decimal(n).len() ==> is_ascii_digit(#[trigger] decimal(n)[i]),
        digits_value(decimal(n)) == n,
    decreases n,
{
    let s = decimal(n);
    if n >= 10 {
        lemma_decimal_digits(n / 10);
        assert(s.drop_last() =~= decimal(n / 10));
        assert(s.last() == digit_char(n % 10));
        assert((digit_char(n % 10) as int) == 48 + n % 10);
        assert(n == (n / 10) * 10 + n % 10);
        assert(digits_value(s) == digits_value(s.drop_last()) * 10 + ((s.last() as int - 48) as nat));
        assert(digits_value(s.drop_last()) == n / 10);
    } else {
        assert(s.drop_last() =~= Seq::<char>::empty());
        assert((digit_char(n) as int) == 48 + n);
        assert(digits_value(s) == digits_value(s.drop_last()) * 10 + ((s.last() as int - 48) as nat));
    }
}

/// The signed representation of `v` is a `-` followed by the digits of `-v`
/// when `v` is negative, and the digits of `v` otherwise.
pub proof fn lemma_signed_decimal(v: int)
    ensures
        v < 0 ==> signed_decimal(v)[0] == '-' && signed_decimal(v).len() >= 2 && digits_value(
            signed_decimal(v).drop_first(),
        ) == -v && forall|i: int|
            1 <= i < signed_decimal(v).len() ==> is_ascii_digit(#[trigger] signed_decimal(v)[i]),
        v >= 0 ==> signed_decimal(v).len() >= 1 && digits_value(signed_decimal(v)) == v && forall|i: int|
            0 <= i < signed_decimal(v).len() ==> is_ascii_digit(#[trigger] signed_decimal(v)[i]),
{
    if v < 0 {
        lemma_decimal_digits((-v) as nat);
        assert(signed_decimal(v).drop_first() =~= decimal((-v) as nat));
        assert forall|i: int| 1 <= i < signed_decimal(v).len() implies is_ascii_digit(
            #[trigger] signed_decimal(v)[i],
        ) by {
            assert(signed_decimal(v)[i] == decimal((-v) as nat)[i - 1]);
        }
    } else {
        lemma_decimal_digits(v as nat);
    }
}

/// Decimal representations of different numbers differ.
pub proof fn lemma_decimal_injective(a: nat, b: nat)
    requires
        decimal(a) == decimal(b),
    ensures
        a == b,
{
    lemma_decimal_digits(a);
    lemma_decimal_digits(b);
}

pub proof fn lemma_decimal_lacks(n: nat, c: char)
    requires
        !is_ascii_digit(c),
    ensures
        lacks(decimal(n), c),
{
    lemma_decimal_digits(n);
}

pub proof fn lemma_hex_fixed(n: nat, width: nat)
    ensures
        hex_fixed(n, width).len() == width,
        forall|i: int|
            0 <= i < width ==> {
                let c = #[trigger] hex_fixed(n, width)[i];
                ('0' <= c && c <= '9') || ('a' <= c && c <= 'f')
            },
    decreases width,
{
    if width > 0 {
        lemma_hex_fixed(n / 16, (width - 1) as nat);
    }
}

/// `16` to the power `k`.
pub open spec fn pow16(k: nat) -> nat
    decreases k,
{
    if k == 0 {
        1
    } else {
        16 * pow16((k - 1) as nat)
    }
}

proof fn lemma_hex_char_table(d: nat)
    requires
        d < 16,
    ensures
        hex_char(d) == "0123456789abcdef"@[d as int],
{
    reveal_strlit("0123456789abcdef");
}

proof fn lemma_div_pow16(n: nat, k: nat)
    ensures
        pow16(k) > 0,
        (n / 16) / pow16(k) == n / pow16(k + 1),
    decreases k,
{
    if k > 0 {
        lemma_div_pow16(n, (k - 1) as nat);
    }
    assert(pow16(k + 1) == 16 * pow16(k));
    vstd::arithmetic::div_mod::lemma_div_denominator(n as int, 16, pow16(k) as int);
}

/// Digit `i` of the `width` hexadecimal digits of `n` (counted from the left,
/// most significant first) is the lowercase digit of `n / 16^(width - 1 - i)`
/// modulo 16.
pub proof fn lemma_hex_fixed_digit(n: nat, width: nat, i: int)
    requires
        0 <= i < width,
    ensures
        hex_fixed(n, width)[i] == "0123456789abcdef"@[((n / pow16((width - 1 - i) as nat)) % 16) as int],
    decreases width,
{
    lemma_hex_fixed(n, width);
    if i == width - 1 {
        assert(hex_fixed(n, width)[i] == hex_char(n % 16));
        lemma_hex_char_table(n % 16);
        assert((width - 1 - i) as nat == 0);
        assert(pow16(0) == 1);
        assert(n / 1 == n);
    } else {
        lemma_hex_fixed(n / 16, (width - 1) as nat);
        lemma_hex_fixed_digit(n / 16, (width - 1) as nat, i);
        lemma_div_pow16(n, (width - 2 - i) as nat);
        assert(hex_fixed(n, width)[i] == hex_fixed(n / 16, (width - 1) as nat)[i]);
    }
}

/// Two strings that each consist of a `sep`-free part followed by a part that
/// starts with `sep` can only be equal when both parts are equal.
pub proof fn lemma_split_at_separator(a1: Seq<char>, r1: Seq<char>, a2: Seq<char>, r2: Seq<char>, sep: char)
    requires
        lacks(a1, sep),
        lacks(a2, sep),
        r1.len() > 0,
        r2.len() > 0,
        r1[0] == sep,
        r2[0] == sep,
        a1 + r1 == a2 + r2,
    ensures
        a1 == a2,
        r1 == r2,
{
    if a1.len() < a2.len() {
        assert((a1 + r1)[a1.len() as int] == sep);
        assert((a2 + r2)[a1.len() as int] == a2[a1.len() as int]);
    } else if a2.len() < a1.len() {
        assert((a2 + r2)[a2.len() as int] == sep);
        assert((a1 + r1)[a2.len() as int] == a1[a2.len() as int]);
    }
    assert(a1 =~= (a1 + r1).subrange(0, a1.len() as int));
    assert(a2 =~= (a2 + r2).subrange(0, a2.len() as int));
    assert(r1 =~= (a1 + r1).subrange(a1.len() as int, (a1 + r1).len() as int));
    assert(r2 =~= (a2 + r2).subrange(a2.len() as int, (a2 + r2).len() as int));
}

/// A common prefix can be removed from both sides of an equality.
pub proof fn lemma_strip_prefix(p: Seq<char>, r1: Seq<char>, r2: Seq<char>)
    requires
        p + r1 == p + r2,
    ensures
        r1 == r2,
{
    assert(r1 =~= (p + r1).subrange(p.len() as int, (p + r1).len() as int));
    assert(r2 =~= (p + r2).subrange(p.len() as int, (p + r2).len() as int));
}

} // verus!
