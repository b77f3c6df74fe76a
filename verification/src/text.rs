//! Decimal rendering of amounts: digits, zero-padded fractions, signs and the
//! suffixes of the abbreviated form (`M`, `B`, `T`, ...).
use crate::magnitude::{
    abs, canonical_amount, canonical_power, lemma_canonical_power_gt, lemma_canonical_power_le,
    lemma_canonical_power_of_i64, lemma_pow1000_positive, lemma_tdiv_pow_step, pow1000, tdiv,
};
use vstd::prelude::*;

verus! {

/// Appends one character to a string.
/// Trusted: `String::push` appends `c` at the end and changes nothing else.
#[verifier::external_body]
pub fn push_char(s: &mut String, c: char)
    ensures
        final(s)@ == old(s)@.push(c),
{
    s.push(c);
}

/// A new string holding the given characters in order.
pub fn string_from_chars(chars: &Vec<char>) -> (r: String)
    ensures
        r@ == chars@,
{
    let mut s = String::new();
    let mut i: usize = 0;
    while i < chars.len()
        invariant
            i <= chars.len(),
            s@ == chars@.subrange(0, i as int),
        decreases chars.len() - i,
    {
        push_char(&mut s, chars[i]);
        i = i + 1;
        proof {
            assert(chars@.subrange(0, i as int) == chars@.subrange(0, i - 1).push(chars@[i - 1]));
        }
    }
    proof {
        assert(chars@.subrange(0, chars@.len() as int) == chars@);
    }
    s
}

/// The characters of a string slice, in order.
pub fn chars_of(s: &str) -> (r: Vec<char>)
    ensures
        r@ == s@,
{
    let n = s.unicode_len();
    let mut v: Vec<char> = Vec::new();
    let mut i: usize = 0;
    while i < n
        invariant
            n == s@.len(),
            i <= n,
            v@ == s@.subrange(0, i as int),
        decreases n - i,
    {
        v.push(s.get_char(i));
        i = i + 1;
        proof {
            assert(s@.subrange(0, i as int) == s@.subrange(0, i - 1).push(s@[i - 1]));
        }
    }
    proof {
        assert(s@.subrange(0, n as int) == s@);
    }
    v
}

/// The character of a decimal digit.
pub open spec fn digit_char(d: int) -> char {
    (48 + d) as char
}

/// The decimal digits of `n`, without leading zeros (`"0"` for zero).
pub open spec fn decimal(n: nat) -> Seq<char>
    decreases n,
{
    if n < 10 {
        seq![digit_char(n as int)]
    } else {
        decimal(n / 10).push(digit_char((n % 10) as int))
    }
}

/// `n` written with exactly three digits, as `{:03}` does for `n < 1000`.
pub open spec fn pad3(n: nat) -> Seq<char> {
    seq![digit_char((n / 100) as int), digit_char(((n / 10) % 10) as int), digit_char((n % 10) as int)]
}

/// The sign in front of a negative amount.
pub open spec fn sign_text(negative: bool) -> Seq<char> {
    if negative {
        seq!['-']
    } else {
        Seq::empty()
    }
}

/// A milli-unit amount in plain form: whole units, and three decimals when
/// they are not all zero.
pub open spec fn plain_milli_text(m: int) -> Seq<char> {
    if m == 0 {
        seq!['0']
    } else {
        let a = abs(m);
        let whole = (a / 1000) as nat;
        let frac = (a % 1000) as nat;
        let body = if frac == 0 {
            decimal(whole)
        } else if whole == 0 {
            seq!['0', '.'] + pad3(frac)
        } else {
            decimal(whole) + seq!['.'] + pad3(frac)
        };
        sign_text(m < 0) + body
    }
}

/// The suffix of the `p`-th power of 1000 above plain milli-units.
pub open spec fn suffix_of(p: nat) -> char {
    if p == 1 {
        'M'
    } else if p == 2 {
        'B'
    } else if p == 3 {
        'T'
    } else if p == 4 {
        'Q'
    } else if p == 5 {
        'q'
    } else if p == 6 {
        's'
    } else if p == 7 {
        'S'
    } else if p == 8 {
        'O'
    } else if p == 9 {
        'N'
    } else {
        'D'
    }
}

/// An abbreviated amount: the significand magnitude `amount` read with six
/// decimals, of which three are shown (cut, not rounded), then the suffix.
pub open spec fn abbreviated_text(negative: bool, amount: nat, power: nat) -> Seq<char> {
    sign_text(negative) + decimal(amount / 1_000_000) + seq!['.'] + pad3(
        ((amount % 1_000_000) / 1000) as nat,
    ) + seq![' ', suffix_of(power)]
}

/// How a milli-unit amount of magnitude `abs_milli` is shown: plain below one
/// million display units, abbreviated from there on.
pub open spec fn milli_amount_text(negative: bool, abs_milli: nat) -> Seq<char> {
    if abs_milli == 0 {
        seq!['0']
    } else if abs_milli < 1_000_000_000 {
        sign_text(negative) + plain_milli_text(abs_milli as int)
    } else {
        abbreviated_text(
            negative,
            canonical_amount(abs_milli as int) as nat,
            canonical_power(abs_milli as int),
        )
    }
}

fn digit(d: u64) -> (r: char)
    requires
        d < 10,
    ensures
        r == digit_char(d as int),
{
    ((48u8 + (d as u8)) as char)
}

/// Appends the decimal digits of `n`.
pub fn push_decimal(s: &mut String, n: u64)
    ensures
        final(s)@ == old(s)@ + decimal(n as nat),
    decreases n,
{
    if n >= 10 {
        push_decimal(s, n / 10);
    }
    push_char(s, digit(n % 10));
    proof {
        if n < 10 {
            assert(n % 10 == n);
        }
    }
}

/// Appends `n` with three digits.
pub fn push_pad3(s: &mut String, n: u64)
    requires
        n < 1000,
    ensures
        final(s)@ == old(s)@ + pad3(n as nat),
{
    push_char(s, digit(n / 100));
    push_char(s, digit((n / 10) % 10));
    push_char(s, digit(n % 10));
}

fn suffix(p: usize) -> (r: char)
    ensures
        r == suffix_of(p as nat),
{
    if p == 1 {
        'M'
    } else if p == 2 {
        'B'
    } else if p == 3 {
        'T'
    } else if p == 4 {
        'Q'
    } else if p == 5 {
        'q'
    } else if p == 6 {
        's'
    } else if p == 7 {
        'S'
    } else if p == 8 {
        'O'
    } else if p == 9 {
        'N'
    } else {
        'D'
    }
}

/// Formats a milli-unit amount in plain form.
pub fn format_plain_milli(amount: i64) -> (r: String)
    requires
        amount > i64::MIN,
    ensures
        r@ == plain_milli_text(amount as int),
{
    let mut s = String::new();
    if amount == 0 {
        push_char(&mut s, '0');
        return s;
    }
    if amount < 0 {
        push_char(&mut s, '-');
    }
    let abs: i64 = if amount < 0 {
        -amount
    } else {
        amount
    };
    let whole = abs / 1000;
    let frac = abs % 1000;
    if frac == 0 {
        push_decimal(&mut s, whole as u64);
    } else if whole == 0 {
        push_char(&mut s, '0');
        push_char(&mut s, '.');
        push_pad3(&mut s, frac as u64);
    } else {
        push_decimal(&mut s, whole as u64);
        push_char(&mut s, '.');
        push_pad3(&mut s, frac as u64);
    }
    proof {
        assert(s@ =~= plain_milli_text(amount as int));
    }
    s
}

/// Formats a significand magnitude in the abbreviated form of power `power`.
pub fn format_abbreviated(negative: bool, amount: i64, power: usize) -> (r: String)
    requires
        amount >= 0,
    ensures
        r@ == abbreviated_text(negative, amount as nat, power as nat),
{
    let mut s = String::new();
    if negative {
        push_char(&mut s, '-');
    }
    push_decimal(&mut s, (amount / 1_000_000) as u64);
    push_char(&mut s, '.');
    push_pad3(&mut s, ((amount % 1_000_000) / 1_000) as u64);
    push_char(&mut s, ' ');
    push_char(&mut s, suffix(power));
    proof {
        assert(s@ =~= abbreviated_text(negative, amount as nat, power as nat));
    }
    s
}

/// The power of 1000 under which a magnitude of at least one million display
/// units is abbreviated.
fn abbrev_power_3(abs_milli: i64) -> (r: usize)
    requires
        1_000_000_000 <= abs_milli < i64::MAX,
    ensures
        r == canonical_power(abs_milli as int),
        1 <= r <= 4,
{
    let mut power: usize = 1;
    let mut threshold: i64 = 1_000_000_000_000;
    proof {
        reveal_with_fuel(pow1000, 5);
    }
    while abs_milli >= threshold && power < 10
        invariant
            1 <= power <= 4,
            power < 4 ==> threshold == 1_000_000_000 * pow1000(power as nat),
            power == 4 ==> threshold == i64::MAX,
            abs_milli >= 1_000_000_000 * pow1000((power - 1) as nat),
            1_000_000_000 <= abs_milli < i64::MAX,
        decreases 10 - power,
    {
        proof {
            reveal_with_fuel(pow1000, 5);
        }
        power = power + 1;
        threshold = match threshold.checked_mul(1000) {
            Some(t) => t,
            None => i64::MAX,
        };
    }
    proof {
        reveal_with_fuel(pow1000, 5);
        let v = abs_milli as int;
        if power < 4 {
            lemma_canonical_power_le(v, power as nat);
        } else {
            lemma_canonical_power_of_i64(v);
        }
        let k = (power - 1) as nat;
        lemma_pow1000_positive(k);
        assert(tdiv(v, pow1000(k)) >= 1_000_000_000) by {
            vstd::arithmetic::div_mod::lemma_div_is_ordered(
                1_000_000_000 * pow1000(k),
                v,
                pow1000(k),
            );
            vstd::arithmetic::div_mod::lemma_div_by_multiple(1_000_000_000, pow1000(k));
        }
        lemma_canonical_power_gt(v, k);
    }
    power
}

/// Formats a milli-unit amount of magnitude `abs_milli`, with a leading `-`
/// when `negative`: plain below one million display units, abbreviated with
/// three decimals and a suffix from there on.
pub fn format_milli_amount(negative: bool, abs_milli: i64) -> (r: String)
    requires
        0 <= abs_milli < i64::MAX,
    ensures
        r@ == milli_amount_text(negative, abs_milli as nat),
{
    if abs_milli == 0 {
        let mut s = String::new();
        push_char(&mut s, '0');
        return s;
    }
    if abs_milli < 1_000_000_000 {
        let mut s = String::new();
        if negative {
            push_char(&mut s, '-');
        }
        let body = format_plain_milli(abs_milli);
        s.append(body.as_str());
        return s;
    }
    let power_3 = abbrev_power_3(abs_milli);
    // Truncate (don't round) to the significand of that power.
    let mut amount = abs_milli;
    let mut i: usize = 0;
    proof {
        assert(pow1000(0) == 1);
    }
    while i < power_3
        invariant
            i <= power_3,
            amount == tdiv(abs_milli as int, pow1000(i as nat)),
            amount >= 0,
        decreases power_3 - i,
    {
        proof {
            lemma_tdiv_pow_step(abs_milli as int, i as nat);
        }
        amount = amount / 1000;
        i = i + 1;
    }
    format_abbreviated(negative, amount, power_3)
}


/// `n` spaces.
pub open spec fn spaces(n: nat) -> Seq<char> {
    Seq::new(n, |i: int| ' ')
}

/// `t` followed by spaces up to width `w`, as `{:w$}` writes a string.
pub open spec fn pad_right(t: Seq<char>, w: nat) -> Seq<char> {
    if t.len() < w {
        t + spaces((w - t.len()) as nat)
    } else {
        t
    }
}

/// Spaces up to width `w`, then `t`, as `{:>w$}` writes a string.
pub open spec fn pad_left(t: Seq<char>, w: nat) -> Seq<char> {
    if t.len() < w {
        spaces((w - t.len()) as nat) + t
    } else {
        t
    }
}

/// Appends the characters of `t`.
pub fn push_str(s: &mut String, t: &str)
    ensures
        final(s)@ == old(s)@ + t@,
{
    let n = t.unicode_len();
    let mut i: usize = 0;
    while i < n
        invariant
            n == t@.len(),
            i <= n,
            s@ == old(s)@ + t@.subrange(0, i as int),
        decreases n - i,
    {
        push_char(s, t.get_char(i));
        i = i + 1;
        proof {
            assert(t@.subrange(0, i as int) =~= t@.subrange(0, i - 1).push(t@[i - 1]));
        }
    }
    proof {
        assert(t@.subrange(0, n as int) =~= t@);
    }
}

/// Appends `n` spaces.
pub fn push_spaces(s: &mut String, n: usize)
    ensures
        final(s)@ == old(s)@ + spaces(n as nat),
{
    let mut i: usize = 0;
    while i < n
        invariant
            i <= n,
            s@ == old(s)@ + spaces(i as nat),
        decreases n - i,
    {
        push_char(s, ' ');
        i = i + 1;
        proof {
            assert(spaces(i as nat) =~= spaces((i - 1) as nat).push(' '));
        }
    }
}

/// Appends `t` padded with spaces on the right up to width `w`.
pub fn push_padded_right(s: &mut String, t: &str, w: usize)
    ensures
        final(s)@ == old(s)@ + pad_right(t@, w as nat),
{
    let n = t.unicode_len();
    push_str(s, t);
    if n < w {
        push_spaces(s, w - n);
    }
    proof {
        assert(final(s)@ =~= old(s)@ + pad_right(t@, w as nat));
    }
}

/// Appends `t` padded with spaces on the left up to width `w`.
pub fn push_padded_left(s: &mut String, t: &str, w: usize)
    ensures
        final(s)@ == old(s)@ + pad_left(t@, w as nat),
{
    let n = t.unicode_len();
    if n < w {
        push_spaces(s, w - n);
    }
    push_str(s, t);
    proof {
        assert(final(s)@ =~= old(s)@ + pad_left(t@, w as nat));
    }
}

} // verus!
