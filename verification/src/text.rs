use vstd::prelude::*;

verus! {

/// The character of the decimal digit `d` (`d < 10`).
pub open spec fn digit_char(d: nat) -> char {
    (48 + d) as char
}

/// Decimal digits of `n`, without leading zeros ("0" for zero).
pub open spec fn dec(n: nat) -> Seq<char>
    decreases n,
{
    if n < 10 {
        seq![digit_char(n)]
    } else {
        dec(n / 10).push(digit_char(n % 10))
    }
}

/// The number that the decimal digit characters `s` spell.
pub open spec fn decimal_value(s: Seq<char>) -> int
    decreases s.len(),
{
    if s.len() == 0 {
        0
    } else {
        10 * decimal_value(s.drop_last()) + (s.last() as int - 48)
    }
}

/// `dec(n)` spells `n`: it is made of the digits '0'..'9' only, reads back as
/// `n`, and starts with '0' only when it is "0" itself.
pub proof fn lemma_dec_spells(n: nat)
    ensures
        dec(n).len() >= 1,
        forall|i: int| 0 <= i < dec(n).len() ==> '0' <= #[trigger] dec(n)[i] <= '9',
        decimal_value(dec(n)) == n,
        dec(n)[0] == '0' ==> n == 0 && dec(n).len() == 1,
    decreases n,
{
    if n >= 10 {
        lemma_dec_spells(n / 10);
        let d = dec(n);
        assert(d.drop_last() =~= dec(n / 10));
        assert forall|i: int| 0 <= i < d.len() implies '0' <= #[trigger] d[i] <= '9' by {
            if i < d.len() - 1 {
                assert(d[i] == dec(n / 10)[i]);
            }
        }
        assert(d[0] == dec(n / 10)[0]);
        assert(d.last() == digit_char(n % 10));
        assert(d.last() as int == 48 + n % 10);
        assert(decimal_value(d) == 10 * decimal_value(dec(n / 10)) + (d.last() as int - 48));
        assert(n == 10 * (n / 10) + n % 10);
    } else {
        let d = dec(n);
        assert(d.drop_last() =~= Seq::<char>::empty());
        assert(decimal_value(d.drop_last()) == 0);
        assert(d.last() as int == 48 + n);
    }
}

/// `n` copies of `c`.
pub open spec fn repeat_char(c: char, n: nat) -> Seq<char> {
    Seq::new(n, |i: int| c)
}

/// `s` right-aligned in a field of `width` characters, the way `{:>width}`
/// (and `{:width}` for numbers) formats it; longer text is left whole.
pub open spec fn align_right(s: Seq<char>, width: nat) -> Seq<char> {
    if s.len() < width {
        repeat_char(' ', (width - s.len()) as nat) + s
    } else {
        s
    }
}

/// Right-aligning fills the field with spaces before the text and keeps the
/// whole text at its end: the result is `width` long, or the text itself
/// when that is longer.
pub proof fn lemma_align_right_shape(s: Seq<char>, width: nat)
    ensures
        align_right(s, width).len() == (if s.len() < width { width } else { s.len() }),
        align_right(s, width).skip(align_right(s, width).len() - s.len()) == s,
        forall|i: int|
            0 <= i < align_right(s, width).len() - s.len() ==> #[trigger] align_right(s, width)[i]
                == ' ',
{
    let r = align_right(s, width);
    assert(r.skip(r.len() - s.len()) =~= s);
}

/// `s` left-aligned in a field of `width` characters, the way `{:<width}`
/// formats it; longer text is left whole.
pub open spec fn align_left(s: Seq<char>, width: nat) -> Seq<char> {
    if s.len() < width {
        s + repeat_char(' ', (width - s.len()) as nat)
    } else {
        s
    }
}

/// `s` padded on the left with zeros to `width` characters.
pub open spec fn zero_pad(s: Seq<char>, width: nat) -> Seq<char> {
    if s.len() < width {
        repeat_char('0', (width - s.len()) as nat) + s
    } else {
        s
    }
}

pub open spec fn pow10(d: nat) -> nat
    decreases d,
{
    if d == 0 {
        1
    } else {
        10 * pow10((d - 1) as nat)
    }
}

/// `a / q` rounded to the nearest integer, ties to the even neighbour.
pub open spec fn round_half_even(a: nat, q: nat) -> nat {
    let f = a / q;
    let r = a % q;
    if 2 * r > q || (2 * r == q && f % 2 == 1) {
        f + 1
    } else {
        f
    }
}

/// Rounding to the nearest lands within half a step of the exact quotient:
/// `round_half_even(a, q) * q` differs from `a` by at most `q / 2`.
pub proof fn lemma_round_half_even_nearest(a: nat, q: nat)
    requires
        q > 0,
    ensures
        2 * (round_half_even(a, q) * q - a) <= q,
        2 * (a - round_half_even(a, q) * q) <= q,
{
    vstd::arithmetic::div_mod::lemma_fundamental_div_mod(a as int, q as int);
    vstd::arithmetic::div_mod::lemma_mod_bound(a as int, q as int);
    let f = a / q;
    let r = a % q;
    assert((f + 1) * q == f * q + q) by (nonlinear_arith);
    assert(f * q == q * f) by (nonlinear_arith);
}

/// Rounding to the nearest never reverses order: a larger numerator never
/// rounds to a smaller integer.
pub proof fn lemma_round_half_even_monotone(a: nat, b: nat, q: nat)
    requires
        a <= b,
        q > 0,
    ensures
        round_half_even(a, q) <= round_half_even(b, q),
{
    let fa = a / q;
    let fb = b / q;
    let ra = a % q;
    let rb = b % q;
    vstd::arithmetic::div_mod::lemma_div_is_ordered(a as int, b as int, q as int);
    vstd::arithmetic::div_mod::lemma_fundamental_div_mod(a as int, q as int);
    vstd::arithmetic::div_mod::lemma_fundamental_div_mod(b as int, q as int);
    vstd::arithmetic::div_mod::lemma_mod_bound(a as int, q as int);
    vstd::arithmetic::div_mod::lemma_mod_bound(b as int, q as int);
    if fa == fb {
        assert(ra <= rb) by (nonlinear_arith)
            requires
                a == q * fa + ra,
                b == q * fb + rb,
                fa == fb,
                a <= b,
        ;
    }
}

/// `n / q` written with exactly `d` decimals (`d > 0`), rounded to the
/// nearest, ties to even: the text that `{:.d}` gives for that exact quotient.
pub open spec fn fixed_point(n: nat, q: nat, d: nat) -> Seq<char> {
    let scaled = round_half_even(n * pow10(d), q);
    dec(scaled / pow10(d)) + seq!['.'] + zero_pad(dec(scaled % pow10(d)), d)
}

/// Appends one character (`String::push`).
#[verifier::external_body]
pub fn push_char(s: &mut String, c: char)
    ensures
        final(s)@ == old(s)@.push(c),
{
    s.push(c);
}

pub proof fn lemma_dec_nonempty(n: nat)
    ensures
        dec(n).len() >= 1,
    decreases n,
{
    if n >= 10 {
        lemma_dec_nonempty(n / 10);
    }
}

fn digit(d: u64) -> (c: char)
    requires
        d < 10,
    ensures
        c == digit_char(d as nat),
{
    let b: u8 = 48u8 + d as u8;
    b as char
}

/// Decimal text of `n`, as `{}` prints it.
pub fn fmt_u64(n: u64) -> (r: String)
    ensures
        r@ == dec(n as nat),
    decreases n,
{
    if n < 10 {
        let mut s = String::new();
        push_char(&mut s, digit(n));
        assert(s@ =~= dec(n as nat));
        s
    } else {
        let mut s = fmt_u64(n / 10);
        push_char(&mut s, digit(n % 10));
        s
    }
}

/// Appends `n` copies of `c`.
pub fn push_repeat(s: &mut String, c: char, n: usize)
    ensures
        final(s)@ == old(s)@ + repeat_char(c, n as nat),
{
    let ghost start = s@;
    let mut i: usize = 0;
    while i < n
        invariant
            i <= n,
            s@ == start + repeat_char(c, i as nat),
        decreases n - i,
    {
        push_char(s, c);
        i = i + 1;
        assert(s@ =~= start + repeat_char(c, i as nat));
    }
}

/// Appends all of `t`.
pub fn push_str(s: &mut String, t: &str)
    ensures
        final(s)@ == old(s)@ + t@,
{
    s.append(t);
}

/// `t` right-aligned in `width` characters (`{:>width}`).
pub fn right_aligned(t: &str, width: usize) -> (r: String)
    ensures
        r@ == align_right(t@, width as nat),
{
    let len = t.unicode_len();
    let mut s = String::new();
    if len < width {
        push_repeat(&mut s, ' ', width - len);
    }
    push_str(&mut s, t);
    assert(s@ =~= align_right(t@, width as nat));
    s
}

/// `t` left-aligned in `width` characters (`{:<width}`).
pub fn left_aligned(t: &str, width: usize) -> (r: String)
    ensures
        r@ == align_left(t@, width as nat),
{
    let len = t.unicode_len();
    let mut s = String::new();
    push_str(&mut s, t);
    if len < width {
        push_repeat(&mut s, ' ', width - len);
    }
    assert(s@ =~= align_left(t@, width as nat));
    s
}

/// The decimal text of `n` right-aligned in `width` characters (`{:width}`).
pub fn fmt_u64_width(n: u64, width: usize) -> (r: String)
    ensures
        r@ == align_right(dec(n as nat), width as nat),
{
    let d = fmt_u64(n);
    right_aligned(d.as_str(), width)
}

/// The decimal text of `n` padded with zeros to `width` characters.
fn fmt_u64_zero_padded(n: u64, width: usize) -> (r: String)
    ensures
        r@ == zero_pad(dec(n as nat), width as nat),
{
    let d = fmt_u64(n);
    let len = d.as_str().unicode_len();
    let mut s = String::new();
    if len < width {
        push_repeat(&mut s, '0', width - len);
    }
    push_str(&mut s, d.as_str());
    assert(s@ =~= zero_pad(dec(n as nat), width as nat));
    s
}

/// `n / q` written with `decimals` decimals (one or two), rounded to the
/// nearest, ties to even.
pub fn fmt_fixed(n: u64, q: u64, decimals: u32) -> (r: String)
    requires
        1 <= decimals <= 2,
        pow10(decimals as nat) <= q,
    ensures
        r@ == fixed_point(n as nat, q as nat, decimals as nat),
{
    let p: u128 = if decimals == 1 { 10 } else { 100 };
    assert(p == pow10(decimals as nat)) by {
        reveal_with_fuel(pow10, 3);
    }
    let a: u128 = n as u128 * p;
    let qq: u128 = q as u128;
    let f: u128 = a / qq;
    let rem: u128 = a % qq;
    assert(f <= n) by (nonlinear_arith)
        requires
            f == a / qq,
            a == n * p,
            p <= qq,
            p >= 10,
    {
        assert(a / qq <= a / p) by {
            vstd::arithmetic::div_mod::lemma_div_is_ordered_by_denominator(a as int, p as int, qq as int);
        }
        assert(a / p == n) by {
            vstd::arithmetic::div_mod::lemma_div_multiples_vanish(n as int, p as int);
        }
    }
    let scaled: u128 = if 2 * rem > qq || (2 * rem == qq && f % 2 == 1) {
        f + 1
    } else {
        f
    };
    assert(scaled == round_half_even(a as nat, q as nat));
    let ip: u128 = scaled / p;
    let fp: u128 = scaled % p;
    assert(ip <= u64::MAX) by (nonlinear_arith)
        requires
            ip == scaled / p,
            scaled <= n + 1,
            p >= 10,
            n <= u64::MAX,
    {
        assert(scaled / p <= scaled / 10) by {
            vstd::arithmetic::div_mod::lemma_div_is_ordered_by_denominator(scaled as int, 10, p as int);
        }
    }
    let mut s = fmt_u64(ip as u64);
    push_char(&mut s, '.');
    let frac = fmt_u64_zero_padded(fp as u64, decimals as usize);
    push_str(&mut s, frac.as_str());
    assert(s@ =~= fixed_point(n as nat, q as nat, decimals as nat));
    s
}

} // verus!
