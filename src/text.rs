use vstd::prelude::*;

verus! {

/// The character of a decimal digit `d < 10`.
pub open spec fn digit_char(d: nat) -> char {
    if d == 0 {
        '0'
    } else if d == 1 {
        '1'
    } else if d == 2 {
        '2'
    } else if d == 3 {
        '3'
    } else if d == 4 {
        '4'
    } else if d == 5 {
        '5'
    } else if d == 6 {
        '6'
    } else if d == 7 {
        '7'
    } else if d == 8 {
        '8'
    } else {
        '9'
    }
}

/// The decimal numeral of `n`, without leading zeros.
pub open spec fn decimal(n: nat) -> Seq<char>
    decreases n,
{
    if n < 10 {
        seq![digit_char(n)]
    } else {
        decimal(n / 10).push(digit_char(n % 10))
    }
}

/// The last `w` decimal digits of `f`, zero-padded on the left.
pub open spec fn padded(f: nat, w: nat) -> Seq<char>
    decreases w,
{
    if w == 0 {
        Seq::empty()
    } else {
        padded(f / 10, (w - 1) as nat).push(digit_char(f % 10))
    }
}

/// The fractional digits of `f / 10^w` with trailing zeros dropped.
pub open spec fn fraction_digits(f: nat, w: nat) -> Seq<char>
    decreases w,
{
    if w > 0 && f % 10 == 0 {
        fraction_digits(f / 10, (w - 1) as nat)
    } else {
        padded(f, w)
    }
}

/// Number of decimal places kept when a coordinate is not an integer.
pub const PLACES: u32 = 6;

/// Ten to the number of decimal places.
pub const SCALE: u128 = 1000000;

/// `num / den` scaled by a million and rounded to the nearest integer,
/// halves rounded up.
pub open spec fn rounded_millionths(num: nat, den: nat) -> nat {
    ((2 * num * 1000000 + den) / (2 * den)) as nat
}

/// The text of the rational `num / den`: its integer part, and where the
/// value rounded to six places is not whole, a point and the fractional
/// digits without trailing zeros.
pub open spec fn ratio_text(num: nat, den: nat) -> Seq<char> {
    let r = rounded_millionths(num, den);
    if r % 1000000 == 0 {
        decimal(r / 1000000)
    } else {
        decimal(r / 1000000) + seq!['.'] + fraction_digits(r % 1000000, 6)
    }
}

/// Escaped text content: `&`, `<` and `>` become entity references.
pub open spec fn escaped_char(c: char) -> Seq<char> {
    if c == '&' {
        "&amp;"@
    } else if c == '<' {
        "&lt;"@
    } else if c == '>' {
        "&gt;"@
    } else {
        seq![c]
    }
}

pub open spec fn escaped(s: Seq<char>) -> Seq<char>
    decreases s.len(),
{
    if s.len() == 0 {
        Seq::empty()
    } else {
        escaped(s.drop_last()) + escaped_char(s.last())
    }
}

/// Relies on `String::push`: the character is appended at the end.
#[verifier::external_body]
fn push_char(s: &mut String, c: char)
    ensures
        final(s)@ == old(s)@.push(c),
{
    s.push(c);
}

fn push_digit(s: &mut String, d: u128)
    requires
        d < 10,
    ensures
        final(s)@ == old(s)@.push(digit_char(d as nat)),
{
    let c = if d == 0 {
        '0'
    } else if d == 1 {
        '1'
    } else if d == 2 {
        '2'
    } else if d == 3 {
        '3'
    } else if d == 4 {
        '4'
    } else if d == 5 {
        '5'
    } else if d == 6 {
        '6'
    } else if d == 7 {
        '7'
    } else if d == 8 {
        '8'
    } else {
        '9'
    };
    push_char(s, c);
}

/// Appends the decimal numeral of `n`.
pub fn push_decimal(s: &mut String, n: u128)
    ensures
        final(s)@ == old(s)@ + decimal(n as nat),
    decreases n,
{
    if n >= 10 {
        push_decimal(s, n / 10);
    }
    push_digit(s, n % 10);
    proof {
        if n < 10 {
            assert(old(s)@ + decimal(n as nat) =~= old(s)@.push(digit_char(n as nat)));
        } else {
            assert(old(s)@ + decimal(n as nat) =~= (old(s)@ + decimal((n / 10) as nat)).push(
                digit_char((n % 10) as nat),
            ));
        }
    }
}

fn push_padded(s: &mut String, f: u128, w: u32)
    ensures
        final(s)@ == old(s)@ + padded(f as nat, w as nat),
    decreases w,
{
    if w > 0 {
        push_padded(s, f / 10, w - 1);
        push_digit(s, f % 10);
        assert(old(s)@ + padded(f as nat, w as nat) =~= (old(s)@ + padded(
            (f / 10) as nat,
            (w - 1) as nat,
        )).push(digit_char((f % 10) as nat)));
    } else {
        assert(old(s)@ + padded(f as nat, w as nat) =~= old(s)@);
    }
}

fn push_fraction(s: &mut String, f: u128, w: u32)
    ensures
        final(s)@ == old(s)@ + fraction_digits(f as nat, w as nat),
    decreases w,
{
    if w > 0 && f % 10 == 0 {
        push_fraction(s, f / 10, w - 1);
    } else {
        push_padded(s, f, w);
    }
}

/// Appends the text of the rational `num / den`.
pub fn push_ratio(s: &mut String, num: u128, den: u128)
    requires
        0 < den < 0x1_0000_0000_0000_0000_0000_0000,
        num < 0x1_0000_0000_0000_0000_0000_0000,
    ensures
        final(s)@ == old(s)@ + ratio_text(num as nat, den as nat),
{
    assert(num * 1000000 <= 0x1_0000_0000_0000_0000_0000_0000 * 1000000) by (nonlinear_arith)
        requires
            num < 0x1_0000_0000_0000_0000_0000_0000,
    ;
    let r: u128 = (2 * num * SCALE + den) / (2 * den);
    let whole: u128 = r / SCALE;
    let part: u128 = r % SCALE;
    push_decimal(s, whole);
    if part != 0 {
        push_char(s, '.');
        push_fraction(s, part, PLACES);
        assert(old(s)@ + ratio_text(num as nat, den as nat) =~= old(s)@ + decimal(whole as nat)
            + seq!['.'] + fraction_digits(part as nat, 6));
    }
}

/// Appends `t` with `&`, `<` and `>` escaped.
pub fn push_escaped(s: &mut String, t: &str)
    ensures
        final(s)@ == old(s)@ + escaped(t@),
{
    let n: usize = t.unicode_len();
    let mut i: usize = 0;
    while i < n
        invariant
            n == t@.len(),
            i <= n,
            s@ == old(s)@ + escaped(t@.subrange(0, i as int)),
        decreases n - i,
    {
        let c = t.get_char(i);
        let ghost before = s@;
        if c == '&' {
            s.append("&amp;");
        } else if c == '<' {
            s.append("&lt;");
        } else if c == '>' {
            s.append("&gt;");
        } else {
            push_char(s, c);
        }
        assert(t@.subrange(0, i + 1).drop_last() =~= t@.subrange(0, i as int));
        assert(s@ =~= before + escaped_char(c));
        i = i + 1;
    }
    assert(t@.subrange(0, n as int) =~= t@);
}

} // verus!
