use vstd::prelude::*;

verus! {

/// A signed amount of hours held exactly as a count of micro-hours.
#[derive(Clone, Copy, Debug, PartialEq, Eq, Structural)]
pub struct Hours {
    pub micros: i64,
}

/// A sum of hours, held exactly as a count of micro-hours: wide enough for
/// the sum of any list of `Hours`.
#[derive(Clone, Copy, Debug, PartialEq, Eq, Structural)]
pub struct HoursSum {
    pub micros: i128,
}

/// The ASCII code of the decimal digit `d`.
pub open spec fn digit(d: nat) -> u8 {
    (48 + d) as u8
}

/// The decimal digits of `n`, without leading zeros.
pub open spec fn digits(n: nat) -> Seq<u8>
    decreases n,
{
    if n < 10 {
        seq![digit(n)]
    } else {
        digits(n / 10).push(digit(n % 10))
    }
}

/// The lowest `w` decimal digits of `n`, padded on the left with zeros.
pub open spec fn padded(n: nat, w: nat) -> Seq<u8>
    decreases w,
{
    if w == 0 {
        Seq::empty()
    } else {
        padded(n / 10, (w - 1) as nat).push(digit(n % 10))
    }
}

/// The `w`-digit fraction `f` with its trailing zeros removed.
pub open spec fn trimmed_fraction(f: nat, w: nat) -> Seq<u8>
    decreases w,
{
    if w == 0 {
        Seq::empty()
    } else if f % 10 == 0 {
        trimmed_fraction(f / 10, (w - 1) as nat)
    } else {
        padded(f, w)
    }
}

/// The shortest decimal text of `m` micro-hours, for `m >= 0`.
pub open spec fn magnitude_text(m: nat) -> Seq<u8> {
    let whole = digits(m / 1_000_000);
    let frac = m % 1_000_000;
    if frac == 0 {
        whole
    } else {
        whole + seq![46u8] + trimmed_fraction(frac, 6)
    }
}

/// The shortest decimal text of `m` micro-hours: a minus sign when negative,
/// the whole hours, and the fraction without trailing zeros, if any.
pub open spec fn hours_text(m: int) -> Seq<u8> {
    if m < 0 {
        seq![45u8] + magnitude_text((-m) as nat)
    } else {
        magnitude_text(m as nat)
    }
}

/// `+` before a variation above zero, nothing otherwise.
pub open spec fn sign_prefix(variation: int) -> Seq<u8> {
    if variation > 0 {
        seq![43u8]
    } else {
        Seq::empty()
    }
}

/// The report snapshot: the signed variation, a space, and the hours of today.
pub open spec fn snapshot_text(variation: int, today: int) -> Seq<u8> {
    sign_prefix(variation) + hours_text(variation) + seq![32u8] + hours_text(today)
}

/// The seconds in `m` micro-hours, rounded to the nearest second, halves
/// away from zero.
pub open spec fn rounded_seconds(m: int) -> int {
    if m >= 0 {
        (m * 3600 + 500_000) / 1_000_000
    } else {
        -(((-m) * 3600 + 500_000) / 1_000_000)
    }
}

pub(crate) fn push_digits(n: u128, out: &mut Vec<u8>)
    ensures
        final(out)@ == old(out)@ + digits(n as nat),
    decreases n,
{
    if n >= 10 {
        push_digits(n / 10, out);
    }
    out.push((48 + n % 10) as u8);
    proof {
        assert(final(out)@ =~= old(out)@ + digits(n as nat));
    }
}

pub(crate) fn push_padded(n: u128, w: u32, out: &mut Vec<u8>)
    ensures
        final(out)@ == old(out)@ + padded(n as nat, w as nat),
    decreases w,
{
    if w > 0 {
        push_padded(n / 10, w - 1, out);
        out.push((48 + n % 10) as u8);
    }
    proof {
        assert(final(out)@ =~= old(out)@ + padded(n as nat, w as nat));
    }
}

fn push_trimmed_fraction(f: u128, w: u32, out: &mut Vec<u8>)
    ensures
        final(out)@ == old(out)@ + trimmed_fraction(f as nat, w as nat),
    decreases w,
{
    if w > 0 {
        if f % 10 == 0 {
            push_trimmed_fraction(f / 10, w - 1, out);
        } else {
            push_padded(f, w, out);
        }
    }
    proof {
        assert(final(out)@ =~= old(out)@ + trimmed_fraction(f as nat, w as nat));
    }
}

/// Appends the shortest decimal text of `m` micro-hours to `out`.
fn push_micros(m: i128, out: &mut Vec<u8>)
    ensures
        final(out)@ == old(out)@ + hours_text(m as int),
{
    let mag: u128 = if m < 0 {
        out.push(45u8);
        ((-(m + 1)) as u128) + 1
    } else {
        m as u128
    };
    let ghost mid = out@;
    push_digits(mag / 1_000_000, out);
    let frac: u128 = mag % 1_000_000;
    if frac != 0 {
        out.push(46u8);
        push_trimmed_fraction(frac, 6, out);
    }
    proof {
        assert(out@ =~= mid + magnitude_text(mag as nat));
        assert(final(out)@ =~= old(out)@ + hours_text(m as int));
    }
}

/// The shortest decimal text of `h`: `2.0` hours reads `2`, `3.5` reads `3.5`
/// and `-0.25` reads `-0.25`.
pub fn format_hours(h: Hours) -> (r: Vec<u8>)
    ensures
        r@ == hours_text(h.micros as int),
{
    let mut out: Vec<u8> = Vec::new();
    push_micros(h.micros as i128, &mut out);
    proof {
        assert(out@ =~= hours_text(h.micros as int));
    }
    out
}

/// The report snapshot for an annual variation until today and the hours
/// logged in the period: `+` before a variation above zero, the variation,
/// one space, and the hours.
pub fn format_snapshot(variation: Hours, today: HoursSum) -> (r: Vec<u8>)
    ensures
        r@ == snapshot_text(variation.micros as int, today.micros as int),
        variation.micros > 0 ==> r@[0] == 43u8,
        variation.micros <= 0 ==> r@.take(hours_text(variation.micros as int).len() as int)
            == hours_text(variation.micros as int),
{
    let mut out: Vec<u8> = Vec::new();
    if variation.micros > 0 {
        out.push(43u8);
    }
    push_micros(variation.micros as i128, &mut out);
    out.push(32u8);
    push_micros(today.micros, &mut out);
    proof {
        assert(out@ =~= snapshot_text(variation.micros as int, today.micros as int));
        if variation.micros <= 0 {
            let v = hours_text(variation.micros as int);
            assert(out@.take(v.len() as int) =~= v);
        }
    }
    out
}

/// The time logged in `h`, in seconds: `hours * 3600` rounded to the nearest
/// second.
pub fn logged_seconds(h: Hours) -> (r: i64)
    ensures
        r == rounded_seconds(h.micros as int),
{
    let wide: i128 = h.micros as i128;
    if wide >= 0 {
        ((wide * 3600 + 500_000) / 1_000_000) as i64
    } else {
        let m: i128 = -wide;
        -(((m * 3600 + 500_000) / 1_000_000) as i64)
    }
}

} // verus!
