//! Decimal rendering for console report lines, with the zero-padding the
//! report format fixes per field.

use vstd::prelude::*;

verus! {

/// The decimal digits of `n`, most significant first, as ASCII bytes.
pub open spec fn dec_digits(n: nat) -> Seq<u8>
    decreases n,
{
    if n < 10 {
        seq![(48 + n) as u8]
    } else {
        dec_digits(n / 10).push((48 + n % 10) as u8)
    }
}

/// `width - len` ASCII zeros, or none if the digits already fill the width.
pub open spec fn zero_pad(len: nat, width: nat) -> Seq<u8> {
    if width > len {
        Seq::new((width - len) as nat, |i: int| 48u8)
    } else {
        Seq::<u8>::empty()
    }
}

/// `n` rendered in decimal and zero-padded on the left to `width`.
pub open spec fn padded_dec(n: nat, width: nat) -> Seq<u8> {
    zero_pad(dec_digits(n).len(), width) + dec_digits(n)
}

/// Append the decimal digits of `v` to `out`.
pub fn push_decimal(out: &mut Vec<u8>, v: u64)
    ensures
        final(out)@ == old(out)@ + dec_digits(v as nat),
    decreases v,
{
    if v < 10 {
        out.push(48 + (v as u8));
        proof {
            assert(out@ =~= old(out)@ + dec_digits(v as nat));
        }
    } else {
        push_decimal(out, v / 10);
        out.push(48 + ((v % 10) as u8));
        proof {
            assert(out@ =~= old(out)@ + dec_digits(v as nat));
        }
    }
}

/// How many decimal digits `v` has.
pub fn num_digits(v: u64) -> (n: usize)
    ensures
        n == dec_digits(v as nat).len(),
{
    let mut tmp: Vec<u8> = Vec::new();
    push_decimal(&mut tmp, v);
    tmp.len()
}

/// Append the left zero-padding of `v` at `width`, without the digits.
pub fn print_pad(out: &mut Vec<u8>, v: u64, width: usize)
    ensures
        final(out)@ == old(out)@ + zero_pad(dec_digits(v as nat).len(), width as nat),
    {
    let d = num_digits(v);
    let mut k = d;
    proof {
        assert(out@ =~= old(out)@ + zero_pad(d as nat, d as nat));
    }
    while k < width
        invariant
            d == dec_digits(v as nat).len(),
            k >= d,
            d >= width ==> k == d,
            d < width ==> k <= width,
            out@ == old(out)@ + zero_pad(d as nat, k as nat),
        decreases width - k,
    {
        out.push(48);
        k = k + 1;
        proof {
            assert(out@ =~= old(out)@ + zero_pad(d as nat, k as nat));
        }
    }
    proof {
        if width <= d {
            assert(out@ =~= old(out)@ + zero_pad(d as nat, width as nat));
        }
    }
}

/// Append `v` rendered in decimal, zero-padded on the left to `width`.
pub fn push_padded_decimal(out: &mut Vec<u8>, v: u64, width: usize)
    ensures
        final(out)@ == old(out)@ + padded_dec(v as nat, width as nat),
{
    print_pad(out, v, width);
    push_decimal(out, v);
    proof {
        assert(out@ =~= old(out)@ + padded_dec(v as nat, width as nat));
    }
}

} // verus!
