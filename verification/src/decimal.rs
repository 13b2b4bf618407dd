//! Decimal formatting of the integer family, as the byte sequences an
//! output sink appends when it formats a number.

use vstd::prelude::*;

verus! {

/// The ASCII digit for `d`, which must be a single decimal digit.
pub open spec fn digit_byte(d: nat) -> u8 {
    (48 + d % 10) as u8
}

/// The decimal representation of `n`, most significant digit first.
pub open spec fn dec_bytes(n: nat) -> Seq<u8>
    decreases n,
{
    if n < 10 {
        seq![digit_byte(n)]
    } else {
        dec_bytes(n / 10).push(digit_byte(n % 10))
    }
}

/// The decimal representation of `i`, with a leading minus sign when
/// `i` is negative.
pub open spec fn dec_bytes_signed(i: int) -> Seq<u8> {
    if i < 0 {
        seq![45u8] + dec_bytes((-i) as nat)
    } else {
        dec_bytes(i as nat)
    }
}

/// Appends the decimal digits of `v` to `buf`.
pub fn push_decimal_unsigned(buf: &mut Vec<u8>, v: u128)
    ensures
        final(buf)@ == old(buf)@ + dec_bytes(v as nat),
    decreases v,
{
    if v < 10 {
        buf.push(48 + (v as u8));
        proof {
            assert(final(buf)@ =~= old(buf)@ + dec_bytes(v as nat));
        }
    } else {
        proof {
            assert(v / 10 < v && v / 10 >= 1) by (nonlinear_arith)
                requires
                    v >= 10,
            ;
        }
        push_decimal_unsigned(buf, v / 10);
        buf.push(48 + ((v % 10) as u8));
        proof {
            assert(final(buf)@ =~= old(buf)@ + dec_bytes(v as nat));
        }
    }
}

/// Appends the decimal digits of `v` to `buf`, with a minus sign first
/// when `v` is negative.
pub fn push_decimal_signed(buf: &mut Vec<u8>, v: i128)
    ensures
        final(buf)@ == old(buf)@ + dec_bytes_signed(v as int),
{
    if v >= 0 {
        push_decimal_unsigned(buf, v as u128);
    } else {
        buf.push(45);
        let mag: u128 = ((-(v + 1)) as u128) + 1;
        assert(mag as int == -(v as int));
        push_decimal_unsigned(buf, mag);
        proof {
            assert(final(buf)@ =~= old(buf)@ + dec_bytes_signed(v as int));
        }
    }
}

} // verus!
