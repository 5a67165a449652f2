//! The wire format of the ANSI backend: control sequences as byte
//! sequences, and the decimal encoding of the numeric parameters they
//! carry. The spec functions here are the bit-exact contract of every
//! sequence the library emits.

use vstd::prelude::*;

verus! {

/// The two-byte control sequence introducer: `ESC` followed by `[`.
pub open spec fn csi() -> Seq<u8> {
    seq![27u8, 91u8]
}

/// The ASCII digit for `d`, meaningful for `d < 10`.
pub open spec fn dec_digit(d: nat) -> u8
    recommends
        d < 10,
{
    (48 + d) as u8
}

/// The decimal digits of `n`, most significant first, without leading
/// zeros.
pub open spec fn dec_seq(n: nat) -> Seq<u8>
    decreases n,
{
    if n < 10 {
        seq![dec_digit(n)]
    } else {
        dec_seq(n / 10).push(dec_digit(n % 10))
    }
}

/// A fresh buffer holding only the control sequence introducer.
pub fn csi_buf() -> (r: Vec<u8>)
    ensures
        r@ == csi(),
{
    let mut v: Vec<u8> = Vec::new();
    v.push(27);
    v.push(91);
    assert(v@ =~= csi());
    v
}

/// Appends the decimal digits of `n` to `buf`.
pub fn push_dec(buf: &mut Vec<u8>, n: u16)
    ensures
        final(buf)@ == old(buf)@ + dec_seq(n as nat),
    decreases n,
{
    if n < 10 {
        buf.push(48 + n as u8);
        assert(buf@ =~= old(buf)@ + dec_seq(n as nat));
    } else {
        assert(n / 10 < n);
        push_dec(buf, n / 10);
        buf.push(48 + (n % 10) as u8);
        assert(buf@ =~= old(buf)@ + dec_seq(n as nat));
    }
}

} // verus!
