//! The backend selector and the device-query helpers that all capability
//! domains share.

use vstd::prelude::*;

use crate::ansi;
use crate::error::ErrorKind;

verus! {

/// Whether `b` is an ASCII decimal digit.
pub open spec fn is_digit(b: u8) -> bool {
    48 <= b <= 57
}

/// The number a run of ASCII digits denotes, most significant first.
pub open spec fn digits_val(s: Seq<u8>) -> nat
    decreases s.len(),
{
    if s.len() == 0 {
        0
    } else {
        (digits_val(s.drop_last()) * 10 + s.last() - 48) as nat
    }
}

/// The report a device answers a position query with, for the zero-based
/// cursor position `(x, y)`: `ESC [ {y+1} ; {x+1} R`, both coordinates
/// one-based on the wire.
pub open spec fn report_seq(x: u16, y: u16) -> Seq<u8> {
    ansi::csi() + ansi::dec_seq((y + 1) as nat) + seq![59u8] + ansi::dec_seq((x + 1) as nat)
        + seq![82u8]
}

/// The sequence a caller sends to ask the device for its cursor
/// position: `CSI 6n`.
pub open spec fn pos_query_seq() -> Seq<u8> {
    ansi::csi() + seq![54u8, 110u8]
}

/// Build the position-query sequence.
pub fn cursor_position_query() -> (r: Vec<u8>)
    ensures
        r@ == pos_query_seq(),
{
    let mut v = ansi::csi_buf();
    v.push(54);
    v.push(110);
    assert(v@ =~= pos_query_seq());
    v
}

/// Every byte of a decimal encoding is a digit, and the encoding is never
/// empty.
pub proof fn lemma_dec_seq_digits(n: nat)
    ensures
        ansi::dec_seq(n).len() >= 1,
        forall|k: int| 0 <= k < ansi::dec_seq(n).len() ==> is_digit(#[trigger] ansi::dec_seq(n)[k]),
    decreases n,
{
    if n >= 10 {
        lemma_dec_seq_digits(n / 10);
    }
}

/// Reading the decimal encoding of `n` back as a number yields `n`.
pub proof fn lemma_digits_val_dec_seq(n: nat)
    ensures
        digits_val(ansi::dec_seq(n)) == n,
    decreases n,
{
    if n < 10 {
        assert(digits_val(Seq::<u8>::empty()) == 0);
        assert(ansi::dec_seq(n).drop_last() =~= Seq::<u8>::empty());
        assert(ansi::dec_seq(n).last() == (48 + n) as u8);
    } else {
        lemma_digits_val_dec_seq(n / 10);
        assert(ansi::dec_seq(n).drop_last() =~= ansi::dec_seq(n / 10));
        vstd::arithmetic::div_mod::lemma_fundamental_div_mod(n as int, 10);
        assert(n % 10 < 10) by {
            vstd::arithmetic::div_mod::lemma_mod_bound(n as int, 10);
        }
        assert(ansi::dec_seq(n).last() == (48 + n % 10) as u8);
    }
}

/// A run of digits whose first digit is not zero denotes at least one.
pub proof fn lemma_digits_val_first_nonzero(s: Seq<u8>)
    requires
        s.len() >= 1,
        forall|k: int| 0 <= k < s.len() ==> is_digit(#[trigger] s[k]),
        s[0] != 48,
    ensures
        digits_val(s) >= 1,
    decreases s.len(),
{
    if s.len() == 1 {
        assert(digits_val(Seq::<u8>::empty()) == 0);
        assert(s.drop_last() =~= Seq::<u8>::empty());
    } else {
        assert(s.drop_last()[0] == s[0]);
        lemma_digits_val_first_nonzero(s.drop_last());
    }
}

/// The decimal encoding of a positive number never starts with zero.
pub proof fn lemma_dec_seq_no_leading_zero(n: nat)
    ensures
        n >= 1 ==> ansi::dec_seq(n)[0] != 48,
    decreases n,
{
    if n >= 10 {
        lemma_dec_seq_no_leading_zero(n / 10);
        lemma_dec_seq_digits(n / 10);
        assert(n / 10 >= 1) by {
            vstd::arithmetic::div_mod::lemma_div_is_ordered(10, n as int, 10);
        }
        assert(ansi::dec_seq(n)[0] == ansi::dec_seq(n / 10)[0]);
    }
}

/// A nonempty run of digits without a leading zero is exactly the decimal
/// encoding of the number it denotes.
pub proof fn lemma_dec_seq_canon(s: Seq<u8>)
    requires
        s.len() >= 1,
        forall|k: int| 0 <= k < s.len() ==> is_digit(#[trigger] s[k]),
        s.len() > 1 ==> s[0] != 48,
    ensures
        s == ansi::dec_seq(digits_val(s)),
    decreases s.len(),
{
    if s.len() == 1 {
        assert(digits_val(Seq::<u8>::empty()) == 0);
        assert(s.drop_last() =~= Seq::<u8>::empty());
        assert(ansi::dec_seq(digits_val(s)) =~= s);
    } else {
        let pre = s.drop_last();
        assert(forall|k: int| 0 <= k < pre.len() ==> is_digit(#[trigger] pre[k]));
        assert(pre[0] == s[0]);
        lemma_dec_seq_canon(pre);
        lemma_digits_val_first_nonzero(pre);
        let n = digits_val(s);
        assert(n == digits_val(pre) * 10 + (s.last() - 48));
        vstd::arithmetic::div_mod::lemma_fundamental_div_mod_converse(
            n as int,
            10,
            digits_val(pre) as int,
            (s.last() - 48) as int,
        );
        assert(ansi::dec_seq(n) =~= s);
    }
}

/// A run of digits denotes at least as much as any of its prefixes.
pub proof fn lemma_digits_val_prefix(s: Seq<u8>, i: int)
    requires
        0 <= i <= s.len(),
        forall|k: int| 0 <= k < s.len() ==> is_digit(#[trigger] s[k]),
    ensures
        digits_val(s.subrange(0, i)) <= digits_val(s),
    decreases s.len() - i,
{
    if i == s.len() {
        assert(s.subrange(0, i) =~= s);
    } else {
        assert(s.subrange(0, i + 1).drop_last() =~= s.subrange(0, i));
        assert(s.subrange(0, i + 1).last() == s[i]);
        lemma_digits_val_prefix(s, i + 1);
    }
}

/// Read the number denoted by the digits of `s` between `lo` and `hi`.
/// The run must be exactly the decimal encoding of a coordinate: answers
/// `Some(n)` iff it is `n`'s encoding, `None` when the run is empty,
/// padded with a leading zero, holds a byte that is no digit, or denotes
/// more than a coordinate can be.
pub fn read_number(s: &Vec<u8>, lo: usize, hi: usize) -> (r: Option<u16>)
    requires
        lo <= hi,
        hi <= s@.len(),
    ensures
        r matches Some(n) ==> s@.subrange(lo as int, hi as int) == ansi::dec_seq(n as nat),
        forall|n: u16| s@.subrange(lo as int, hi as int) == ansi::dec_seq(n as nat) ==> r == Some(
            n,
        ),
{
    if lo == hi {
        proof {
            assert forall|n: u16| s@.subrange(lo as int, hi as int) == ansi::dec_seq(
                n as nat,
            ) implies false by {
                lemma_dec_seq_digits(n as nat);
            }
        }
        return None;
    }
    let ghost sub = s@.subrange(lo as int, hi as int);
    if lo + 1 < hi && s[lo] == 48 {
        proof {
            assert forall|n: u16| sub == ansi::dec_seq(n as nat) implies false by {
                assert(sub[0] == s@[lo as int]);
                if n >= 1 {
                    lemma_dec_seq_no_leading_zero(n as nat);
                } else {
                    assert(ansi::dec_seq(0).len() == 1);
                }
            }
        }
        return None;
    }
    let mut acc: u32 = 0;
    let mut k: usize = lo;
    while k < hi
        invariant
            lo <= k <= hi <= s@.len(),
            acc <= 65535,
            acc as nat == digits_val(s@.subrange(lo as int, k as int)),
            sub == s@.subrange(lo as int, hi as int),
            forall|t: int| lo <= t < k ==> is_digit(#[trigger] s@[t]),
        decreases hi - k,
    {
        let b: u8 = s[k];
        if b < 48 || b > 57 {
            proof {
                assert forall|n: u16| sub == ansi::dec_seq(n as nat) implies false by {
                    lemma_dec_seq_digits(n as nat);
                    assert(sub[k - lo] == s@[k as int]);
                    assert(is_digit(sub[k - lo]));
                }
            }
            return None;
        }
        proof {
            assert(s@.subrange(lo as int, k + 1).drop_last() =~= s@.subrange(lo as int, k as int));
            assert(s@.subrange(lo as int, k + 1).last() == s@[k as int]);
        }
        acc = acc * 10 + (b - 48) as u32;
        if acc > 65535 {
            proof {
                assert forall|n: u16| sub == ansi::dec_seq(n as nat) implies false by {
                    lemma_dec_seq_digits(n as nat);
                    lemma_digits_val_dec_seq(n as nat);
                    lemma_digits_val_prefix(sub, k + 1 - lo);
                    assert(sub.subrange(0, k + 1 - lo) =~= s@.subrange(lo as int, k + 1));
                }
            }
            return None;
        }
        k += 1;
    }
    proof {
        assert forall|n: u16| sub == ansi::dec_seq(n as nat) implies acc == n by {
            lemma_digits_val_dec_seq(n as nat);
        }
        assert forall|k: int| 0 <= k < sub.len() implies is_digit(sub[k]) by {
            assert(sub[k] == s@[lo + k]);
        }
        assert(sub[0] == s@[lo as int]);
        lemma_dec_seq_canon(sub);
    }
    Some(acc as u16)
}

/// Parse the device's answer to a position query. The parse succeeds on
/// exactly the whole well-formed reports `ESC [ rows ; cols R`, both
/// coordinates one-based, and answers them zero-based; anything else
/// counts as no valid response, the same as a device that never answered
/// within the bounded wait.
pub fn get_cursor_position(response: &Vec<u8>) -> (r: Result<(u16, u16), ErrorKind>)
    ensures
        r matches Err(e) ==> e == ErrorKind::DeviceQueryTimeout,
        r matches Ok(p) ==> p.0 < u16::MAX && p.1 < u16::MAX && response@ == report_seq(
            p.0,
            p.1,
        ),
        forall|x: u16, y: u16|
            x < u16::MAX && y < u16::MAX && response@ == report_seq(x, y) ==> r == Ok::<
                (u16, u16),
                ErrorKind,
            >((x, y)),
{
    let len: usize = response.len();
    proof {
        assert forall|x: u16, y: u16|
            x < u16::MAX && y < u16::MAX && response@ == report_seq(x, y) implies response@.len()
            >= 6 && response@[0] == 27 && response@[1] == 91 && response@[response@.len() - 1]
            == 82 by {
            lemma_dec_seq_digits((y + 1) as nat);
            lemma_dec_seq_digits((x + 1) as nat);
        }
    }
    if len < 6 {
        return Err(ErrorKind::DeviceQueryTimeout);
    }
    if response[0] != 27 || response[1] != 91 {
        return Err(ErrorKind::DeviceQueryTimeout);
    }
    if response[len - 1] != 82 {
        return Err(ErrorKind::DeviceQueryTimeout);
    }
    let mut j: usize = 2;
    while j < len && response[j] != 59
        invariant
            2 <= j <= len,
            len == response@.len(),
            forall|t: int| 2 <= t < j ==> response@[t] != 59,
        decreases len - j,
    {
        j += 1;
    }
    proof {
        assert forall|x: u16, y: u16|
            x < u16::MAX && y < u16::MAX && response@ == report_seq(x, y) implies j == 2
            + ansi::dec_seq((y + 1) as nat).len() && j <= len - 3 by {
            lemma_dec_seq_digits((y + 1) as nat);
            lemma_dec_seq_digits((x + 1) as nat);
            let dl = ansi::dec_seq((y + 1) as nat).len() as int;
            assert(response@[2 + dl] == 59);
            if j < 2 + dl {
                assert(is_digit(response@[j as int]));
            }
        }
    }
    if j >= len - 2 {
        return Err(ErrorKind::DeviceQueryTimeout);
    }
    let rows = read_number(response, 2, j);
    let cols = read_number(response, j + 1, len - 1);
    proof {
        assert forall|x: u16, y: u16|
            x < u16::MAX && y < u16::MAX && response@ == report_seq(x, y) implies rows
            == Some::<u16>((y + 1) as u16) && cols == Some::<u16>((x + 1) as u16) by {
            lemma_dec_seq_digits((y + 1) as nat);
            lemma_dec_seq_digits((x + 1) as nat);
            let dy = ansi::dec_seq((y + 1) as nat);
            let dx = ansi::dec_seq((x + 1) as nat);
            assert forall|t: int| 0 <= t < dy.len() implies response@.subrange(2, j as int)[t]
                == dy[t] by {
                assert(response@[2 + t] == dy[t]);
            }
            assert(response@.subrange(2, j as int) =~= dy);
            assert forall|t: int| 0 <= t < dx.len() implies response@.subrange(
                j + 1,
                len - 1,
            )[t] == dx[t] by {
                assert(response@[2 + dy.len() + 1 + t] == dx[t]);
            }
            assert(response@.subrange(j + 1, len - 1) =~= dx);
        }
    }
    match (rows, cols) {
        (Some(row), Some(col)) => {
            if row >= 1 && col >= 1 {
                proof {
                    let x = (col - 1) as u16;
                    let y = (row - 1) as u16;
                    assert(response@.subrange(2, j as int) == ansi::dec_seq(row as nat));
                    assert(response@.subrange(j + 1, len - 1) == ansi::dec_seq(col as nat));
                    assert((y + 1) as nat == row as nat);
                    assert((x + 1) as nat == col as nat);
                    assert forall|i: int| 0 <= i < response@.len() implies response@[i]
                        == report_seq(x, y)[i] by {
                        if 2 <= i < j {
                            assert(response@.subrange(2, j as int)[i - 2] == response@[i]);
                        }
                        if j + 1 <= i < len - 1 {
                            assert(response@.subrange(j + 1, len - 1)[i - (j + 1)]
                                == response@[i]);
                        }
                    }
                    assert(response@ =~= report_seq(x, y));
                }
                Ok((col - 1, row - 1))
            } else {
                Err(ErrorKind::DeviceQueryTimeout)
            }
        },
        _ => Err(ErrorKind::DeviceQueryTimeout),
    }
}

/// The selection rule of the backend selector: the ANSI backend is chosen
/// exactly when the host has no native backend, or its probe managed to
/// enable ANSI passthrough. ANSI is the tie-break winner because it is the
/// superset implementation.
pub open spec fn ansi_selected(has_native: bool, ansi_enabled: bool) -> bool {
    !has_native || ansi_enabled
}

/// The selection rule case by case: a probe that enabled ANSI passthrough
/// always yields the ANSI backend; so does a host without a native
/// backend, whatever its probe said; only a host whose native backend
/// exists and whose probe failed falls back to the native one.
pub proof fn lemma_selection_rule(has_native: bool, ansi_enabled: bool)
    ensures
        ansi_enabled ==> ansi_selected(has_native, ansi_enabled),
        !has_native ==> ansi_selected(has_native, ansi_enabled),
        has_native && !ansi_enabled ==> !ansi_selected(has_native, ansi_enabled),
{
}

/// Pick the implementation for one capability domain on a host that has a
/// native backend: the ANSI one iff the probe enabled ANSI passthrough,
/// the native one otherwise. The decision is the caller's to cache; it is
/// made once per facade construction.
pub fn get_module<T>(native_impl: T, ansi_impl: T, ansi_enabled: bool) -> (r: T)
    ensures
        ansi_enabled ==> r == ansi_impl,
        !ansi_enabled ==> r == native_impl,
{
    if ansi_enabled {
        ansi_impl
    } else {
        native_impl
    }
}

} // verus!
