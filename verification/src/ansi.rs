//! Construction of ANSI escape sequences.
//!
//! Every terminal command this library queues is a short byte string: the two
//! control-sequence-introducer bytes `ESC [`, usually followed by decimal
//! parameters and a final letter.  This module gives the byte-level
//! vocabulary: the decimal rendering of a number and the CSI prefix, each with
//! an exact specification, from which the command modules assemble their
//! sequences.

use vstd::prelude::*;

verus! {

/// The decimal ASCII rendering of `n`, most significant digit first, with no
/// leading zeros (the number `0` renders as the single digit `0`).
pub open spec fn dec_bytes(n: nat) -> Seq<u8>
    decreases n,
{
    if n < 10 {
        seq![(48 + n) as u8]
    } else {
        dec_bytes(n / 10).push((48 + n % 10) as u8)
    }
}

/// The two bytes `ESC [` that introduce a control sequence.
pub open spec fn csi_prefix() -> Seq<u8> {
    seq![27u8, 91u8]
}

/// A fresh buffer holding the control-sequence introducer `ESC [`.
pub fn csi_vec() -> (v: Vec<u8>)
    ensures
        v@ == csi_prefix(),
{
    let mut v: Vec<u8> = Vec::new();
    v.push(27);
    v.push(91);
    proof {
        assert(v@ =~= csi_prefix());
    }
    v
}

/// Appends the decimal ASCII rendering of `n` to `v`.
pub fn push_dec(v: &mut Vec<u8>, n: u32)
    ensures
        final(v)@ == old(v)@ + dec_bytes(n as nat),
    decreases n,
{
    if n >= 10 {
        push_dec(v, n / 10);
        let d: u8 = (n % 10) as u8;
        v.push(48 + d);
        proof {
            assert(v@ =~= old(v)@ + dec_bytes(n as nat));
        }
    } else {
        let d: u8 = n as u8;
        v.push(48 + d);
        proof {
            assert(v@ =~= old(v)@ + dec_bytes(n as nat));
        }
    }
}

} // verus!
