//! Pixel buffer adaptation: 3-channel images are widened to 4 channels
//! before texture upload, inserting a constant alpha byte after every
//! RGB triple.

use vstd::prelude::*;

verus! {

/// The RGBA buffer that results from interleaving `alpha` after every
/// third byte of `rgbs`: every input byte is copied through in order,
/// and after each complete triple one alpha byte is inserted, so input
/// byte `i` lands at position `i + i/3` and position `4k + 3` holds the
/// alpha for each complete triple `k`. Trailing bytes of an incomplete
/// triple are copied without an alpha after them.
pub open spec fn interleaved(rgbs: Seq<u8>, alpha: u8) -> Seq<u8> {
    Seq::new(rgbs.len() + rgbs.len() / 3, |i: int| {
        if i % 4 == 3 {
            alpha
        } else {
            rgbs[i - i / 4]
        }
    })
}

/// Widens a tightly packed RGB byte buffer to RGBA by appending
/// `alpha_val` after each complete triple; a trailing partial triple
/// passes through unchanged.
#[verifier::loop_isolation(false)]
pub fn interleave_alpha_channel(rgbs: &Vec<u8>, alpha_val: u8) -> (rgbas: Vec<u8>)
    ensures
        rgbas@ == interleaved(rgbs@, alpha_val),
        rgbas@.len() == rgbs@.len() + rgbs@.len() / 3,
{
    let len: usize = rgbs.len();
    let mut rgbas: Vec<u8> = Vec::new();
    let mut count: usize = 0;
    let mut p: usize = 0;
    while p < len
        invariant
            p <= len,
            count == p % 3,
            rgbas@.len() == p + p / 3,
            rgbas@ =~= interleaved(rgbs@.subrange(0, p as int), alpha_val),
        decreases len - p,
    {
        proof {
            lemma_interleave_step(rgbs@, p as int, alpha_val);
        }
        rgbas.push(rgbs[p]);
        count = count + 1;
        if count == 3 {
            rgbas.push(alpha_val);
            count = 0;
        }
        p = p + 1;
    }
    proof {
        assert(rgbs@.subrange(0, len as int) =~= rgbs@);
    }
    rgbas
}

/// Extending the input by one byte extends the interleaving by that byte,
/// plus the alpha byte exactly when the byte completes a triple.
proof fn lemma_interleave_step(rgbs: Seq<u8>, p: int, alpha: u8)
    requires
        0 <= p < rgbs.len(),
    ensures
        p % 3 < 2 ==> interleaved(rgbs.subrange(0, p + 1), alpha) =~= interleaved(
            rgbs.subrange(0, p),
            alpha,
        ).push(rgbs[p]),
        p % 3 == 2 ==> interleaved(rgbs.subrange(0, p + 1), alpha) =~= interleaved(
            rgbs.subrange(0, p),
            alpha,
        ).push(rgbs[p]).push(alpha),
{
    let short = interleaved(rgbs.subrange(0, p), alpha);
    let long = interleaved(rgbs.subrange(0, p + 1), alpha);
    assert(short.len() == p + p / 3);
    if p % 3 < 2 {
        assert(long.len() == short.len() + 1);
        assert forall|i: int| 0 <= i < long.len() implies long[i] == short.push(rgbs[p])[i] by {
            if i < short.len() {
            } else {
                assert(i == p + p / 3);
                assert(i % 4 != 3) by {
                    vstd::arithmetic::div_mod::lemma_fundamental_div_mod(p, 3);
                }
                assert(i - i / 4 == p) by {
                    vstd::arithmetic::div_mod::lemma_fundamental_div_mod(p, 3);
                }
            }
        }
    } else {
        assert(long.len() == short.len() + 2);
        assert forall|i: int|
            0 <= i < long.len() implies long[i] == short.push(rgbs[p]).push(alpha)[i] by {
            if i < short.len() {
            } else if i == short.len() {
                assert(i == p + p / 3);
                assert(i % 4 == 2 && i - i / 4 == p) by {
                    vstd::arithmetic::div_mod::lemma_fundamental_div_mod(p, 3);
                }
            } else {
                assert(i == p + p / 3 + 1);
                assert(i % 4 == 3) by {
                    vstd::arithmetic::div_mod::lemma_fundamental_div_mod(p, 3);
                }
            }
        }
    }
}

} // verus!
