//! Token accounting helpers.

use vstd::prelude::*;
use vstd::string::StringSliceAdditionalSpecFns;

verus! {

/// The rough token estimate of a text of `len` bytes: about four bytes
/// of English text per token, rounded up.
pub open spec fn spec_token_estimate(len: nat) -> nat {
    (len + 3) / 4
}

/// Estimates the token count of a text: about four bytes per token,
/// rounded up, saturating at the largest count representable.
pub fn estimate_token_count(text: &str) -> (r: u32)
    ensures
        r == if spec_token_estimate(text.spec_bytes().len()) > u32::MAX {
            u32::MAX as nat
        } else {
            spec_token_estimate(text.spec_bytes().len())
        },
{
    let len = text.as_bytes().len();
    let est = len / 4 + (if len % 4 == 0 { 0 } else { 1 });
    proof {
        assert(est == spec_token_estimate(len as nat));
    }
    if est > u32::MAX as usize {
        u32::MAX
    } else {
        est as u32
    }
}

} // verus!
