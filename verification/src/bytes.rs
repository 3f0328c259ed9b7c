//! Byte blocks as mathematical values.

use vstd::prelude::*;

verus! {

/// `bytes` brought to the length `len`: cut at its end, or filled up with
/// zero bytes.
pub open spec fn resized(bytes: Seq<u8>, len: nat) -> Seq<u8> {
    if len <= bytes.len() {
        bytes.take(len as int)
    } else {
        bytes + Seq::new((len - bytes.len()) as nat, |i: int| 0u8)
    }
}

} // verus!
