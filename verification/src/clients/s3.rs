//! What the object store reports about an object.

use vstd::prelude::*;

verus! {

/// The size recorded for an object whose reported content length is
/// `content_length`: zero when none is reported, and the length read as an unsigned
/// 64-bit number otherwise (a negative length wraps around).
pub fn object_size(content_length: Option<i64>) -> (size: u64)
    ensures
        content_length is None ==> size == 0,
        content_length matches Some(n) ==> (n >= 0 ==> size == n) && (n < 0 ==> size == n + 0x1_0000_0000_0000_0000),
{
    match content_length {
        Some(n) => {
            if n >= 0 {
                n as u64
            } else {
                (n as i128 + 0x1_0000_0000_0000_0000i128) as u64
            }
        },
        None => 0,
    }
}

} // verus!
