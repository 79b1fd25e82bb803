//! The status of an HTTP response, as far as the device looks at it.

use vstd::prelude::*;

verus! {

/// Whether a status reports success: it lies between 200 and 299.
pub open spec fn is_success(status: u16) -> bool {
    200 <= status <= 299
}

/// Whether `status` reports success.
pub fn status_ok(status: u16) -> (ok: bool)
    ensures
        ok == is_success(status),
{
    200 <= status && status <= 299
}

} // verus!
