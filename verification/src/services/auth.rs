//! The decision behind the futures that wait for a connection to be
//! authenticated or closed.

use vstd::prelude::*;

verus! {

/// What a waiter for authentication learns from the two flags of a
/// connection: `Some(false)` once it is closed, else `Some(true)` once it is
/// authenticated, else `None` (keep waiting).
pub fn auth_outcome(closed: bool, authenticated: bool) -> (r: Option<bool>)
    ensures
        closed ==> r == Some(false),
        !closed && authenticated ==> r == Some(true),
        !closed && !authenticated ==> r is None,
{
    if closed {
        Some(false)
    } else if authenticated {
        Some(true)
    } else {
        None
    }
}

} // verus!
