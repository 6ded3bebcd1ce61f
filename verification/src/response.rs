//! The body of a successful administrative nonce-reset response.

use vstd::prelude::*;

verus! {

/// Reports whether the reset succeeded.
#[derive(Clone, Copy, Debug, PartialEq, Eq, Structural)]
pub struct NonceResetResponse {
    pub success: bool,
}

} // verus!
