use crate::token::CancellationToken;
use vstd::prelude::*;

verus! {

/// Owns a token and cancels it when dropped, on every way out of the scope
/// that holds it.
pub struct CancellationGuard(pub CancellationToken);

impl Drop for CancellationGuard {
    fn drop(&mut self)
        opens_invariants none
        no_unwind
    {
        self.0.cancel();
    }
}

} // verus!
