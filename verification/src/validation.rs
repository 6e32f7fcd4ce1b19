//! The validation interface the node hangs its block and header checks on.

use vstd::prelude::*;

use crate::error::Error;

verus! {

/// A check over one kind of target: a block, a header, a transaction. An
/// implementation returns `Ok(())` when the target passes and the error that
/// failed it otherwise.
pub trait Verifier {
    type Target;

    fn verify(&self, target: &Self::Target) -> Result<(), Error>;
}

} // verus!
