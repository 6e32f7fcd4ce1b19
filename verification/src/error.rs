//! Error kinds a template build can end in.

use vstd::prelude::*;

verus! {

/// Why a template build was aborted.
#[derive(Clone, Copy, PartialEq, Eq, Structural, Debug)]
pub enum Error {
    /// A transaction input references an outpoint whose capacity can be
    /// resolved neither among the pool entries of this build nor in the
    /// persistent store.
    InvalidInput,
    /// A transaction's outputs total more than its inputs.
    InvalidOutput,
    /// A checked capacity addition or subtraction would overflow or
    /// underflow.
    Arithmetic,
    /// The bytes budget of the build is too small to even hold the header,
    /// the uncles and the proposals.
    Configuration,
    /// A channel of the worker loop failed; fatal to the worker.
    ChannelClosed,
}

} // verus!
