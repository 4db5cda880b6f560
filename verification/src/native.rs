//! The vocabulary of the native boundary: which entry point to call, on what.

use vstd::prelude::*;

verus! {

/// One call into the native layer, for the embedding program to carry out.
///
/// A handle is carried by its address; the null handle is address zero.
#[derive(Clone, Copy, Debug, PartialEq, Eq, Structural)]
#[must_use]
pub enum NativeCall {
    /// Load a puppet from the file whose path is the pending load's name,
    /// `length` bytes long.
    LoadFromPath { length: usize },
    /// Load a puppet from the caller's buffer of `size` bytes.
    LoadFromMemory { size: usize },
    /// Ask for the record of the last error.
    ErrorGet,
    /// Advance the puppet behind `handle` by one frame.
    Update { handle: usize },
    /// Draw the puppet behind `handle`.
    Draw { handle: usize },
    /// Release the puppet behind `handle`.
    Destroy { handle: usize },
}

impl NativeCall {
    /// Whether the call is one frame's work on `handle`: its update or its
    /// draw.
    pub open spec fn is_frame_of(self, handle: usize) -> bool {
        self == (NativeCall::Update { handle }) || self == (NativeCall::Draw { handle })
    }
}

} // verus!
