//! WebSocket extensions for async streams.
use vstd::prelude::*;

verus! {

/// The permessage-deflate extension for async streams. It holds no state.
#[derive(Debug, PartialEq, Eq, Structural, Clone, Copy)]
pub struct AsyncDeflate;

impl AsyncDeflate {
    /// Creates the extension; the message size limit is not used.
    pub fn new(_max_message_size: Option<usize>) -> (res: Self)
        ensures
            res == AsyncDeflate,
    {
        AsyncDeflate
    }
}

impl Default for AsyncDeflate {
    fn default() -> (res: Self)
        ensures
            res == AsyncDeflate,
    {
        AsyncDeflate
    }
}

} // verus!
