//! Messages that are shown for a number of frames.

use vstd::prelude::*;

verus! {

pub type ExpiringMessages = Vec<ExpiringMessage>;

/// A text and the frames it still has to live.
#[derive(Clone, Debug, PartialEq, Eq)]
pub struct ExpiringMessage {
    pub text: String,
    pub lifetime: u32,
}

} // verus!
