//! Tables of callbacks that the embedding hands to the engine. A callback
//! is known by its address; a table entry without a callback is `None`.

use vstd::prelude::*;

verus! {

/// The callbacks of the underlying source of a readable stream.
#[derive(Clone, Copy, PartialEq, Eq, Structural, Debug)]
pub struct ReadableStreamUnderlyingSourceTraps {
    pub requestData: Option<u64>,
    pub writeIntoReadRequestBuffer: Option<u64>,
    pub cancel: Option<u64>,
    pub onClosed: Option<u64>,
    pub onErrored: Option<u64>,
    pub finalize: Option<u64>,
}

impl ReadableStreamUnderlyingSourceTraps {
    /// The table without any callback.
    pub open spec fn spec_zeroed() -> ReadableStreamUnderlyingSourceTraps {
        ReadableStreamUnderlyingSourceTraps {
            requestData: None,
            writeIntoReadRequestBuffer: None,
            cancel: None,
            onClosed: None,
            onErrored: None,
            finalize: None,
        }
    }
}

impl Default for ReadableStreamUnderlyingSourceTraps {
    fn default() -> (traps: ReadableStreamUnderlyingSourceTraps)
        ensures
            traps == ReadableStreamUnderlyingSourceTraps::spec_zeroed(),
    {
        ReadableStreamUnderlyingSourceTraps {
            requestData: None,
            writeIntoReadRequestBuffer: None,
            cancel: None,
            onClosed: None,
            onErrored: None,
            finalize: None,
        }
    }
}

} // verus!
