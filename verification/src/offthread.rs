//! Compiling away from the thread of the context.

use vstd::prelude::*;

verus! {

/// We want our default stack size limit to be approximately 2MB, to be safe for
/// JS helper tasks that can use a lot of stack, but expect most threads to use
/// much less. On Linux, however, requesting a stack of 2MB or larger risks the
/// kernel allocating an entire 2MB huge page for it on first access, which we do
/// not want. To avoid this possibility, we subtract 2 standard VM page sizes
/// from our default.
pub const STACK_SIZE: usize = 2048 * 1024 - 2 * 4096;

/// The context of the engine's front end on a helper thread, by its
/// address.
pub struct FrontendContext(pub u64);

impl FrontendContext {
    /// The address of the context.
    pub fn as_ptr(&self) -> (ptr: u64)
        ensures
            ptr == self.0,
    {
        self.0
    }
}

/// The size of the stack of the thread that compiles.
pub fn stack_size() -> (size: usize)
    ensures
        size == STACK_SIZE,
        size == 2088960,
{
    STACK_SIZE
}

} // verus!
