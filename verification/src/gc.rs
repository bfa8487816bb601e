//! The safe layer over the stack roots: guards, handles, the rooted
//! collections and the set of the registered owners of references.

pub mod collections;
pub mod root;
pub mod trace;
