//! A safety layer over an embeddable scripting engine with a tracing
//! collector: the tagged value word, the per-kind stacks of stack roots, the
//! guards and handles that keep references alive across collections, the
//! heap cells whose writes raise a barrier, and the tracing of owned
//! references.
//!
//! The engine itself is not part of this crate. Everything here works on
//! plain data: an engine-owned thing is known by its address, a barrier or a
//! tracer call is a record that the embedding hands to the engine, and the
//! state that the engine keeps per context is a value that the caller owns.
#![allow(non_snake_case)]
#![allow(non_camel_case_types)]
#![allow(non_upper_case_globals)]

pub mod context;
pub mod gc;
pub mod glue;
pub mod jsapi;
pub mod jsgc;
pub mod jsimpls;
pub mod jsval;
pub mod offthread;
pub mod realm;
pub mod rust;
pub mod trace;
