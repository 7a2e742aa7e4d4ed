//! Run-time descriptions of native function-call signatures.
//!
//! A [`types::Type`] describes one native type, either a primitive backed by
//! a process-wide static descriptor or a struct that exclusively owns the
//! descriptors of its fields. A [`types::TypeArray`] is the sentinel-terminated,
//! owned sequence of descriptors that defines a struct's fields or a call's
//! argument list. A [`middle::Cif`] binds an argument array and a result
//! descriptor into a call interface, and a [`middle::Closure`] keeps a call
//! interface alive together with the entry address of a dynamically created
//! callable.
//!
//! This crate is the descriptor and ownership layer: building, measuring,
//! deep-copying and tearing down the descriptor trees is specified and
//! verified here. The calling-convention primitives that consume these
//! descriptions (preparation, invocation, closure allocation) are external
//! collaborators reached through an unverified shim.

pub mod middle;
pub mod types;
