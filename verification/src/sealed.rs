//! The marker that closes the capability traits of this crate.
//!
//! Contracts of generic code rest on what the traits' methods ensure, so the
//! traits can only be implemented here, where every impl is verified.
use vstd::prelude::*;

verus! {

/// Supertrait of the capability traits; it cannot be named outside this crate.
pub trait Sealed {

}

} // verus!
