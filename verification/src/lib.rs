//! A foreign resource registry: native engine objects are kept in per-class
//! tables behind opaque `u64` identifiers, so that a host runtime which only
//! accepts process-wide, `'static` handles can refer to engine objects whose
//! own lifetimes are shorter and borrow-constrained.
//!
//! The registry itself is the verified core: identifier allocation, slot
//! storage, configuration resolution, and the lifecycle decisions of opening,
//! using and closing a resource. The native engine behind the slots is an
//! external collaborator and stays outside this crate.

use vstd::prelude::*;

pub mod config;
pub mod lifecycle;
pub mod registry;

verus! {

/// Sum of two host integers; the trivial arithmetic entry point of the
/// boundary surface.
pub fn add(a: i64, b: i64) -> (r: i64)
    requires
        i64::MIN <= a + b <= i64::MAX,
    ensures
        r == a + b,
{
    a + b
}

} // verus!
