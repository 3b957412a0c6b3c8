//! Functional programming utilities: collection helpers, optional values,
//! shared primitives, pub/sub and lazy effects.

pub mod actor;
pub mod common;
pub mod cor;
pub mod fp;
pub mod handler;
pub mod maybe;
pub mod monadio;
pub mod primitives;
pub mod publisher;
pub mod sync;

use vstd::prelude::*;

verus! {
} // verus!
