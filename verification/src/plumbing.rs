//! Traits by which hardware primitives can be made available that are not in themselves
//! high-level primitives.
pub mod ec;

use vstd::prelude::*;

verus! {

/// Sum of all traits that a hardware accelerator can provide.
pub trait Plumbing: ec::Ec {

}

} // verus!
