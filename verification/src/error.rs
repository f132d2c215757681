//! The startup failure taxonomy. Per-frame failures are classified by
//! `driver::SurfaceError`; this covers what can only fail while the GPU
//! context is being built.

use vstd::prelude::*;

verus! {

/// A fatal startup failure: no GPU adapter is compatible with the surface.
#[derive(Clone, Copy, PartialEq, Eq, Structural, Debug)]
pub enum AppError {
    NoAdapterFound,
}

impl AppError {
    /// The diagnostic text for this failure.
    pub fn message(&self) -> (s: &'static str)
        ensures
            s@ == "No compatible adapter found"@,
    {
        "No compatible adapter found"
    }
}

} // verus!
