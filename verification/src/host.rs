//! The host service for `omnia:plugins`.

use vstd::prelude::*;

verus! {

/// Host-side service for `omnia:plugins`: the loader capability over the
/// runtime's admission seam.
#[derive(Debug)]
pub struct WasiPlugins;

} // verus!
