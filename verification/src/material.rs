//! The one material whose behaviour is not a sampling distribution.

use vstd::prelude::*;

verus! {

/// A material with no scattering behaviour: every ray that strikes a surface
/// carrying it is absorbed. It marks surfaces that are rendered only through
/// the background shading of the scene they stand in.
#[derive(Clone, Copy, Debug, PartialEq, Eq, Structural)]
pub struct DummyMaterial {}

} // verus!
