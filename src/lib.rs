//! A fragment-shader viewer's decisions, verified: the catalog of shaders and
//! the position on display, what each window event and each failed frame asks
//! of the window side, and the size that the surface and the uniform block
//! share. The GPU and the window themselves stay outside.
use vstd::prelude::*;

pub mod shader_list;
pub mod state;
pub mod surface;

verus! {

} // verus!
