//! The names under which the renderer's built-in resources are registered.

use vstd::prelude::*;

verus! {

/// The draw target that draws every mesh.
pub const DRAW_TARGET_MESHES: &'static str = "Meshes";

/// The draw target that draws the meshes assigned to the pipeline.
pub const DRAW_TARGET_ASSIGNED_MESHES: &'static str = "AssignedMeshes";

/// The draw target that draws the user interface.
pub const DRAW_TARGET_UI: &'static str = "Ui";

} // verus!
