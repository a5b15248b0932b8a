//! Mesh references and render commands.
//!
//! Mesh geometry lives in the rendering backend; the simulation only
//! carries opaque mesh identifiers and produces draw commands from
//! them.  An identifier names an entry of the backend's mesh table.

use vstd::prelude::*;

use crate::entity::Iso;
use crate::math::Vec3;

verus! {

/// An opaque reference to a mesh owned by the rendering backend.
pub type MeshId = u32;

/// One draw command: a mesh, the world pose of the body it follows,
/// and the mesh's transform local to that body.
#[derive(Clone, Copy, Debug, PartialEq, Eq, Structural)]
pub struct RenderItem {
    pub mesh: MeshId,
    pub body_pos: Vec3,
    pub body_rot: Vec3,
    pub local: Iso,
}

/// A mesh with no vertices; drawing it is a no-op.
#[derive(Clone, Copy, Debug, PartialEq, Eq, Structural)]
pub struct EmptyMesh {}

impl EmptyMesh {
    /// The empty mesh.
    pub fn new() -> (m: EmptyMesh)
        ensures
            m == (EmptyMesh {  }),
    {
        EmptyMesh {  }
    }
}

} // verus!
