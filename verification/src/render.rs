//! Plain data exchanged with the renderer.
//!
//! The renderer itself — shader programs, vertex buffers, draw calls — is a
//! consumed capability outside this crate; what crosses the boundary here
//! is only the integer attribute slots the host looked up once at link
//! time.

use vstd::prelude::*;

verus! {

/// Attribute slots of the shader that draws coloured vertices.
#[derive(Clone, Copy, Debug, PartialEq, Eq, Structural)]
pub struct AttributeLocations {
    pub vertex_position: i32,
    pub vertex_color: i32,
}

/// Attribute slots of the shader that draws plain vertices.
#[derive(Clone, Copy, Debug, PartialEq, Eq, Structural)]
pub struct AttributeLocationsLocal {
    pub vertex_position: i32,
}

} // verus!
