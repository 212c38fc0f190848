use vstd::prelude::*;

use crate::primitives::plane::Plane;
use crate::renderer::render_context::{DrawCall, QUAD_INDEX_COUNT};

verus! {

/// A drawable image: its quad geometry together with the ids of the GPU
/// resources built for it (texture, bind group, vertex and index buffer).
/// An `Image` exists only fully constructed: every resource id is set
/// when it is built, so a render can never find one missing.
#[derive(Debug)]
pub struct Image {
    pub plane: Plane,
    pub texture: u32,
    pub bind_group: u32,
    pub vertex_buffer: u32,
    pub index_buffer: u32,
}

impl Image {
    /// A well-formed image owns a well-formed quad.
    pub open spec fn wf(self) -> bool {
        self.plane.wf()
    }

    /// The one draw call rendering this image issues: bind its bind
    /// group and buffers, draw the quad's six indices.
    pub open spec fn draw_spec(self) -> DrawCall {
        DrawCall {
            bind_group: self.bind_group,
            vertex_buffer: self.vertex_buffer,
            index_buffer: self.index_buffer,
            index_count: QUAD_INDEX_COUNT,
            covers_center: self.plane.covers_center(),
        }
    }

    /// Builds an image from its quad and the ids of its already-created
    /// GPU resources.
    pub fn new(
        plane: Plane,
        texture: u32,
        bind_group: u32,
        vertex_buffer: u32,
        index_buffer: u32,
    ) -> (img: Image)
        requires
            plane.wf(),
        ensures
            img == (Image { plane, texture, bind_group, vertex_buffer, index_buffer }),
            img.wf(),
    {
        Image { plane, texture, bind_group, vertex_buffer, index_buffer }
    }

    /// The draw call this image contributes to a render pass.
    pub fn draw_call(&self) -> (d: DrawCall)
        requires
            self.wf(),
        ensures
            d == self.draw_spec(),
    {
        DrawCall {
            bind_group: self.bind_group,
            vertex_buffer: self.vertex_buffer,
            index_buffer: self.index_buffer,
            index_count: QUAD_INDEX_COUNT,
            covers_center: self.plane.check_covers_center(),
        }
    }
}

} // verus!
