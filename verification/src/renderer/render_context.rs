use vstd::prelude::*;

use crate::renderer::transitions::TransitionUniform;

verus! {

/// Largest value of a color channel: channels are permille of full intensity.
pub const CHANNEL_MAX: u32 = 1000;

/// A color with red, green, blue and alpha channels, each in permille
/// (`0` dark or transparent, `1000` full).
#[derive(Clone, Copy, PartialEq, Eq, Structural, Debug)]
pub struct Color {
    pub r: u32,
    pub g: u32,
    pub b: u32,
    pub a: u32,
}

impl Color {
    /// Every channel within the permille range.
    pub open spec fn wf(self) -> bool {
        &&& self.r <= CHANNEL_MAX
        &&& self.g <= CHANNEL_MAX
        &&& self.b <= CHANNEL_MAX
        &&& self.a <= CHANNEL_MAX
    }
}

/// The fixed color every scene pass clears its target to before drawing.
pub open spec fn background_color() -> Color {
    Color { r: 0, g: 500, b: 300, a: 1000 }
}

/// The fixed color every scene pass clears its target to before drawing.
pub fn make_background_color() -> (c: Color)
    ensures
        c == background_color(),
        c.wf(),
{
    Color { r: 0, g: 500, b: 300, a: 1000 }
}

/// Where a render pass writes: the presentable window surface, or a
/// standalone texture known by its resource id. Chosen per pass; the
/// context's own target is fixed at creation.
#[derive(Clone, Copy, PartialEq, Eq, Structural, Debug)]
pub enum RenderTarget {
    WindowSurface,
    Texture(u32),
}

/// What a render pass does to its target before drawing: wipe it to a
/// color, or keep what earlier passes wrote and draw on top.
#[derive(Clone, Copy, PartialEq, Eq, Structural, Debug)]
pub enum PassLoadOp {
    Clear(Color),
    Load,
}

/// Which compiled pipeline a pass runs: the scene pipeline (one texture
/// plus sampler, no blending) or the transition pipeline (offscreen
/// capture plus dissolve uniform, alpha blending on).
#[derive(Clone, Copy, PartialEq, Eq, Structural, Debug)]
pub enum PipelineKind {
    Texture,
    Transition,
}

/// Number of indices in one quad draw: two triangles.
pub const QUAD_INDEX_COUNT: u32 = 6;

/// One indexed draw of a quad. The ids name GPU resources owned outside
/// the library; `covers_center` records whether the quad's rectangle
/// strictly contains the center of the target.
#[derive(Clone, Copy, PartialEq, Eq, Structural, Debug)]
pub struct DrawCall {
    pub bind_group: u32,
    pub vertex_buffer: u32,
    pub index_buffer: u32,
    pub index_count: u32,
    pub covers_center: bool,
}

/// One render pass, fully described: target, load behavior, pipeline,
/// the dissolve uniform if the pass binds one (with the buffer contents
/// it reads), and the draws in issue order.
#[derive(Debug)]
pub struct RenderPassDesc {
    pub target: RenderTarget,
    pub load: PassLoadOp,
    pub pipeline: PipelineKind,
    pub uniform_bind_group: Option<u32>,
    pub uniform: Option<TransitionUniform>,
    pub draws: Vec<DrawCall>,
}

/// Everything one tick submits to the queue: render passes in execution
/// order.
#[derive(Debug)]
pub struct Frame {
    pub passes: Vec<RenderPassDesc>,
}

} // verus!
