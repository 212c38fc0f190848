use vstd::prelude::*;

use crate::primitives::image::Image;
use crate::renderer::clock::{AnimationClock, MAX_TIME_MS};
use crate::renderer::render_context::{
    background_color, make_background_color, DrawCall, PassLoadOp, PipelineKind, RenderPassDesc,
    RenderTarget,
};

verus! {

/// A scene showing one static image.
pub struct ImageScene {
    pub image: Image,
}

/// A scene showing several static images; later images draw on top of
/// earlier ones, since nothing is depth-tested.
pub struct TestImageScene {
    pub images: Vec<Image>,
}

/// A scene playing an animated image sequence: one image per frame, and
/// the clock deciding which frame is active.
pub struct GifScene {
    pub frames: Vec<Image>,
    pub clock: AnimationClock,
}

/// The one drawable unit a tick renders: one of the three scene kinds,
/// dispatched exhaustively.
pub enum SceneType {
    Image(ImageScene),
    TestImages(TestImageScene),
    Gif(GifScene),
}

impl ImageScene {
    pub open spec fn wf(self) -> bool {
        self.image.wf()
    }

    /// The single draw this scene issues.
    pub open spec fn draws_spec(self) -> Seq<DrawCall> {
        seq![self.image.draw_spec()]
    }

    /// Renders the scene: one pass clearing to the background, then one
    /// draw of the image's quad.
    pub fn render_scene(&mut self, target: RenderTarget) -> (p: RenderPassDesc)
        requires
            old(self).wf(),
        ensures
            *final(self) == *old(self),
            is_scene_pass(p, SceneType::Image(*old(self)), target),
    {
        let draw = self.image.draw_call();
        let draws: Vec<DrawCall> = vec![draw];
        proof {
            assert(draws@ =~= self.draws_spec());
        }
        RenderPassDesc {
            target,
            load: PassLoadOp::Clear(make_background_color()),
            pipeline: PipelineKind::Texture,
            uniform_bind_group: None,
            uniform: None,
            draws,
        }
    }
}

impl TestImageScene {
    pub open spec fn wf(self) -> bool {
        forall|i: int| 0 <= i < self.images@.len() ==> (#[trigger] self.images@[i]).wf()
    }

    /// One draw per contained image, in insertion order.
    pub open spec fn draws_spec(self) -> Seq<DrawCall> {
        self.images@.map_values(|img: Image| img.draw_spec())
    }

    /// Renders the scene: one pass clearing to the background, then one
    /// indexed draw per image, in insertion order.
    pub fn render_scene(&mut self, target: RenderTarget) -> (p: RenderPassDesc)
        requires
            old(self).wf(),
        ensures
            *final(self) == *old(self),
            is_scene_pass(p, SceneType::TestImages(*old(self)), target),
            p.draws@.len() == old(self).images@.len(),
            forall|i: int| 0 <= i < old(self).images@.len() ==>
                #[trigger] p.draws@[i] == old(self).images@[i].draw_spec(),
    {
        let mut draws: Vec<DrawCall> = Vec::new();
        let mut idx: usize = 0;
        while idx < self.images.len()
            invariant
                idx <= self.images@.len(),
                draws@.len() == idx,
                forall|i: int| 0 <= i < idx ==>
                    #[trigger] draws@[i] == self.images@[i].draw_spec(),
            decreases self.images@.len() - idx,
        {
            let draw = self.images[idx].draw_call();
            draws.push(draw);
            idx = idx + 1;
        }
        proof {
            assert(draws@ =~= self.draws_spec());
        }
        RenderPassDesc {
            target,
            load: PassLoadOp::Clear(make_background_color()),
            pipeline: PipelineKind::Texture,
            uniform_bind_group: None,
            uniform: None,
            draws,
        }
    }
}

impl GifScene {
    pub open spec fn wf(self) -> bool {
        &&& self.clock.wf()
        &&& self.frames@.len() == self.clock.frame_count()
        &&& forall|i: int| 0 <= i < self.frames@.len() ==> (#[trigger] self.frames@[i]).wf()
    }

    /// The single draw this scene issues: the frame its clock holds
    /// active.
    pub open spec fn draws_spec(self) -> Seq<DrawCall> {
        seq![self.frames@[self.clock.current_frame as int].draw_spec()]
    }

    /// Builds an animated scene from its frame images and their decoded
    /// delays; delays are clamped so no frame waits zero milliseconds.
    pub fn new(frames: Vec<Image>, raw_delays_ms: &Vec<u64>) -> (s: GifScene)
        requires
            frames@.len() == raw_delays_ms@.len(),
            0 < frames@.len(),
            forall|i: int| 0 <= i < frames@.len() ==> (#[trigger] frames@[i]).wf(),
        ensures
            s.wf(),
            s.frames == frames,
            s.clock.time_loaded is None,
            s.clock.current_frame == 0,
    {
        let clock = AnimationClock::new(raw_delays_ms);
        GifScene { frames, clock }
    }

    /// Renders the scene: advances the clock once to `now`, then draws
    /// the (possibly new) active frame in one background-clearing pass.
    pub fn render_scene(&mut self, now: u64, target: RenderTarget) -> (p: RenderPassDesc)
        requires
            old(self).wf(),
            now <= MAX_TIME_MS,
        ensures
            final(self).wf(),
            final(self).frames == old(self).frames,
            AnimationClock::advance_post(old(self).clock, final(self).clock, now),
            is_scene_pass(p, SceneType::Gif(*final(self)), target),
    {
        self.clock.advance(now);
        let frame_idx = self.clock.current_frame;
        let draw = self.frames[frame_idx].draw_call();
        let draws: Vec<DrawCall> = vec![draw];
        proof {
            assert(draws@ =~= self.draws_spec());
        }
        RenderPassDesc {
            target,
            load: PassLoadOp::Clear(make_background_color()),
            pipeline: PipelineKind::Texture,
            uniform_bind_group: None,
            uniform: None,
            draws,
        }
    }
}

impl SceneType {
    pub open spec fn wf(self) -> bool {
        match self {
            SceneType::Image(s) => s.wf(),
            SceneType::TestImages(s) => s.wf(),
            SceneType::Gif(s) => s.wf(),
        }
    }

    /// The draws a render of this scene issues, in order.
    pub open spec fn draws_spec(self) -> Seq<DrawCall> {
        match self {
            SceneType::Image(s) => s.draws_spec(),
            SceneType::TestImages(s) => s.draws_spec(),
            SceneType::Gif(s) => s.draws_spec(),
        }
    }

    /// How rendering once at `now` may change a scene: static scenes not
    /// at all, an animated scene only by advancing its clock.
    pub open spec fn render_step(pre: SceneType, post: SceneType, now: u64) -> bool {
        match pre {
            SceneType::Image(_) => post == pre,
            SceneType::TestImages(_) => post == pre,
            SceneType::Gif(a) => {
                &&& post matches SceneType::Gif(b)
                &&& b.frames == a.frames
                &&& AnimationClock::advance_post(a.clock, b.clock, now)
            },
        }
    }

    /// Renders the scene into `target`: exactly one render pass, cleared
    /// to the background color, with this scene's draws in order.
    pub fn render_scene(&mut self, now: u64, target: RenderTarget) -> (p: RenderPassDesc)
        requires
            old(self).wf(),
            now <= MAX_TIME_MS,
        ensures
            final(self).wf(),
            Self::render_step(*old(self), *final(self), now),
            is_scene_pass(p, *final(self), target),
    {
        match self {
            SceneType::Image(s) => s.render_scene(target),
            SceneType::TestImages(s) => s.render_scene(target),
            SceneType::Gif(s) => s.render_scene(now, target),
        }
    }
}

/// `p` is the one pass a scene render issues: into `target`, cleared to
/// the fixed background color, on the scene pipeline, no uniform, and
/// the scene's draws in order.
pub open spec fn is_scene_pass(p: RenderPassDesc, scene: SceneType, target: RenderTarget) -> bool {
    &&& p.target == target
    &&& p.load == PassLoadOp::Clear(background_color())
    &&& p.pipeline == PipelineKind::Texture
    &&& p.uniform_bind_group is None
    &&& p.uniform is None
    &&& p.draws@ == scene.draws_spec()
}

} // verus!
