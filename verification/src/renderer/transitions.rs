use vstd::prelude::*;
use vstd::arithmetic::div_mod::lemma_div_is_ordered;
use vstd::arithmetic::mul::lemma_mul_inequality;

use crate::primitives::plane::{quad_vertices, Plane, COORD_ONE};
use crate::renderer::clock::MAX_TIME_MS;
use crate::renderer::render_context::{
    DrawCall, PassLoadOp, PipelineKind, RenderPassDesc, RenderTarget, QUAD_INDEX_COUNT,
};
use crate::renderer::scenes::{is_scene_pass, SceneType};

verus! {

/// How fast the dissolve progresses: permille of full mix per second of
/// elapsed time.
pub const DISSOLVE_SPEED_PERMILLE: u32 = 500;

/// Elapsed time at which the dissolve saturates; past it the outgoing
/// scene has faded out completely and the transition is complete.
pub const TRANSITION_DURATION_MS: u64 = 2000;

/// Full mix, in permille: the dissolve factor never exceeds it.
pub const MIX_FULL: u32 = 1000;

/// The dissolve mix factor, in permille, after `time_offset_ms` of
/// elapsed time at `speed_permille` per second: grows linearly, then
/// saturates at full mix. `0` shows only the outgoing capture, full mix
/// only the incoming target contents.
pub open spec fn dissolve_mix(time_offset_ms: int, speed_permille: int) -> int {
    if time_offset_ms * speed_permille / 1000 >= MIX_FULL {
        MIX_FULL as int
    } else {
        time_offset_ms * speed_permille / 1000
    }
}

/// Contents of the uniform buffer the dissolve fragment stage reads:
/// the elapsed time since the transition started, and the fixed dissolve
/// speed. Times in milliseconds, speed in permille per second.
#[derive(Clone, Copy, PartialEq, Eq, Structural, Debug)]
pub struct TransitionUniform {
    pub time_offset_ms: u64,
    pub dissolve_speed_permille: u32,
}

impl TransitionUniform {
    /// Overwrites the elapsed time the shader sees.
    pub fn update_time_offset(&mut self, time: u64)
        ensures
            final(self).time_offset_ms == time,
            final(self).dissolve_speed_permille == old(self).dissolve_speed_permille,
    {
        self.time_offset_ms = time;
    }

    /// The mix factor this uniform makes the shader apply.
    pub fn mix_permille(&self) -> (m: u32)
        ensures
            m == dissolve_mix(self.time_offset_ms as int, self.dissolve_speed_permille as int),
            m <= MIX_FULL,
    {
        proof {
            let t = self.time_offset_ms as int;
            let s = self.dissolve_speed_permille as int;
            assert(t * s <= 0xFFFF_FFFF_FFFF_FFFF * 0xFFFF_FFFF) by (nonlinear_arith)
                requires
                    0 <= t <= 0xFFFF_FFFF_FFFF_FFFF,
                    0 <= s <= 0xFFFF_FFFF,
            ;
        }
        let wide: u128 = (self.time_offset_ms as u128) * (self.dissolve_speed_permille as u128) / 1000;
        if wide >= MIX_FULL as u128 {
            MIX_FULL
        } else {
            wide as u32
        }
    }
}

/// The mix factor is never negative and never exceeds full mix.
pub proof fn lemma_dissolve_mix_in_range(time_offset_ms: int, speed_permille: int)
    requires
        time_offset_ms >= 0,
        speed_permille >= 0,
    ensures
        0 <= dissolve_mix(time_offset_ms, speed_permille) <= MIX_FULL,
{
    assert(time_offset_ms * speed_permille >= 0) by (nonlinear_arith)
        requires
            time_offset_ms >= 0,
            speed_permille >= 0,
    ;
    lemma_div_is_ordered(0, time_offset_ms * speed_permille, 1000);
}

/// The dissolve only ever moves forward: more elapsed time never gives a
/// smaller mix factor.
pub proof fn lemma_dissolve_mix_monotonic(t1: int, t2: int, speed_permille: int)
    requires
        0 <= t1 <= t2,
        speed_permille >= 0,
    ensures
        dissolve_mix(t1, speed_permille) <= dissolve_mix(t2, speed_permille),
{
    lemma_mul_inequality(t1, t2, speed_permille);
    lemma_div_is_ordered(t1 * speed_permille, t2 * speed_permille, 1000);
}

/// The ids of the GPU resources a transition needs, all created by the
/// caller before the transition starts: the dissolve uniform buffer and
/// its bind group, the quad's vertex and index buffers, the composite
/// bind group referencing the offscreen view, and the offscreen texture
/// itself.
#[derive(Clone, Copy, PartialEq, Eq, Structural, Debug)]
pub struct TransitionResources {
    pub transition_buffer: u32,
    pub transition_bind_group: u32,
    pub vertex_buffer: u32,
    pub index_buffer: u32,
    pub bind_group: u32,
    pub scene_texture: u32,
}

/// A cross-dissolve in flight: the outgoing scene (moved in whole when
/// the transition starts), the dissolve uniform and its buffer, the
/// fixed-resolution offscreen target the outgoing scene keeps rendering
/// into, and the composite bind group built once at transition start.
pub struct Transition {
    pub transition_uniform: TransitionUniform,
    pub transition_buffer: u32,
    pub transition_bind_group: u32,
    pub plane: Plane,
    pub vertex_buffer: u32,
    pub index_buffer: u32,
    pub bind_group: u32,
    pub time_started: u64,
    pub scene: SceneType,
    pub scene_texture: u32,
}

impl Transition {
    /// A live transition: a well-formed outgoing scene, a full-screen
    /// composite quad, and the fixed dissolve speed in its uniform.
    pub open spec fn wf(self) -> bool {
        &&& self.scene.wf()
        &&& self.plane.wf()
        &&& self.plane.covers_center()
        &&& self.transition_uniform.dissolve_speed_permille == DISSOLVE_SPEED_PERMILLE
    }

    /// What a freshly started transition looks like: the outgoing scene
    /// captured unchanged, the clock started at `now`, the uniform at
    /// zero elapsed time, a full-screen quad, and the caller's resource
    /// ids recorded.
    pub open spec fn fresh_post(
        t: Transition,
        scene: SceneType,
        now: u64,
        resources: TransitionResources,
    ) -> bool {
        &&& t.scene == scene
        &&& t.time_started == now
        &&& t.transition_uniform == (TransitionUniform {
            time_offset_ms: 0,
            dissolve_speed_permille: DISSOLVE_SPEED_PERMILLE,
        })
        &&& t.transition_buffer == resources.transition_buffer
        &&& t.transition_bind_group == resources.transition_bind_group
        &&& t.vertex_buffer == resources.vertex_buffer
        &&& t.index_buffer == resources.index_buffer
        &&& t.bind_group == resources.bind_group
        &&& t.scene_texture == resources.scene_texture
        &&& t.plane.vertices@ == quad_vertices(COORD_ONE as int, 0, 0)
        &&& t.wf()
    }

    /// Starts a cross-dissolve away from `scene` at time `now`, using
    /// GPU resources the caller has already created. The scene is moved
    /// in whole — captured, not copied or mutated.
    pub fn test(scene: SceneType, now: u64, resources: TransitionResources) -> (t: Transition)
        requires
            scene.wf(),
        ensures
            Self::fresh_post(t, scene, now, resources),
    {
        let transition_uniform = TransitionUniform {
            time_offset_ms: 0,
            dissolve_speed_permille: DISSOLVE_SPEED_PERMILLE,
        };
        let plane = Plane::new(COORD_ONE);
        Transition {
            transition_uniform,
            transition_buffer: resources.transition_buffer,
            transition_bind_group: resources.transition_bind_group,
            plane,
            vertex_buffer: resources.vertex_buffer,
            index_buffer: resources.index_buffer,
            bind_group: resources.bind_group,
            time_started: now,
            scene,
            scene_texture: resources.scene_texture,
        }
    }

    /// The one quad draw of the composite pass.
    pub open spec fn composite_draw_spec(self) -> DrawCall {
        DrawCall {
            bind_group: self.bind_group,
            vertex_buffer: self.vertex_buffer,
            index_buffer: self.index_buffer,
            index_count: QUAD_INDEX_COUNT,
            covers_center: self.plane.covers_center(),
        }
    }

    /// Every field but the outgoing scene is untouched, and the scene
    /// changed at most by one render step.
    pub open spec fn tick_post(pre: Transition, post: Transition, now: u64) -> bool {
        &&& post.transition_uniform == pre.transition_uniform
        &&& post.transition_buffer == pre.transition_buffer
        &&& post.transition_bind_group == pre.transition_bind_group
        &&& post.plane == pre.plane
        &&& post.vertex_buffer == pre.vertex_buffer
        &&& post.index_buffer == pre.index_buffer
        &&& post.bind_group == pre.bind_group
        &&& post.time_started == pre.time_started
        &&& post.scene_texture == pre.scene_texture
        &&& SceneType::render_step(pre.scene, post.scene, now)
    }

    /// One tick of the crossfade: render the outgoing scene into the
    /// offscreen target through the ordinary scene path, then describe
    /// the composite pass — it loads (never clears) the live target,
    /// binds the offscreen capture and the dissolve uniform, and blends
    /// the full-screen quad on top of what the incoming scene already
    /// wrote there this tick.
    pub fn transition(&mut self, now: u64, view: RenderTarget) -> (r: (
        RenderPassDesc,
        RenderPassDesc,
    ))
        requires
            old(self).wf(),
            now <= MAX_TIME_MS,
        ensures
            final(self).wf(),
            Self::tick_post(*old(self), *final(self), now),
            is_scene_pass(r.0, final(self).scene, RenderTarget::Texture(old(self).scene_texture)),
            is_composite_pass(r.1, *final(self), view),
    {
        let offscreen = RenderTarget::Texture(self.scene_texture);
        let outgoing_pass = self.scene.render_scene(now, offscreen);

        let composite_draw = DrawCall {
            bind_group: self.bind_group,
            vertex_buffer: self.vertex_buffer,
            index_buffer: self.index_buffer,
            index_count: QUAD_INDEX_COUNT,
            covers_center: self.plane.check_covers_center(),
        };
        let draws: Vec<DrawCall> = vec![composite_draw];
        proof {
            assert(draws@ =~= seq![self.composite_draw_spec()]);
        }
        let composite_pass = RenderPassDesc {
            target: view,
            load: PassLoadOp::Load,
            pipeline: PipelineKind::Transition,
            uniform_bind_group: Some(self.transition_bind_group),
            uniform: Some(self.transition_uniform),
            draws,
        };
        (outgoing_pass, composite_pass)
    }

    /// Writes the elapsed time since transition start into the dissolve
    /// uniform; everything else stays as it is.
    pub fn update_uniform(&mut self, now: u64)
        requires
            old(self).wf(),
            old(self).time_started <= now,
        ensures
            final(self).wf(),
            final(self).transition_uniform == (TransitionUniform {
                time_offset_ms: (now - old(self).time_started) as u64,
                dissolve_speed_permille: DISSOLVE_SPEED_PERMILLE,
            }),
            final(self).scene == old(self).scene,
            final(self).transition_buffer == old(self).transition_buffer,
            final(self).transition_bind_group == old(self).transition_bind_group,
            final(self).plane == old(self).plane,
            final(self).vertex_buffer == old(self).vertex_buffer,
            final(self).index_buffer == old(self).index_buffer,
            final(self).bind_group == old(self).bind_group,
            final(self).time_started == old(self).time_started,
            final(self).scene_texture == old(self).scene_texture,
    {
        let elapsed = now - self.time_started;
        self.transition_uniform.update_time_offset(elapsed);
    }

    /// Termination policy: the crossfade is complete once the elapsed
    /// time reaches the transition duration — exactly when the dissolve
    /// mix has saturated, so tearing the transition down then changes
    /// nothing visible.
    pub fn is_complete(&self, now: u64) -> (r: bool)
        requires
            self.time_started <= now,
        ensures
            r == (now - self.time_started >= TRANSITION_DURATION_MS),
    {
        now - self.time_started >= TRANSITION_DURATION_MS
    }
}

/// `p` is the composite pass of transition `t` into `target`: it loads
/// the target's existing contents, runs the transition pipeline with
/// the dissolve uniform bound, and draws the full-screen quad once.
pub open spec fn is_composite_pass(p: RenderPassDesc, t: Transition, target: RenderTarget) -> bool {
    &&& p.target == target
    &&& p.load == PassLoadOp::Load
    &&& p.pipeline == PipelineKind::Transition
    &&& p.uniform_bind_group == Some(t.transition_bind_group)
    &&& p.uniform == Some(t.transition_uniform)
    &&& p.draws@ == seq![t.composite_draw_spec()]
}

/// At the fixed dissolve speed, the mix saturates exactly when the
/// elapsed time reaches the transition duration.
pub proof fn lemma_dissolve_saturation(time_offset_ms: int)
    requires
        time_offset_ms >= 0,
    ensures
        (dissolve_mix(time_offset_ms, DISSOLVE_SPEED_PERMILLE as int) == MIX_FULL)
            <==> time_offset_ms >= TRANSITION_DURATION_MS,
{
    assert(time_offset_ms * (DISSOLVE_SPEED_PERMILLE as int) == time_offset_ms * 500);
    assert(time_offset_ms * 500 / 1000 >= 1000 <==> time_offset_ms >= 2000) by (nonlinear_arith);
}

} // verus!
