use vstd::prelude::*;

use crate::renderer::clock::MAX_TIME_MS;
use crate::renderer::render_context::{Frame, PassLoadOp, PipelineKind, RenderPassDesc, RenderTarget};
use crate::renderer::scenes::{is_scene_pass, SceneType};
use crate::renderer::transitions::{
    is_composite_pass, Transition, TransitionResources, TransitionUniform,
    DISSOLVE_SPEED_PERMILLE, TRANSITION_DURATION_MS,
};

verus! {

/// The one explicit context object a tick threads through: the active
/// scene and the transition in flight, if any. The GPU device, queue,
/// surface and pipelines live with the caller; the engine only decides
/// what to render.
pub struct Engine {
    pub scene: Option<SceneType>,
    pub transition: Option<Transition>,
}

impl Engine {
    /// Whatever scene or transition the engine holds is well formed.
    pub open spec fn wf(self) -> bool {
        &&& (self.scene matches Some(s) ==> s.wf())
        &&& (self.transition matches Some(t) ==> t.wf())
    }

    /// An engine with nothing loaded yet.
    pub fn new() -> (e: Engine)
        ensures
            e.scene is None,
            e.transition is None,
            e.wf(),
    {
        Engine { scene: None, transition: None }
    }

    /// Installs `scene` as the active scene. Any transition in flight
    /// keeps running against its own captured outgoing scene.
    pub fn load_scene(&mut self, scene: SceneType)
        requires
            old(self).wf(),
            scene.wf(),
        ensures
            final(self).wf(),
            final(self).scene == Some(scene),
            final(self).transition == old(self).transition,
    {
        self.scene = Some(scene);
    }

    /// Starts a cross-dissolve: takes the active scene out of the engine
    /// and captures it, unchanged, as the transition's outgoing scene.
    /// The caller supplies the freshly created GPU resource ids and is
    /// expected to install the incoming scene right after.
    pub fn load_transition(&mut self, now: u64, resources: TransitionResources)
        requires
            old(self).wf(),
            old(self).scene is Some,
        ensures
            final(self).wf(),
            final(self).scene is None,
            final(self).transition matches Some(t)
                && Transition::fresh_post(t, old(self).scene->0, now, resources),
    {
        let scene = self.scene.take().unwrap();
        let transition = Transition::test(scene, now, resources);
        self.transition = Some(transition);
    }

    /// Everything one call of [`Engine::update`] promises: with no
    /// transition in flight nothing changes; otherwise the dissolve
    /// uniform is brought to the elapsed time, and a transition whose
    /// elapsed time has reached the transition duration is complete and
    /// torn down, releasing the outgoing scene.
    pub open spec fn update_post(pre: Engine, post: Engine, now: u64) -> bool {
        &&& post.scene == pre.scene
        &&& (pre.transition is None ==> post.transition is None)
        &&& (pre.transition matches Some(t) ==> {
            if now - t.time_started >= TRANSITION_DURATION_MS {
                post.transition is None
            } else {
                post.transition matches Some(t2) && t2 == (Transition {
                    transition_uniform: TransitionUniform {
                        time_offset_ms: (now - t.time_started) as u64,
                        dissolve_speed_permille: DISSOLVE_SPEED_PERMILLE,
                    },
                    ..t
                })
            }
        })
    }

    /// Advances the transition in flight, if any: writes the elapsed
    /// time into its dissolve uniform, and tears the transition down
    /// once it is complete.
    pub fn update(&mut self, now: u64)
        requires
            old(self).wf(),
            old(self).transition matches Some(t) ==> t.time_started <= now,
        ensures
            final(self).wf(),
            Self::update_post(*old(self), *final(self), now),
    {
        let finished = match &self.transition {
            Some(t) => t.is_complete(now),
            None => false,
        };
        if finished {
            self.transition = None;
        } else {
            match &mut self.transition {
                Some(t) => {
                    t.update_uniform(now);
                },
                None => {},
            }
        }
    }

    /// Everything one call of [`Engine::render`] promises about the
    /// frame it describes and the state it leaves behind.
    ///
    /// The frame holds the active scene's pass first, writing the live
    /// surface; while a transition is in flight it is followed by the
    /// outgoing scene's pass into the offscreen texture and then the
    /// composite pass, which loads — never clears — the surface the
    /// incoming scene just wrote. A scene render may advance its clock;
    /// nothing else changes.
    pub open spec fn render_post(pre: Engine, post: Engine, now: u64, f: Frame) -> bool {
        &&& (pre.scene is None ==> post.scene is None)
        &&& (pre.scene matches Some(s) ==> {
            &&& post.scene matches Some(s2)
            &&& SceneType::render_step(s, s2, now)
            &&& is_scene_pass(f.passes@[0], s2, RenderTarget::WindowSurface)
        })
        &&& (pre.transition is None ==> {
            &&& post.transition is None
            &&& f.passes@.len() == scene_pass_count(pre)
        })
        &&& (pre.transition matches Some(t) ==> {
            &&& post.transition matches Some(t2)
            &&& Transition::tick_post(t, t2, now)
            &&& f.passes@.len() == scene_pass_count(pre) + 2
            &&& is_scene_pass(
                f.passes@[scene_pass_count(pre) as int],
                t2.scene,
                RenderTarget::Texture(t.scene_texture),
            )
            &&& is_composite_pass(
                f.passes@[scene_pass_count(pre) as int + 1],
                t2,
                RenderTarget::WindowSurface,
            )
        })
    }

    /// Renders one tick: the active scene directly onto the surface,
    /// and, only while a transition is in flight, the outgoing scene
    /// into the offscreen target followed by the composite pass over
    /// the surface. A composite pass never comes before a clearing
    /// scene pass on the same target in the same frame.
    pub fn render(&mut self, now: u64) -> (f: Frame)
        requires
            old(self).wf(),
            now <= MAX_TIME_MS,
            old(self).transition is Some ==> old(self).scene is Some,
        ensures
            final(self).wf(),
            Self::render_post(*old(self), *final(self), now, f),
            forall|i: int|
                0 <= i < f.passes@.len() && (#[trigger] f.passes@[i]).pipeline is Transition
                    ==> exists|j: int|
                        0 <= j < i && (#[trigger] f.passes@[j]).target == f.passes@[i].target
                            && f.passes@[j].pipeline is Texture && f.passes@[j].load is Clear,
    {
        let mut passes: Vec<RenderPassDesc> = Vec::new();

        match &mut self.scene {
            Some(scene) => {
                let pass = scene.render_scene(now, RenderTarget::WindowSurface);
                passes.push(pass);
            },
            None => {},
        }

        match &mut self.transition {
            Some(transition) => {
                let (outgoing_pass, composite_pass) =
                    transition.transition(now, RenderTarget::WindowSurface);
                passes.push(outgoing_pass);
                passes.push(composite_pass);
            },
            None => {},
        }

        proof {
            assert forall|i: int|
                0 <= i < passes@.len() && (#[trigger] passes@[i]).pipeline is Transition
                    implies exists|j: int|
                    0 <= j < i && (#[trigger] passes@[j]).target == passes@[i].target
                        && passes@[j].pipeline is Texture && passes@[j].load is Clear by {
                if old(self).transition is Some {
                    assert(passes@.len() == 3);
                    assert(passes@[0].pipeline is Texture);
                    assert(passes@[1].pipeline is Texture);
                    assert(i == 2);
                    assert(0 <= 0 < i && (#[trigger] passes@[0]).target == passes@[i].target
                        && passes@[0].pipeline is Texture && passes@[0].load is Clear);
                } else {
                    assert(passes@[i].pipeline is Texture);
                }
            }
        }
        Frame { passes }
    }
}

/// Capture-then-render: when a transition has been started — capturing
/// the then-active scene as outgoing, unchanged — and an incoming scene
/// installed, then on the very next tick (update, then render, while
/// the dissolve is still in flight) the frame's first pass draws the
/// incoming scene directly onto the surface; the captured scene,
/// changed at most by its own clock's advance, draws into the offscreen
/// texture the transition was given; and the composite pass comes last,
/// loading the surface the incoming scene wrote.
pub proof fn lemma_capture_then_next_tick(
    captured: SceneType,
    resources: TransitionResources,
    t0: u64,
    e1: Engine,
    e2: Engine,
    e3: Engine,
    now: u64,
    f: Frame,
)
    requires
        e1.transition matches Some(t) && Transition::fresh_post(t, captured, t0, resources),
        e1.scene is Some,
        Engine::update_post(e1, e2, now),
        Engine::render_post(e2, e3, now, f),
        now - t0 < TRANSITION_DURATION_MS,
    ensures
        f.passes@.len() == 3,
        e3.scene is Some,
        SceneType::render_step(e1.scene->0, e3.scene->0, now),
        is_scene_pass(f.passes@[0], e3.scene->0, RenderTarget::WindowSurface),
        e3.transition matches Some(t3) && SceneType::render_step(captured, t3.scene, now)
            && is_scene_pass(
            f.passes@[1],
            t3.scene,
            RenderTarget::Texture(resources.scene_texture),
        ),
        f.passes@[2].load is Load,
        f.passes@[2].target == RenderTarget::WindowSurface,
        f.passes@[2].pipeline is Transition,
{
}

/// How many passes the active scene alone contributes to a frame.
pub open spec fn scene_pass_count(e: Engine) -> nat {
    if e.scene is Some {
        1nat
    } else {
        0nat
    }
}

} // verus!
