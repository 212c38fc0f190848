use vstd::prelude::*;

use crate::renderer::clock::MAX_TIME_MS;
use crate::renderer::engine::Engine;
use crate::renderer::render_context::Frame;
use crate::renderer::scenes::SceneType;
use crate::renderer::transitions::{Transition, TransitionResources};

verus! {

/// Label for the work a tick runs once at startup.
#[derive(Clone, Copy, PartialEq, Eq, Structural, Hash, Debug)]
pub struct StartupSchedule;

/// Label for the per-tick update-and-render work.
#[derive(Clone, Copy, PartialEq, Eq, Structural, Hash, Debug)]
pub struct UpdateSchedule;

/// Label for the work a tick runs after rendering.
#[derive(Clone, Copy, PartialEq, Eq, Structural, Hash, Debug)]
pub struct AfterRenderSchedule;

/// Ways acquiring the presentable target image can fail.
#[derive(Clone, Copy, PartialEq, Eq, Structural, Debug)]
pub enum TargetError {
    Timeout,
    Outdated,
    Lost,
    OutOfMemory,
}

/// What the loop does about a failed target acquisition: drop the frame
/// and try again next tick, or terminate.
#[derive(Clone, Copy, PartialEq, Eq, Structural, Debug)]
pub enum ErrorDirective {
    SkipFrame,
    Terminate,
}

/// Classifies a target-acquisition failure: running out of memory is
/// fatal; a lost, outdated or timed-out target resolves itself by the
/// next frame, so the frame is dropped and the loop goes on.
pub fn classify_target_error(e: TargetError) -> (d: ErrorDirective)
    ensures
        d == (match e {
            TargetError::OutOfMemory => ErrorDirective::Terminate,
            _ => ErrorDirective::SkipFrame,
        }),
{
    match e {
        TargetError::OutOfMemory => ErrorDirective::Terminate,
        _ => ErrorDirective::SkipFrame,
    }
}

/// An input the frame loop interprets. Everything else the window
/// delivers is ignored.
pub enum LoopEvent {
    /// The window was asked to close (or destroyed).
    CloseRequested,
    /// The quit key was pressed.
    EscapePressed,
    /// The external trigger to advance to a new scene: the freshly
    /// loaded incoming scene and the GPU resource ids created for the
    /// transition.
    TransitionTriggered { scene: SceneType, resources: TransitionResources },
    /// The window asked for a redraw.
    RedrawRequested,
    /// The event queue drained; a redraw should be requested.
    MainEventsCleared,
    /// Acquiring the presentable target failed while rendering.
    TargetFailed(TargetError),
}

/// What the caller must do after a step of the loop.
pub enum LoopAction {
    /// Leave the event loop.
    Exit,
    /// Submit the frame's passes to the queue and present.
    Render(Frame),
    /// Ask the window for a redraw.
    RequestRedraw,
    /// Nothing to do.
    Idle,
}

/// The invariant the frame loop maintains between events: the engine's
/// contents are well formed, a transition in flight never outlives its
/// start time, and while a transition is in flight an incoming scene is
/// installed — so every composite pass has a scene pass to blend over.
pub open spec fn loop_inv(e: Engine) -> bool {
    &&& e.wf()
    &&& (e.transition is Some ==> e.scene is Some)
}

/// One redraw tick: first update (which may tear down a completed
/// transition), then render the frame from the updated state.
pub open spec fn redraw_post(pre: Engine, post: Engine, now: u64, f: Frame) -> bool {
    exists|mid: Engine|
        #[trigger] Engine::update_post(pre, mid, now) && Engine::render_post(mid, post, now, f)
}

/// Drives the engine by one event and says what the caller must do
/// next. This is every decision the loop makes; the caller performs the
/// waiting, drawing and presenting around it.
pub fn step(engine: &mut Engine, event: LoopEvent, now: u64) -> (a: LoopAction)
    requires
        loop_inv(*old(engine)),
        now <= MAX_TIME_MS,
        old(engine).transition matches Some(t) ==> t.time_started <= now,
        event matches LoopEvent::TransitionTriggered { scene, resources } ==> {
            &&& old(engine).scene is Some
            &&& scene.wf()
        },
    ensures
        loop_inv(*final(engine)),
        match event {
            LoopEvent::CloseRequested => a is Exit && *final(engine) == *old(engine),
            LoopEvent::EscapePressed => a is Exit && *final(engine) == *old(engine),
            LoopEvent::TransitionTriggered { scene, resources } => {
                &&& a is Idle
                &&& final(engine).scene == Some(scene)
                &&& final(engine).transition matches Some(t)
                    && Transition::fresh_post(t, old(engine).scene->0, now, resources)
            },
            LoopEvent::RedrawRequested => {
                a matches LoopAction::Render(f)
                    && redraw_post(*old(engine), *final(engine), now, f)
            },
            LoopEvent::MainEventsCleared => a is RequestRedraw && *final(engine) == *old(engine),
            LoopEvent::TargetFailed(e) => {
                &&& *final(engine) == *old(engine)
                &&& (e is OutOfMemory ==> a is Exit)
                &&& (!(e is OutOfMemory) ==> a is Idle)
            },
        },
{
    match event {
        LoopEvent::CloseRequested => LoopAction::Exit,
        LoopEvent::EscapePressed => LoopAction::Exit,
        LoopEvent::TransitionTriggered { scene, resources } => {
            engine.load_transition(now, resources);
            engine.load_scene(scene);
            LoopAction::Idle
        },
        LoopEvent::RedrawRequested => {
            engine.update(now);
            let ghost mid: Engine = *engine;
            let frame = engine.render(now);
            proof {
                assert(Engine::update_post(*old(engine), mid, now));
            }
            LoopAction::Render(frame)
        },
        LoopEvent::MainEventsCleared => LoopAction::RequestRedraw,
        LoopEvent::TargetFailed(e) => {
            match classify_target_error(e) {
                ErrorDirective::Terminate => LoopAction::Exit,
                ErrorDirective::SkipFrame => LoopAction::Idle,
            }
        },
    }
}

} // verus!
