use hemera::event_loop::{
    classify_target_error, step, ErrorDirective, LoopAction, LoopEvent, TargetError,
};
use hemera::primitives::image::Image;
use hemera::primitives::plane::{Plane, COORD_ONE};
use hemera::renderer::engine::Engine;
use hemera::renderer::render_context::{PassLoadOp, PipelineKind, RenderTarget};
use hemera::renderer::scenes::{ImageScene, SceneType};
use hemera::renderer::transitions::{TransitionResources, TRANSITION_DURATION_MS};

fn scene(bind_group: u32) -> SceneType {
    SceneType::Image(ImageScene {
        image: Image::new(Plane::new(COORD_ONE), bind_group, bind_group, 100, 200),
    })
}

fn resources() -> TransitionResources {
    TransitionResources {
        transition_buffer: 61,
        transition_bind_group: 62,
        vertex_buffer: 63,
        index_buffer: 64,
        bind_group: 65,
        scene_texture: 66,
    }
}

#[test]
fn render_without_scene_or_transition_is_empty() {
    let mut e = Engine::new();
    let f = e.render(0);
    assert_eq!(f.passes.len(), 0);
}

#[test]
fn render_with_scene_alone_is_one_surface_pass() {
    let mut e = Engine::new();
    e.load_scene(scene(7));
    let f = e.render(0);
    assert_eq!(f.passes.len(), 1);
    assert_eq!(f.passes[0].target, RenderTarget::WindowSurface);
    assert_eq!(f.passes[0].draws[0].bind_group, 7);
}

#[test]
fn starting_a_transition_captures_the_old_scene_unchanged() {
    let mut e = Engine::new();
    e.load_scene(scene(7));
    e.load_transition(1000, resources());
    assert!(e.scene.is_none());
    let t = e.transition.as_ref().expect("transition installed");
    assert_eq!(t.time_started, 1000);
    match &t.scene {
        SceneType::Image(s) => {
            assert_eq!(s.image.bind_group, 7);
            assert_eq!(s.image.texture, 7);
            let vs = s.image.plane.get_vertices();
            assert_eq!(vs.len(), 4);
            assert_eq!((vs[0].x, vs[0].y), (-1000, -1000));
        },
        _ => panic!("outgoing scene kind changed"),
    }
}

#[test]
fn new_scene_renders_on_the_very_next_tick() {
    let mut e = Engine::new();
    e.load_scene(scene(7));
    e.load_transition(1000, resources());
    e.load_scene(scene(8));
    let f = e.render(1000);
    assert_eq!(f.passes.len(), 3);
    // incoming scene first, directly onto the surface
    assert_eq!(f.passes[0].target, RenderTarget::WindowSurface);
    assert_eq!(f.passes[0].draws[0].bind_group, 8);
    // outgoing scene into the offscreen texture
    assert_eq!(f.passes[1].target, RenderTarget::Texture(66));
    assert_eq!(f.passes[1].draws[0].bind_group, 7);
    // composite over the surface, loading what the incoming scene wrote
    assert_eq!(f.passes[2].target, RenderTarget::WindowSurface);
    assert!(matches!(f.passes[2].load, PassLoadOp::Load));
    assert_eq!(f.passes[2].pipeline, PipelineKind::Transition);
}

#[test]
fn composite_pass_always_follows_a_clearing_pass_on_its_target() {
    let mut e = Engine::new();
    e.load_scene(scene(7));
    e.load_transition(0, resources());
    e.load_scene(scene(8));
    let f = e.render(0);
    for (i, p) in f.passes.iter().enumerate() {
        if p.pipeline == PipelineKind::Transition {
            let cleared_before = f.passes[..i].iter().any(|q| {
                q.target == p.target
                    && q.pipeline == PipelineKind::Texture
                    && matches!(q.load, PassLoadOp::Clear(_))
            });
            assert!(cleared_before, "composite pass ran before its target was written");
        }
    }
}

#[test]
fn update_advances_the_dissolve_uniform() {
    let mut e = Engine::new();
    e.load_scene(scene(7));
    e.load_transition(1000, resources());
    e.load_scene(scene(8));
    e.update(1400);
    let t = e.transition.as_ref().expect("still in flight");
    assert_eq!(t.transition_uniform.time_offset_ms, 400);
}

#[test]
fn update_tears_down_a_completed_transition() {
    let mut e = Engine::new();
    e.load_scene(scene(7));
    e.load_transition(1000, resources());
    e.load_scene(scene(8));
    e.update(1000 + TRANSITION_DURATION_MS - 1);
    assert!(e.transition.is_some());
    e.update(1000 + TRANSITION_DURATION_MS);
    assert!(e.transition.is_none(), "outgoing scene released at the duration");
    // the engine renders the incoming scene alone afterwards
    let f = e.render(1000 + TRANSITION_DURATION_MS);
    assert_eq!(f.passes.len(), 1);
}

#[test]
fn update_without_transition_changes_nothing() {
    let mut e = Engine::new();
    e.load_scene(scene(7));
    e.update(123);
    assert!(e.transition.is_none());
    assert!(e.scene.is_some());
}

#[test]
fn error_classification_matches_the_design() {
    assert_eq!(classify_target_error(TargetError::Lost), ErrorDirective::SkipFrame);
    assert_eq!(classify_target_error(TargetError::Outdated), ErrorDirective::SkipFrame);
    assert_eq!(classify_target_error(TargetError::Timeout), ErrorDirective::SkipFrame);
    assert_eq!(classify_target_error(TargetError::OutOfMemory), ErrorDirective::Terminate);
}

#[test]
fn close_and_escape_exit_the_loop() {
    let mut e = Engine::new();
    assert!(matches!(step(&mut e, LoopEvent::CloseRequested, 0), LoopAction::Exit));
    assert!(matches!(step(&mut e, LoopEvent::EscapePressed, 0), LoopAction::Exit));
}

#[test]
fn drained_events_request_a_redraw() {
    let mut e = Engine::new();
    assert!(matches!(step(&mut e, LoopEvent::MainEventsCleared, 0), LoopAction::RequestRedraw));
}

#[test]
fn target_failures_skip_or_terminate() {
    let mut e = Engine::new();
    assert!(matches!(
        step(&mut e, LoopEvent::TargetFailed(TargetError::Lost), 0),
        LoopAction::Idle
    ));
    assert!(matches!(
        step(&mut e, LoopEvent::TargetFailed(TargetError::OutOfMemory), 0),
        LoopAction::Exit
    ));
}

#[test]
fn trigger_then_redraw_drives_a_full_tick() {
    let mut e = Engine::new();
    e.load_scene(scene(7));
    let a = step(
        &mut e,
        LoopEvent::TransitionTriggered { scene: scene(8), resources: resources() },
        500,
    );
    assert!(matches!(a, LoopAction::Idle));
    assert!(e.scene.is_some());
    assert!(e.transition.is_some());

    match step(&mut e, LoopEvent::RedrawRequested, 600) {
        LoopAction::Render(f) => {
            assert_eq!(f.passes.len(), 3);
            assert_eq!(f.passes[0].draws[0].bind_group, 8);
            assert_eq!(f.passes[1].draws[0].bind_group, 7);
            // update ran before render: the uniform carries the elapsed time
            assert_eq!(f.passes[2].uniform.expect("uniform bound").time_offset_ms, 100);
        },
        _ => panic!("redraw must render"),
    }

    // once the dissolve has saturated, a redraw renders the scene alone
    match step(&mut e, LoopEvent::RedrawRequested, 500 + TRANSITION_DURATION_MS) {
        LoopAction::Render(f) => assert_eq!(f.passes.len(), 1),
        _ => panic!("redraw must render"),
    }
    assert!(e.transition.is_none());
}
