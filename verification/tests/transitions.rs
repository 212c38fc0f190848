use hemera::primitives::image::Image;
use hemera::primitives::plane::{Plane, COORD_ONE};
use hemera::renderer::render_context::{PassLoadOp, PipelineKind, RenderTarget};
use hemera::renderer::scenes::{ImageScene, SceneType};
use hemera::renderer::transitions::{
    Transition, TransitionResources, TransitionUniform, DISSOLVE_SPEED_PERMILLE,
    TRANSITION_DURATION_MS,
};

fn resources() -> TransitionResources {
    TransitionResources {
        transition_buffer: 61,
        transition_bind_group: 62,
        vertex_buffer: 63,
        index_buffer: 64,
        bind_group: 65,
        scene_texture: 66,
    }
}

fn outgoing() -> SceneType {
    SceneType::Image(ImageScene {
        image: Image::new(Plane::new(COORD_ONE), 1, 11, 111, 211),
    })
}

#[test]
fn start_captures_the_scene_and_zeroes_the_uniform() {
    let t = Transition::test(outgoing(), 5000, resources());
    assert_eq!(t.time_started, 5000);
    assert_eq!(t.transition_uniform.time_offset_ms, 0);
    assert_eq!(t.transition_uniform.dissolve_speed_permille, DISSOLVE_SPEED_PERMILLE);
    assert_eq!(t.scene_texture, 66);
    assert_eq!(t.bind_group, 65);
    match &t.scene {
        SceneType::Image(s) => assert_eq!(s.image.bind_group, 11),
        _ => panic!("outgoing scene kind changed"),
    }
}

#[test]
fn tick_renders_outgoing_offscreen_then_composites_with_load() {
    let mut t = Transition::test(outgoing(), 0, resources());
    let (outgoing_pass, composite_pass) = t.transition(10, RenderTarget::WindowSurface);

    assert_eq!(outgoing_pass.target, RenderTarget::Texture(66));
    assert!(matches!(outgoing_pass.load, PassLoadOp::Clear(_)));
    assert_eq!(outgoing_pass.pipeline, PipelineKind::Texture);
    assert_eq!(outgoing_pass.draws.len(), 1);
    assert_eq!(outgoing_pass.draws[0].bind_group, 11);

    assert_eq!(composite_pass.target, RenderTarget::WindowSurface);
    assert!(matches!(composite_pass.load, PassLoadOp::Load));
    assert_eq!(composite_pass.pipeline, PipelineKind::Transition);
    assert_eq!(composite_pass.uniform_bind_group, Some(62));
    assert_eq!(composite_pass.draws.len(), 1);
    assert_eq!(composite_pass.draws[0].bind_group, 65);
    assert!(composite_pass.draws[0].covers_center);
}

#[test]
fn uniform_update_tracks_elapsed_time() {
    let mut t = Transition::test(outgoing(), 1000, resources());
    t.update_uniform(1400);
    assert_eq!(t.transition_uniform.time_offset_ms, 400);
    assert_eq!(t.transition_uniform.dissolve_speed_permille, DISSOLVE_SPEED_PERMILLE);
}

#[test]
fn completion_at_the_fixed_duration() {
    let t = Transition::test(outgoing(), 1000, resources());
    assert!(!t.is_complete(1000));
    assert!(!t.is_complete(1000 + TRANSITION_DURATION_MS - 1));
    assert!(t.is_complete(1000 + TRANSITION_DURATION_MS));
    assert!(t.is_complete(1000 + 10 * TRANSITION_DURATION_MS));
}

#[test]
fn mix_grows_linearly_and_saturates() {
    let mix = |elapsed: u64| {
        let u = TransitionUniform {
            time_offset_ms: elapsed,
            dissolve_speed_permille: DISSOLVE_SPEED_PERMILLE,
        };
        u.mix_permille()
    };
    assert_eq!(mix(0), 0);
    assert_eq!(mix(500), 250);
    assert_eq!(mix(1000), 500);
    assert_eq!(mix(2000), 1000);
    assert_eq!(mix(1_000_000), 1000); // grows without bound, mix stays clamped
}

#[test]
fn update_time_offset_overwrites_only_the_time() {
    let mut u = TransitionUniform { time_offset_ms: 3, dissolve_speed_permille: 500 };
    u.update_time_offset(77);
    assert_eq!(u.time_offset_ms, 77);
    assert_eq!(u.dissolve_speed_permille, 500);
}
