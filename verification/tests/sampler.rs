use hemera::primitives::image::Image;
use hemera::primitives::plane::{Plane, COORD_ONE};
use hemera::renderer::engine::Engine;
use hemera::renderer::render_context::Color;
use hemera::renderer::sampler::{blend, sample_frame_center};
use hemera::renderer::scenes::{ImageScene, SceneType, TestImageScene};
use hemera::renderer::transitions::TransitionResources;

fn red() -> Color {
    Color { r: 1000, g: 0, b: 0, a: 1000 }
}

fn blue() -> Color {
    Color { r: 0, g: 0, b: 1000, a: 1000 }
}

fn black() -> Color {
    Color { r: 0, g: 0, b: 0, a: 1000 }
}

fn image_scene(bind_group: u32) -> SceneType {
    SceneType::Image(ImageScene {
        image: Image::new(Plane::new(COORD_ONE), bind_group, bind_group, 100, 200),
    })
}

fn resources() -> TransitionResources {
    TransitionResources {
        transition_buffer: 61,
        transition_bind_group: 62,
        vertex_buffer: 63,
        index_buffer: 64,
        bind_group: 65,
        scene_texture: 66,
    }
}

#[test]
fn blend_endpoints_and_midpoint() {
    assert_eq!(blend(red(), blue(), 0), red());
    assert_eq!(blend(red(), blue(), 1000), blue());
    let half = blend(red(), blue(), 500);
    assert_eq!((half.r, half.g, half.b, half.a), (500, 0, 500, 1000));
    let quarter = blend(red(), blue(), 250);
    assert_eq!((quarter.r, quarter.b), (750, 250));
}

#[test]
fn static_scene_shows_its_asset_at_the_center() {
    // scenario: load a static image, render one frame, sample the quad center
    let mut e = Engine::new();
    e.load_scene(image_scene(1));
    let f = e.render(0);
    let binds = vec![(1u32, red())];
    let captures: Vec<(u32, u32)> = Vec::new();
    let sampled = sample_frame_center(&f, &binds, &captures, black());
    assert_eq!(sampled, red());
}

#[test]
fn uncovered_center_keeps_the_background() {
    let mut e = Engine::new();
    e.load_scene(SceneType::Image(ImageScene {
        image: Image::new(Plane::new_with_offset(100, 700, 700), 1, 1, 100, 200),
    }));
    let f = e.render(0);
    let binds = vec![(1u32, red())];
    let captures: Vec<(u32, u32)> = Vec::new();
    let sampled = sample_frame_center(&f, &binds, &captures, black());
    // the quad sits off-center, so the cleared background shows through
    assert_eq!((sampled.r, sampled.g, sampled.b, sampled.a), (0, 500, 300, 1000));
}

#[test]
fn later_images_draw_on_top() {
    let mut e = Engine::new();
    e.load_scene(SceneType::TestImages(TestImageScene {
        images: vec![
            Image::new(Plane::new(COORD_ONE), 1, 1, 100, 200),
            Image::new(Plane::new(COORD_ONE), 2, 2, 101, 201),
            Image::new(Plane::new_with_offset(100, 700, 700), 3, 3, 102, 202),
        ],
    }));
    let f = e.render(0);
    let binds = vec![(1u32, red()), (2u32, blue()), (3u32, black())];
    let captures: Vec<(u32, u32)> = Vec::new();
    let sampled = sample_frame_center(&f, &binds, &captures, black());
    // the second image covers the center and draws after the first;
    // the third never touches the center
    assert_eq!(sampled, blue());
}

/// Renders one transition tick at `now` and samples the surface center.
fn transition_sample_at(now: u64) -> Color {
    let mut e = Engine::new();
    e.load_scene(image_scene(1)); // asset A, red
    e.load_transition(0, resources());
    e.load_scene(image_scene(2)); // asset B, blue
    e.update(now);
    let f = e.render(now);
    let binds = vec![(1u32, red()), (2u32, blue())];
    // the composite bind group views the offscreen capture
    let captures = vec![(65u32, 66u32)];
    sample_frame_center(&f, &binds, &captures, black())
}

#[test]
fn crossfade_starts_on_the_outgoing_asset() {
    assert_eq!(transition_sample_at(0), red());
}

#[test]
fn crossfade_moves_monotonically_toward_the_incoming_asset() {
    // dissolve speed 500 permille per second: mix(t) = t / 2, so the
    // sampled red channel is 1000 - t/2 and the blue channel t/2
    let s500 = transition_sample_at(500);
    assert_eq!((s500.r, s500.b), (750, 250));
    let s1000 = transition_sample_at(1000);
    assert_eq!((s1000.r, s1000.b), (500, 500));
    let s1500 = transition_sample_at(1500);
    assert_eq!((s1500.r, s1500.b), (250, 750));

    let samples = [
        transition_sample_at(0),
        s500,
        s1000,
        s1500,
        transition_sample_at(1999),
    ];
    for pair in samples.windows(2) {
        assert!(pair[1].r <= pair[0].r, "red only ever fades out");
        assert!(pair[1].b >= pair[0].b, "blue only ever fades in");
    }
}

#[test]
fn crossfade_ends_on_the_incoming_asset() {
    // at the transition duration the dissolve has saturated and the
    // completed transition is torn down: the incoming asset alone shows
    assert_eq!(transition_sample_at(2000), blue());
    assert_eq!(transition_sample_at(100_000), blue());
}
