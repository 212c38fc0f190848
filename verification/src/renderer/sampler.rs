use vstd::prelude::*;
use vstd::arithmetic::div_mod::{
    lemma_div_by_multiple, lemma_div_is_ordered, lemma_div_pos_is_pos,
};
use vstd::arithmetic::mul::lemma_mul_inequality;

use crate::renderer::render_context::{
    Color, DrawCall, Frame, PassLoadOp, PipelineKind, RenderPassDesc, RenderTarget, CHANNEL_MAX,
};
use crate::renderer::transitions::{dissolve_mix, TransitionUniform, MIX_FULL};

verus! {

/// One channel of a linear blend: `a` moved toward `b` by `m` permille.
pub open spec fn blend_channel(a: int, b: int, m: int) -> int {
    if a <= b {
        a + (b - a) * m / 1000
    } else {
        a - (a - b) * m / 1000
    }
}

/// `cur` blended linearly toward `toward` by `m` permille, channel by
/// channel: `0` keeps `cur`, `1000` gives `toward`.
pub open spec fn blend_spec(cur: Color, toward: Color, m: int) -> Color {
    Color {
        r: blend_channel(cur.r as int, toward.r as int, m) as u32,
        g: blend_channel(cur.g as int, toward.g as int, m) as u32,
        b: blend_channel(cur.b as int, toward.b as int, m) as u32,
        a: blend_channel(cur.a as int, toward.a as int, m) as u32,
    }
}

/// A blended channel stays between its two endpoints.
pub proof fn lemma_blend_channel_bounds(a: int, b: int, m: int)
    requires
        0 <= a,
        0 <= b,
        0 <= m <= 1000,
    ensures
        a <= b ==> a <= blend_channel(a, b, m) <= b,
        b <= a ==> b <= blend_channel(a, b, m) <= a,
{
    if a <= b {
        lemma_blend_step_bounds(b - a, m);
    } else {
        lemma_blend_step_bounds(a - b, m);
    }
}

/// The blend step `d * m / 1000` lies between `0` and `d`.
proof fn lemma_blend_step_bounds(d: int, m: int)
    requires
        0 <= d,
        0 <= m <= 1000,
    ensures
        0 <= d * m / 1000 <= d,
{
    lemma_mul_inequality(m, 1000, d);
    assert(d * m == m * d) by (nonlinear_arith);
    assert(d * 1000 == 1000 * d) by (nonlinear_arith);
    lemma_div_is_ordered(d * m, d * 1000, 1000);
    lemma_div_by_multiple(d, 1000);
    assert(d * m >= 0) by (nonlinear_arith)
        requires
            d >= 0,
            m >= 0,
    ;
    lemma_div_pos_is_pos(d * m, 1000);
}

/// Blending by more permille moves a channel further toward its target,
/// never back.
pub proof fn lemma_blend_channel_monotonic(a: int, b: int, m1: int, m2: int)
    requires
        0 <= a,
        0 <= b,
        0 <= m1 <= m2 <= 1000,
    ensures
        a <= b ==> blend_channel(a, b, m1) <= blend_channel(a, b, m2),
        b <= a ==> blend_channel(a, b, m2) <= blend_channel(a, b, m1),
{
    let d = if a <= b {
        b - a
    } else {
        a - b
    };
    lemma_mul_inequality(m1, m2, d);
    assert(d * m1 == m1 * d) by (nonlinear_arith);
    assert(d * m2 == m2 * d) by (nonlinear_arith);
    lemma_div_is_ordered(d * m1, d * m2, 1000);
}

/// Blending by nothing changes nothing.
pub proof fn lemma_blend_channel_zero(a: int, b: int)
    requires
        0 <= a,
        0 <= b,
    ensures
        blend_channel(a, b, 0) == a,
{
    let d = if a <= b {
        b - a
    } else {
        a - b
    };
    assert(d * 0 == 0);
}

/// Blending fully lands exactly on the target.
pub proof fn lemma_blend_channel_full(a: int, b: int)
    requires
        0 <= a,
        0 <= b,
    ensures
        blend_channel(a, b, 1000) == b,
{
    let d = if a <= b {
        b - a
    } else {
        a - b
    };
    lemma_div_by_multiple(d, 1000);
    assert(d * 1000 == 1000 * d) by (nonlinear_arith);
}

/// Blends `cur` toward `toward` by `permille`, channel by channel.
pub fn blend(cur: Color, toward: Color, permille: u32) -> (c: Color)
    requires
        cur.wf(),
        toward.wf(),
        permille <= 1000,
    ensures
        c == blend_spec(cur, toward, permille as int),
        c.wf(),
{
    proof {
        lemma_blend_channel_bounds(cur.r as int, toward.r as int, permille as int);
        lemma_blend_channel_bounds(cur.g as int, toward.g as int, permille as int);
        lemma_blend_channel_bounds(cur.b as int, toward.b as int, permille as int);
        lemma_blend_channel_bounds(cur.a as int, toward.a as int, permille as int);
    }
    Color {
        r: blend_one(cur.r, toward.r, permille),
        g: blend_one(cur.g, toward.g, permille),
        b: blend_one(cur.b, toward.b, permille),
        a: blend_one(cur.a, toward.a, permille),
    }
}

/// One executable channel blend.
fn blend_one(a: u32, b: u32, m: u32) -> (r: u32)
    requires
        a <= CHANNEL_MAX,
        b <= CHANNEL_MAX,
        m <= 1000,
    ensures
        r == blend_channel(a as int, b as int, m as int),
        r <= CHANNEL_MAX,
{
    proof {
        lemma_blend_channel_bounds(a as int, b as int, m as int);
    }
    if a <= b {
        a + (b - a) * m / 1000
    } else {
        a - (a - b) * m / 1000
    }
}

/// Dissolve progression: with the composite pass blending the captured
/// outgoing color over the incoming target content at the dissolve's
/// remaining opacity, a later elapsed time gives a center pixel no
/// farther from the incoming color, channel by channel — and once the
/// mix has saturated, exactly the incoming color. Blending never leaves
/// the band between the two colors, so the crossfade is monotone.
pub proof fn lemma_dissolve_approaches_incoming(
    incoming: Color,
    captured: Color,
    e1: int,
    e2: int,
    speed: int,
)
    requires
        incoming.wf(),
        captured.wf(),
        0 <= e1 <= e2,
        speed >= 0,
    ensures
        ({
            let c1 = blend_spec(incoming, captured, MIX_FULL - dissolve_mix(e1, speed));
            let c2 = blend_spec(incoming, captured, MIX_FULL - dissolve_mix(e2, speed));
            &&& (incoming.r <= captured.r ==> incoming.r <= c2.r <= c1.r <= captured.r)
            &&& (captured.r <= incoming.r ==> captured.r <= c1.r <= c2.r <= incoming.r)
            &&& (incoming.g <= captured.g ==> incoming.g <= c2.g <= c1.g <= captured.g)
            &&& (captured.g <= incoming.g ==> captured.g <= c1.g <= c2.g <= incoming.g)
            &&& (incoming.b <= captured.b ==> incoming.b <= c2.b <= c1.b <= captured.b)
            &&& (captured.b <= incoming.b ==> captured.b <= c1.b <= c2.b <= incoming.b)
            &&& (incoming.a <= captured.a ==> incoming.a <= c2.a <= c1.a <= captured.a)
            &&& (captured.a <= incoming.a ==> captured.a <= c1.a <= c2.a <= incoming.a)
            &&& (dissolve_mix(e1, speed) == 0 ==> c1 == captured)
            &&& (dissolve_mix(e2, speed) == MIX_FULL ==> c2 == incoming)
        }),
{
    crate::renderer::transitions::lemma_dissolve_mix_in_range(e1, speed);
    crate::renderer::transitions::lemma_dissolve_mix_in_range(e2, speed);
    crate::renderer::transitions::lemma_dissolve_mix_monotonic(e1, e2, speed);
    let o1 = MIX_FULL - dissolve_mix(e1, speed);
    let o2 = MIX_FULL - dissolve_mix(e2, speed);
    lemma_blend_channel_bounds(incoming.r as int, captured.r as int, o1);
    lemma_blend_channel_bounds(incoming.g as int, captured.g as int, o1);
    lemma_blend_channel_bounds(incoming.b as int, captured.b as int, o1);
    lemma_blend_channel_bounds(incoming.a as int, captured.a as int, o1);
    lemma_blend_channel_bounds(incoming.r as int, captured.r as int, o2);
    lemma_blend_channel_bounds(incoming.g as int, captured.g as int, o2);
    lemma_blend_channel_bounds(incoming.b as int, captured.b as int, o2);
    lemma_blend_channel_bounds(incoming.a as int, captured.a as int, o2);
    lemma_blend_channel_monotonic(incoming.r as int, captured.r as int, o2, o1);
    lemma_blend_channel_monotonic(incoming.g as int, captured.g as int, o2, o1);
    lemma_blend_channel_monotonic(incoming.b as int, captured.b as int, o2, o1);
    lemma_blend_channel_monotonic(incoming.a as int, captured.a as int, o2, o1);
    if dissolve_mix(e1, speed) == 0 {
        lemma_blend_channel_full(incoming.r as int, captured.r as int);
        lemma_blend_channel_full(incoming.g as int, captured.g as int);
        lemma_blend_channel_full(incoming.b as int, captured.b as int);
        lemma_blend_channel_full(incoming.a as int, captured.a as int);
    }
    if dissolve_mix(e2, speed) == MIX_FULL {
        lemma_blend_channel_zero(incoming.r as int, captured.r as int);
        lemma_blend_channel_zero(incoming.g as int, captured.g as int);
        lemma_blend_channel_zero(incoming.b as int, captured.b as int);
        lemma_blend_channel_zero(incoming.a as int, captured.a as int);
    }
}

/// The first binding for key `k` in an association list, if any.
pub open spec fn assoc<T>(s: Seq<(u32, T)>, k: u32) -> Option<T>
    decreases s.len(),
{
    if s.len() == 0 {
        None
    } else if s[0].0 == k {
        Some(s[0].1)
    } else {
        assoc(s.subrange(1, s.len() as int), k)
    }
}

/// A found binding is one of the list's entries.
proof fn lemma_assoc_in<T>(s: Seq<(u32, T)>, k: u32)
    requires
        assoc(s, k) is Some,
    ensures
        exists|i: int| 0 <= i < s.len() && s[i] == (k, assoc(s, k)->0),
    decreases s.len(),
{
    if s.len() > 0 && s[0].0 != k {
        let rest = s.subrange(1, s.len() as int);
        lemma_assoc_in(rest, k);
        let i = choose|i: int| 0 <= i < rest.len() && rest[i] == (k, assoc(rest, k)->0);
        assert(s[i + 1] == (k, assoc(s, k)->0));
    }
}

/// Looks `k` up in an association list, front to back.
fn assoc_get<T: Copy>(v: &Vec<(u32, T)>, k: u32) -> (r: Option<T>)
    ensures
        r == assoc(v@, k),
{
    let mut idx: usize = 0;
    proof {
        assert(v@.subrange(0, v@.len() as int) =~= v@);
    }
    while idx < v.len()
        invariant
            idx <= v@.len(),
            assoc(v@, k) == assoc(v@.subrange(idx as int, v@.len() as int), k),
        decreases v@.len() - idx,
    {
        proof {
            let suffix = v@.subrange(idx as int, v@.len() as int);
            assert(suffix[0] == v@[idx as int]);
            assert(suffix.subrange(1, suffix.len() as int)
                =~= v@.subrange(idx as int + 1, v@.len() as int));
        }
        let entry = v[idx];
        if entry.0 == k {
            return Some(entry.1);
        }
        idx = idx + 1;
    }
    proof {
        assert(v@.subrange(v@.len() as int, v@.len() as int) =~= Seq::<(u32, T)>::empty());
    }
    None
}

/// Every color bound in the list is a well-formed color.
pub open spec fn colors_wf(s: Seq<(u32, Color)>) -> bool {
    forall|i: int| 0 <= i < s.len() ==> (#[trigger] s[i]).1.wf()
}

/// How much of the offscreen capture a transition draw still shows: the
/// dissolve starts fully opaque and fades out as the mix saturates. A
/// pass with no uniform bound draws nothing visible.
pub open spec fn pass_opacity(uniform: Option<TransitionUniform>) -> int {
    match uniform {
        Some(u) => MIX_FULL - dissolve_mix(u.time_offset_ms as int, u.dissolve_speed_permille as int),
        None => 0,
    }
}

/// The color a never-written offscreen texture reads as.
pub open spec fn zero_color() -> Color {
    Color { r: 0, g: 0, b: 0, a: 0 }
}

/// The center-pixel effect of one draw: a quad not covering the center
/// leaves the pixel alone; a scene-pipeline quad replaces it with its
/// texture's color; a transition-pipeline quad blends the offscreen
/// capture its bind group views over the pixel, at the dissolve's
/// remaining opacity.
pub open spec fn draw_color(
    cur: Color,
    d: DrawCall,
    pipeline: PipelineKind,
    binds: Seq<(u32, Color)>,
    captures: Seq<(u32, u32)>,
    offs: Seq<(u32, Color)>,
    uniform: Option<TransitionUniform>,
) -> Color {
    if !d.covers_center {
        cur
    } else {
        match pipeline {
            PipelineKind::Texture => match assoc(binds, d.bind_group) {
                Some(c) => c,
                None => cur,
            },
            PipelineKind::Transition => match assoc(captures, d.bind_group) {
                Some(tex) => match assoc(offs, tex) {
                    Some(captured) => blend_spec(cur, captured, pass_opacity(uniform)),
                    None => cur,
                },
                None => cur,
            },
        }
    }
}

/// The center pixel after a pass's draws run in order.
pub open spec fn apply_draws(
    cur: Color,
    draws: Seq<DrawCall>,
    pipeline: PipelineKind,
    binds: Seq<(u32, Color)>,
    captures: Seq<(u32, u32)>,
    offs: Seq<(u32, Color)>,
    uniform: Option<TransitionUniform>,
) -> Color
    decreases draws.len(),
{
    if draws.len() == 0 {
        cur
    } else {
        apply_draws(
            draw_color(cur, draws[0], pipeline, binds, captures, offs, uniform),
            draws.subrange(1, draws.len() as int),
            pipeline,
            binds,
            captures,
            offs,
            uniform,
        )
    }
}

/// The surface's and the offscreen textures' center pixels after one
/// render pass: resolve the target's current content, apply the pass's
/// load op, run its draws, write the result back.
pub open spec fn apply_pass(
    surface: Color,
    offs: Seq<(u32, Color)>,
    p: RenderPassDesc,
    binds: Seq<(u32, Color)>,
    captures: Seq<(u32, u32)>,
) -> (Color, Seq<(u32, Color)>) {
    let cur0 = match p.target {
        RenderTarget::WindowSurface => surface,
        RenderTarget::Texture(id) => match assoc(offs, id) {
            Some(c) => c,
            None => zero_color(),
        },
    };
    let base = match p.load {
        PassLoadOp::Clear(c) => c,
        PassLoadOp::Load => cur0,
    };
    let end = apply_draws(base, p.draws@, p.pipeline, binds, captures, offs, p.uniform);
    match p.target {
        RenderTarget::WindowSurface => (end, offs),
        RenderTarget::Texture(id) => (surface, offs.insert(0, (id, end))),
    }
}

/// The center pixels after a sequence of passes runs in order.
pub open spec fn run_passes(
    surface: Color,
    offs: Seq<(u32, Color)>,
    passes: Seq<RenderPassDesc>,
    binds: Seq<(u32, Color)>,
    captures: Seq<(u32, u32)>,
) -> (Color, Seq<(u32, Color)>)
    decreases passes.len(),
{
    if passes.len() == 0 {
        (surface, offs)
    } else {
        let st = apply_pass(surface, offs, passes[0], binds, captures);
        run_passes(st.0, st.1, passes.subrange(1, passes.len() as int), binds, captures)
    }
}

/// The color the surface's center pixel shows once a frame has fully
/// run: `binds` says what color each image bind group's texture samples
/// at the quad center, `captures` which offscreen texture each
/// composite bind group views, and `initial` what the surface held
/// before the frame.
pub open spec fn frame_center_color(
    f: Frame,
    binds: Seq<(u32, Color)>,
    captures: Seq<(u32, u32)>,
    initial: Color,
) -> Color {
    run_passes(initial, Seq::empty(), f.passes@, binds, captures).0
}

/// Every clear color a frame's passes use is a well-formed color.
pub open spec fn clears_wf(passes: Seq<RenderPassDesc>) -> bool {
    forall|i: int| 0 <= i < passes.len() ==>
        ((#[trigger] passes[i]).load matches PassLoadOp::Clear(c) ==> c.wf())
}

/// The remaining opacity of a transition pass, executable.
fn pass_opacity_exec(uniform: &Option<TransitionUniform>) -> (r: u32)
    ensures
        r == pass_opacity(*uniform),
        r <= 1000,
{
    match uniform {
        Some(u) => {
            let m = u.mix_permille();
            MIX_FULL - m
        },
        None => 0,
    }
}

/// The center-pixel effect of one draw, executable.
fn draw_color_exec(
    cur: Color,
    d: DrawCall,
    pipeline: PipelineKind,
    binds: &Vec<(u32, Color)>,
    captures: &Vec<(u32, u32)>,
    offs: &Vec<(u32, Color)>,
    uniform: &Option<TransitionUniform>,
) -> (c: Color)
    requires
        cur.wf(),
        colors_wf(binds@),
        colors_wf(offs@),
    ensures
        c == draw_color(cur, d, pipeline, binds@, captures@, offs@, *uniform),
        c.wf(),
{
    if !d.covers_center {
        return cur;
    }
    match pipeline {
        PipelineKind::Texture => {
            match assoc_get(binds, d.bind_group) {
                Some(c) => {
                    proof {
                        lemma_assoc_in(binds@, d.bind_group);
                    }
                    c
                },
                None => cur,
            }
        },
        PipelineKind::Transition => {
            match assoc_get(captures, d.bind_group) {
                Some(tex) => {
                    match assoc_get(offs, tex) {
                        Some(captured) => {
                            proof {
                                lemma_assoc_in(offs@, tex);
                            }
                            let opacity = pass_opacity_exec(uniform);
                            blend(cur, captured, opacity)
                        },
                        None => cur,
                    }
                },
                None => cur,
            }
        },
    }
}

/// The center pixel after a pass's draws run in order, executable.
fn apply_draws_exec(
    base: Color,
    draws: &Vec<DrawCall>,
    pipeline: PipelineKind,
    binds: &Vec<(u32, Color)>,
    captures: &Vec<(u32, u32)>,
    offs: &Vec<(u32, Color)>,
    uniform: &Option<TransitionUniform>,
) -> (c: Color)
    requires
        base.wf(),
        colors_wf(binds@),
        colors_wf(offs@),
    ensures
        c == apply_draws(base, draws@, pipeline, binds@, captures@, offs@, *uniform),
        c.wf(),
{
    let mut cur = base;
    let mut idx: usize = 0;
    proof {
        assert(draws@.subrange(0, draws@.len() as int) =~= draws@);
    }
    while idx < draws.len()
        invariant
            idx <= draws@.len(),
            cur.wf(),
            apply_draws(base, draws@, pipeline, binds@, captures@, offs@, *uniform)
                == apply_draws(
                cur,
                draws@.subrange(idx as int, draws@.len() as int),
                pipeline,
                binds@,
                captures@,
                offs@,
                *uniform,
            ),
        decreases draws@.len() - idx,
    {
        proof {
            let suffix = draws@.subrange(idx as int, draws@.len() as int);
            assert(suffix[0] == draws@[idx as int]);
            assert(suffix.subrange(1, suffix.len() as int)
                =~= draws@.subrange(idx as int + 1, draws@.len() as int));
        }
        cur = draw_color_exec(cur, draws[idx], pipeline, binds, captures, offs, uniform);
        idx = idx + 1;
    }
    proof {
        assert(draws@.subrange(draws@.len() as int, draws@.len() as int)
            =~= Seq::<DrawCall>::empty());
    }
    cur
}

/// Runs a whole frame against the center pixel and returns what the
/// surface shows afterwards. `binds` gives the color each image bind
/// group's texture samples at the quad center, `captures` the offscreen
/// texture each composite bind group views, `initial` the surface
/// content before the frame.
pub fn sample_frame_center(
    frame: &Frame,
    binds: &Vec<(u32, Color)>,
    captures: &Vec<(u32, u32)>,
    initial: Color,
) -> (c: Color)
    requires
        initial.wf(),
        colors_wf(binds@),
        clears_wf(frame.passes@),
    ensures
        c == frame_center_color(*frame, binds@, captures@, initial),
        c.wf(),
{
    let mut surface = initial;
    let mut offs: Vec<(u32, Color)> = Vec::new();
    let mut idx: usize = 0;
    proof {
        assert(offs@ =~= Seq::<(u32, Color)>::empty());
        assert(frame.passes@.subrange(0, frame.passes@.len() as int) =~= frame.passes@);
    }
    while idx < frame.passes.len()
        invariant
            idx <= frame.passes@.len(),
            surface.wf(),
            colors_wf(offs@),
            run_passes(initial, Seq::empty(), frame.passes@, binds@, captures@)
                == run_passes(
                surface,
                offs@,
                frame.passes@.subrange(idx as int, frame.passes@.len() as int),
                binds@,
                captures@,
            ),
        decreases frame.passes@.len() - idx,
    {
        proof {
            let suffix = frame.passes@.subrange(idx as int, frame.passes@.len() as int);
            assert(suffix[0] == frame.passes@[idx as int]);
            assert(suffix.subrange(1, suffix.len() as int)
                =~= frame.passes@.subrange(idx as int + 1, frame.passes@.len() as int));
        }
        let p = &frame.passes[idx];
        let cur0 = match p.target {
            RenderTarget::WindowSurface => surface,
            RenderTarget::Texture(id) => {
                match assoc_get(&offs, id) {
                    Some(c) => {
                        proof {
                            lemma_assoc_in(offs@, id);
                        }
                        c
                    },
                    None => Color { r: 0, g: 0, b: 0, a: 0 },
                }
            },
        };
        let base = match p.load {
            PassLoadOp::Clear(c) => c,
            PassLoadOp::Load => cur0,
        };
        let end = apply_draws_exec(base, &p.draws, p.pipeline, binds, captures, &offs, &p.uniform);
        match p.target {
            RenderTarget::WindowSurface => {
                surface = end;
            },
            RenderTarget::Texture(id) => {
                let ghost old_offs = offs@;
                offs.insert(0, (id, end));
                proof {
                    assert forall|i: int| 0 <= i < offs@.len() implies (#[trigger] offs@[i]).1.wf()
                    by {
                        if i > 0 {
                            assert(offs@[i] == old_offs[i - 1]);
                        }
                    }
                }
            },
        }
        idx = idx + 1;
    }
    proof {
        assert(frame.passes@.subrange(frame.passes@.len() as int, frame.passes@.len() as int)
            =~= Seq::<RenderPassDesc>::empty());
    }
    surface
}

} // verus!
