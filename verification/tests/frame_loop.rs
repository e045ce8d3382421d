//! Tests of the frame loop, the render commands, the mesh, and the shader
//! outcomes.

use cubefield::cube::{palette, make_cubes, Axis, Cube};
use cubefield::geometry::{cube_vertices, Vertex};
use cubefield::render::{
    Renderer, InputEvent, LoopState, FrameCommand, CullWinding, DepthCheck, CLEAR_DEPTH_MICRO,
};
use cubefield::scene::{demo_config, compute_pose, Pass, SceneConfig};
use cubefield::shader::{compile_outcome, link_outcome, ShaderError, ShaderStage};

fn scene_cubes(n: usize) -> Vec<Cube> {
    let pal = palette();
    let axes = vec![Axis { x_micro: 0, y_micro: 1_000_000, z_micro: 0 }; n];
    let offsets: Vec<i64> = (0..n).map(|i| (i as i64) * 7_000).collect();
    make_cubes(n, &pal, &axes, &offsets).unwrap()
}

fn is_present(c: &FrameCommand) -> bool {
    matches!(c, FrameCommand::Present)
}

fn is_clear(c: &FrameCommand, cfg: &SceneConfig) -> bool {
    match c {
        FrameCommand::Clear { color, depth_micro } => {
            *color == cfg.clear_color && *depth_micro == CLEAR_DEPTH_MICRO
        },
        _ => false,
    }
}

fn draw_count(cmds: &[FrameCommand]) -> usize {
    cmds.iter().filter(|c| matches!(c, FrameCommand::Draw { .. })).count()
}

#[test]
fn frame_emits_two_draws_per_cube() {
    let cfg = demo_config();
    let cubes = scene_cubes(3);
    let mut renderer = Renderer::new();
    assert_eq!(renderer.state, LoopState::Running);
    assert!(renderer.drawing_enabled);
    let t_us: i64 = 4_200_000;
    let cmds = renderer.frame(&vec![], &cubes, &cfg, t_us);
    assert_eq!(cmds.len(), 2 + 2 * 3);
    assert!(is_clear(&cmds[0], &cfg));
    assert!(is_present(&cmds[7]));
    for j in 0..3 {
        let direct = &cmds[1 + 2 * j];
        let reflected = &cmds[2 + 2 * j];
        match (direct, reflected) {
            (FrameCommand::Draw { call: d }, FrameCommand::Draw { call: r }) => {
                assert_eq!(d.cube_index, j);
                assert_eq!(r.cube_index, j);
                assert_eq!(d.pass, Pass::Direct);
                assert_eq!(r.pass, Pass::Reflected);
                // Both passes share the cube's pose (and so its spin).
                assert_eq!(d.pose, r.pose);
                assert_eq!(d.pose, compute_pose(&cubes[j], &cfg, t_us));
                assert_eq!(d.color, cubes[j].color);
                assert_eq!(r.color, cubes[j].color);
                assert_eq!(d.alpha_micro, 1_000_000);
                assert_eq!(r.alpha_micro, 300_000);
                assert_eq!(d.cull, CullWinding::CounterClockwise);
                assert_eq!(r.cull, CullWinding::Clockwise);
                // Both passes test depth with less-or-equal and write it;
                // only the reflection is blended over the frame.
                assert_eq!(d.depth_check, DepthCheck::LessOrEqual);
                assert_eq!(r.depth_check, DepthCheck::LessOrEqual);
                assert!(d.depth_write);
                assert!(r.depth_write);
                assert!(!d.blended);
                assert!(r.blended);
                // The reflected light sits below the direct one.
                assert!(r.light_pos.y_pico < d.light_pos.y_pico);
            },
            _ => panic!("expected draw commands"),
        }
    }
}

#[test]
fn toggle_suppresses_draws_but_not_clear_or_present() {
    let cfg = demo_config();
    let cubes = scene_cubes(4);
    let mut renderer = Renderer::new();
    let cmds = renderer.frame(&vec![InputEvent::KeyToggleDrawing], &cubes, &cfg, 0);
    assert_eq!(renderer.state, LoopState::Running);
    assert!(!renderer.drawing_enabled);
    // The frame still happens: cleared and presented, but with no draws.
    assert_eq!(cmds.len(), 2);
    assert!(is_clear(&cmds[0], &cfg));
    assert!(is_present(&cmds[1]));
    assert_eq!(draw_count(&cmds), 0);
    // Toggling again restores the draws.
    let cmds = renderer.frame(&vec![InputEvent::KeyToggleDrawing], &cubes, &cfg, 1_000);
    assert!(renderer.drawing_enabled);
    assert_eq!(cmds.len(), 2 + 2 * 4);
    assert_eq!(draw_count(&cmds), 8);
}

#[test]
fn double_toggle_in_one_batch_cancels() {
    let cfg = demo_config();
    let cubes = scene_cubes(2);
    let mut renderer = Renderer::new();
    let events = vec![
        InputEvent::KeyToggleDrawing,
        InputEvent::Other,
        InputEvent::KeyToggleDrawing,
    ];
    let cmds = renderer.frame(&events, &cubes, &cfg, 0);
    assert!(renderer.drawing_enabled);
    assert_eq!(cmds.len(), 2 + 2 * 2);
}

#[test]
fn quit_stops_after_completing_the_frame() {
    let cfg = demo_config();
    let cubes = scene_cubes(2);
    let mut renderer = Renderer::new();
    let events = vec![InputEvent::Other, InputEvent::Quit];
    let cmds = renderer.frame(&events, &cubes, &cfg, 500_000);
    // The frame during which the quit arrived still runs to completion...
    assert_eq!(cmds.len(), 2 + 2 * 2);
    assert!(is_clear(&cmds[0], &cfg));
    assert!(is_present(&cmds[cmds.len() - 1]));
    // ...and the loop is stopped afterwards: no further commands at all.
    assert_eq!(renderer.state, LoopState::Stopped);
    let later = renderer.frame(&vec![], &cubes, &cfg, 600_000);
    assert!(later.is_empty());
    assert_eq!(draw_count(&later), 0);
}

#[test]
fn escape_stops_like_quit() {
    let cfg = demo_config();
    let cubes = scene_cubes(1);
    let mut renderer = Renderer::new();
    let cmds = renderer.frame(&vec![InputEvent::KeyEscape], &cubes, &cfg, 0);
    assert_eq!(renderer.state, LoopState::Stopped);
    assert!(is_present(&cmds[cmds.len() - 1]));
}

#[test]
fn stopped_loop_ignores_events() {
    let cfg = demo_config();
    let cubes = scene_cubes(1);
    let mut renderer = Renderer::new();
    renderer.frame(&vec![InputEvent::Quit], &cubes, &cfg, 0);
    assert_eq!(renderer.state, LoopState::Stopped);
    let cmds = renderer.frame(&vec![InputEvent::KeyToggleDrawing], &cubes, &cfg, 1);
    assert!(cmds.is_empty());
    assert_eq!(renderer.state, LoopState::Stopped);
    assert!(renderer.drawing_enabled);
}

#[test]
fn mesh_has_36_outward_facing_vertices() {
    let vs = cube_vertices();
    assert_eq!(vs.len(), 36);
    for v in &vs {
        // Corners of the cube.
        assert!(v.px == 1 || v.px == -1);
        assert!(v.py == 1 || v.py == -1);
        assert!(v.pz == 1 || v.pz == -1);
        // Exact unit normal along one axis.
        assert_eq!(v.nx * v.nx + v.ny * v.ny + v.nz * v.nz, 1);
        // Outward: the corner lies on the face the normal names.
        assert_eq!(v.px * v.nx + v.py * v.ny + v.pz * v.nz, 1);
    }
    // Six vertices per face, in the fixed face order.
    let normals = [
        (0, 0, 1), (0, 0, -1), (-1, 0, 0), (1, 0, 0), (0, -1, 0), (0, 1, 0),
    ];
    for (f, &(nx, ny, nz)) in normals.iter().enumerate() {
        for j in 0..6 {
            let v = &vs[6 * f + j];
            assert_eq!((v.nx, v.ny, v.nz), (nx, ny, nz));
        }
    }
    // Spot checks against the fixed vertex table.
    assert_eq!(
        vs[0],
        Vertex { px: 1, py: 1, pz: 1, nx: 0, ny: 0, nz: 1 },
    );
    assert_eq!(
        vs[35],
        Vertex { px: -1, py: 1, pz: -1, nx: 0, ny: 1, nz: 0 },
    );
    assert_eq!(
        vs[12],
        Vertex { px: -1, py: 1, pz: 1, nx: -1, ny: 0, nz: 0 },
    );
}

#[test]
fn mesh_winding_is_uniform() {
    let vs = cube_vertices();
    for t in 0..12 {
        let a = &vs[3 * t];
        let b = &vs[3 * t + 1];
        let c = &vs[3 * t + 2];
        let (e1x, e1y, e1z) = (b.px - a.px, b.py - a.py, b.pz - a.pz);
        let (e2x, e2y, e2z) = (c.px - a.px, c.py - a.py, c.pz - a.pz);
        let cx = e1y * e2z - e1z * e2y;
        let cy = e1z * e2x - e1x * e2z;
        let cz = e1x * e2y - e1y * e2x;
        assert_eq!(cx * a.nx + cy * a.ny + cz * a.nz, -4);
    }
}

#[test]
fn shader_outcomes() {
    assert!(matches!(compile_outcome(7, true, String::from("ok"), ShaderStage::Vertex), Ok(7)));
    match compile_outcome(7, false, String::from("syntax error"), ShaderStage::Fragment) {
        Err(ShaderError::Compile { stage, log }) => {
            assert_eq!(stage, ShaderStage::Fragment);
            assert_eq!(log, "syntax error");
        },
        _ => panic!("expected a compile error"),
    }
    assert!(matches!(link_outcome(9, true, String::from("")), Ok(9)));
    match link_outcome(9, false, String::from("missing entry point")) {
        Err(e) => assert_eq!(e.log().as_str(), "missing entry point"),
        Ok(_) => panic!("expected a link error"),
    }
}
