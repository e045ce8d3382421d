//! Tests of the cube factory, the palette, and the pose arithmetic.

use cubefield::angle::Turns;
use cubefield::cube::{palette, make_cubes, Axis, Color, Cube, CubeError};
use cubefield::scene::{
    demo_config, compute_pose, model_transforms, light_position, pass_alpha_micro, Pass,
};

fn unit_x() -> Axis {
    Axis { x_micro: 1_000_000, y_micro: 0, z_micro: 0 }
}

fn axes(n: usize) -> Vec<Axis> {
    vec![unit_x(); n]
}

fn offsets(n: usize) -> Vec<i64> {
    (0..n).map(|i| (i as i64) * 1_000).collect()
}

#[test]
fn orbit_phases_evenly_spaced() {
    let pal = palette();
    let cubes = make_cubes(5, &pal, &axes(5), &offsets(5)).unwrap();
    assert_eq!(cubes.len(), 5);
    for (i, c) in cubes.iter().enumerate() {
        assert_eq!(c.orbit_phase, Turns { num: i as i128, den: 5 });
    }
    // Distinct, and consecutive phases differ by exactly 1/5 of a turn.
    for i in 0..5 {
        for j in 0..5 {
            if i != j {
                assert_ne!(cubes[i].orbit_phase, cubes[j].orbit_phase);
            }
        }
    }
    for i in 0..4 {
        let a = cubes[i + 1].orbit_phase;
        let b = cubes[i].orbit_phase;
        // a - b == 1/5, cross-multiplied.
        assert_eq!((a.num * b.den - b.num * a.den) * 5, a.den * b.den);
    }
}

#[test]
fn spin_axis_unit_within_tolerance() {
    // Exact unit vector.
    assert!(unit_x().has_unit_length());
    // Slightly off, but within the 1e-5 tolerance on the length.
    let nearly = Axis { x_micro: 999_995, y_micro: 0, z_micro: 0 };
    assert!(nearly.has_unit_length());
    // Clearly too short, clearly too long, and the zero vector.
    assert!(!Axis { x_micro: 990_000, y_micro: 0, z_micro: 0 }.has_unit_length());
    assert!(!Axis { x_micro: 1_010_000, y_micro: 0, z_micro: 0 }.has_unit_length());
    assert!(!Axis { x_micro: 0, y_micro: 0, z_micro: 0 }.has_unit_length());
    // A diagonal unit vector: (577350, 577350, 577350) has squared norm
    // 1_000_000_148_67xx-ish / 1e12, within tolerance.
    let diag = Axis { x_micro: 577_350, y_micro: 577_350, z_micro: 577_350 };
    assert!(diag.has_unit_length());
}

#[test]
fn factory_rejects_bad_axis() {
    let pal = palette();
    let mut bad_axes = axes(4);
    bad_axes[2] = Axis { x_micro: 500_000, y_micro: 0, z_micro: 0 };
    let r = make_cubes(4, &pal, &bad_axes, &offsets(4));
    assert_eq!(r.unwrap_err(), CubeError::AxisNotUnit { index: 2 });
}

#[test]
fn factory_rejects_bad_offset() {
    let pal = palette();
    let mut bad_offsets = offsets(4);
    bad_offsets[3] = 1_000_000;
    let r = make_cubes(4, &pal, &axes(4), &bad_offsets);
    assert_eq!(r.unwrap_err(), CubeError::SpinOffsetOutOfRange { index: 3 });
    let mut negative = offsets(4);
    negative[0] = -1;
    let r = make_cubes(4, &pal, &axes(4), &negative);
    assert_eq!(r.unwrap_err(), CubeError::SpinOffsetOutOfRange { index: 0 });
}

#[test]
fn colors_assigned_cyclically() {
    let pal = palette();
    let cubes = make_cubes(12, &pal, &axes(12), &offsets(12)).unwrap();
    for (i, c) in cubes.iter().enumerate() {
        assert_eq!(c.color, pal[i % pal.len()]);
    }
    assert_eq!(cubes[5].color, pal[0]);
    assert_eq!(cubes[11].color, pal[1]);
}

#[test]
fn five_cubes_cover_palette() {
    let pal = palette();
    assert_eq!(pal.len(), 5);
    let cubes = make_cubes(5, &pal, &axes(5), &offsets(5)).unwrap();
    // One cube per palette entry, in index order, all distinct.
    for i in 0..5 {
        assert_eq!(cubes[i].color, pal[i]);
        for j in 0..5 {
            if i != j {
                assert_ne!(cubes[i].color, cubes[j].color);
            }
        }
    }
}

#[test]
fn palette_matches_fixed_colors() {
    let pal = palette();
    assert_eq!(pal[0], Color { r_micro: 250_000, g_micro: 800_000, b_micro: 1_000_000 });
    assert_eq!(pal[1], Color { r_micro: 1_000_000, g_micro: 200_000, b_micro: 500_000 });
    assert_eq!(pal[2], Color { r_micro: 1_000_000, g_micro: 1_000_000, b_micro: 500_000 });
    assert_eq!(pal[3], Color { r_micro: 400_000, g_micro: 400_000, b_micro: 400_000 });
    assert_eq!(pal[4], Color { r_micro: 1_000_000, g_micro: 1_000_000, b_micro: 1_000_000 });
}

#[test]
fn demo_config_matches_fixed_scene() {
    let cfg = demo_config();
    assert_eq!(cfg.radius_micro, 7_000_000);
    assert_eq!(cfg.height_micro, 1_500_000);
    assert_eq!(cfg.depth_micro, 13_000_000);
    assert_eq!(cfg.orbit_period_us, 10_000_000);
    assert_eq!(cfg.ambient_strength_micro, 500_000);
    assert_eq!(cfg.clear_color, Color { r_micro: 960_000, g_micro: 960_000, b_micro: 960_000 });
    assert_eq!(cfg.fovy_degrees, 90);
    assert_eq!((cfg.aspect_width, cfg.aspect_height), (768, 1024));
    assert_eq!((cfg.near_micro, cfg.far_micro), (1_000_000, 45_000_000));
}

#[test]
fn pose_is_deterministic() {
    let cfg = demo_config();
    let pal = palette();
    let cubes = make_cubes(7, &pal, &axes(7), &offsets(7)).unwrap();
    for c in &cubes {
        let p1 = compute_pose(c, &cfg, 123_456_789);
        let p2 = compute_pose(c, &cfg, 123_456_789);
        assert_eq!(p1, p2);
    }
}

#[test]
fn pose_formulas() {
    let cfg = demo_config();
    let cube = Cube {
        orbit_phase: Turns { num: 1, den: 4 },
        spin_axis: unit_x(),
        color: palette()[1],
        spin_phase_offset_us: 250_000,
    };
    let t_us: i64 = 2_500_000;
    let p = compute_pose(&cube, &cfg, t_us);
    // Spin angle: t + offset, in micro-radians.
    assert_eq!(p.spin_angle_us, 2_750_000);
    assert_eq!(p.spin_axis, unit_x());
    // Orbit angle: t/period + 1/4 = 0.25 + 0.25 = 0.5 turns.
    assert_eq!(p.orbit_angle.num, 2_500_000 * 4 + 1 * 10_000_000);
    assert_eq!(p.orbit_angle.den, 10_000_000 * 4);
    let turns = p.orbit_angle.num as f64 / p.orbit_angle.den as f64;
    assert!((turns - 0.5).abs() < 1e-12);
}

#[test]
fn orbit_starts_at_radius_on_the_axis() {
    // A cube with orbit phase 0 at time 0: orbit angle is exactly zero, so
    // its orbit-plane position is (radius, 0).
    let cfg = demo_config();
    let cube = Cube {
        orbit_phase: Turns { num: 0, den: 40 },
        spin_axis: unit_x(),
        color: palette()[0],
        spin_phase_offset_us: 0,
    };
    let p = compute_pose(&cube, &cfg, 0);
    assert_eq!(p.orbit_angle.num, 0);
    let radians = (p.orbit_angle.num as f64 / p.orbit_angle.den as f64)
        * 2.0 * std::f64::consts::PI;
    let cos_micro = (radians.cos() * 1e6).round() as i64;
    let sin_micro = (radians.sin() * 1e6).round() as i64;
    assert_eq!((cos_micro, sin_micro), (1_000_000, 0));
    let (direct, _) = model_transforms(&cfg, cos_micro, sin_micro);
    // Orbit-plane position (cos, sin) * radius == (radius, 0): the cube
    // stands a full radius out along the sideways axis, at the scene
    // height, i.e. at world position (radius, height, -depth).
    assert_eq!(direct.translation.x_pico, cfg.radius_micro * 1_000_000);
    assert_eq!(direct.translation.y_pico, cfg.height_micro * 1_000_000);
    assert_eq!(direct.translation.z_pico, -cfg.depth_micro * 1_000_000);
}

#[test]
fn reflection_mirrors_direct_transform() {
    let cfg = demo_config();
    // Half a turn around the orbit: cos == -1, sin == 0 after rounding.
    let radians = std::f64::consts::PI;
    let cos_micro = (radians.cos() * 1e6).round() as i64;
    let sin_micro = (radians.sin() * 1e6).round() as i64;
    let (direct, reflected) = model_transforms(&cfg, cos_micro, sin_micro);
    assert!(!direct.flip_y);
    assert!(reflected.flip_y);
    // Same horizontal position and depth; the vertical coordinate is the
    // negation of the direct one plus the fixed offset 2h - 2.7r.
    let offset_y = 2 * cfg.height_micro * 1_000_000
        - 2_700_000 * cfg.radius_micro;
    assert_eq!(reflected.translation.x_pico, direct.translation.x_pico);
    assert_eq!(reflected.translation.z_pico, direct.translation.z_pico);
    assert_eq!(reflected.translation.y_pico, -direct.translation.y_pico + offset_y);
    // Concrete values for this angle: half a turn puts the cube a full
    // radius inward (cos == -1) at the plain scene height (sin == 0).
    assert_eq!(direct.translation.x_pico, -7_000_000 * 1_000_000);
    assert_eq!(direct.translation.y_pico, 1_500_000 * 1_000_000);
    assert_eq!(
        reflected.translation.y_pico,
        1_500_000 * 1_000_000 - 18_900_000 * 1_000_000,
    );
}

#[test]
fn pass_parameters() {
    let cfg = demo_config();
    assert_eq!(pass_alpha_micro(Pass::Direct), 1_000_000);
    assert_eq!(pass_alpha_micro(Pass::Reflected), 300_000);
    let direct_light = light_position(&cfg, Pass::Direct);
    assert_eq!(direct_light.x_pico, 0);
    assert_eq!(direct_light.y_pico, 1_500_000 * 1_000_000);
    assert_eq!(direct_light.z_pico, -13_000_000 * 1_000_000);
    let reflected_light = light_position(&cfg, Pass::Reflected);
    assert_eq!(reflected_light.x_pico, 0);
    // 2.7 radii below the direct light: 1.5 - 18.9 units.
    assert_eq!(reflected_light.y_pico, 1_500_000 * 1_000_000 - 2_700_000 * 7_000_000);
    assert_eq!(reflected_light.z_pico, -13_000_000 * 1_000_000);
}
