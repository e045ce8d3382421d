//! Scene constants and per-frame pose arithmetic.
//!
//! All lengths are held in micro units (`MICRO` ticks per world unit) and
//! times in microseconds.  Products of two micro-scale values, such as a
//! translation component `cos * radius`, are held in pico units
//! (`MICRO * MICRO` ticks per world unit), so every formula below is exact
//! integer arithmetic.

use vstd::prelude::*;
use crate::angle::Turns;
use crate::cube::{Color, Axis, Cube, MICRO, MAX_CUBES};

verus! {

/// Largest supported elapsed time, in microseconds (a bit over 31 years).
/// Machine limit only: it keeps every product in the pose arithmetic inside
/// its integer type.
pub const MAX_TIME_US: i64 = 1_000_000_000_000_000;

/// Largest supported orbit period, in microseconds (about eleven days per
/// revolution).  Machine limit only.
pub const MAX_PERIOD_US: i64 = 1_000_000_000_000;

/// Largest supported magnitude of a scene length (radius, height, depth),
/// in micro units: one thousand world units.  Machine limit only.
pub const MAX_LENGTH_MICRO: i64 = 1_000_000_000;

/// How far below its true position a cube's reflection is drawn, as a
/// multiple of the orbit radius, in micro units: `2.7` times the radius.
/// A hand-tuned visual constant.
pub const REFLECT_DROP_PER_RADIUS_MICRO: i64 = 2_700_000;

/// Alpha of the direct pass: fully opaque.
pub const DIRECT_ALPHA_MICRO: i64 = 1_000_000;

/// Alpha of the reflected pass: a faint, blended echo.  A hand-tuned visual
/// constant.
pub const REFLECTED_ALPHA_MICRO: i64 = 300_000;

/// Process-lifetime scene constants, read-only after initialization.
#[derive(Clone, Copy, Debug, PartialEq, Eq, Structural)]
pub struct SceneConfig {
    /// Radius of the shared orbit circle, in micro units.
    pub radius_micro: i64,
    /// Height of the orbit center above the floor, in micro units.
    pub height_micro: i64,
    /// Distance of the orbit center in front of the camera, in micro units.
    pub depth_micro: i64,
    /// Time of one full orbit revolution, in microseconds.
    pub orbit_period_us: i64,
    /// Weight of the non-directional base lighting, in micro units of `[0, 1]`.
    pub ambient_strength_micro: i64,
    /// Background color each frame is cleared to.
    pub clear_color: Color,
    /// Vertical field of view of the projection, in degrees.
    pub fovy_degrees: i64,
    /// Width of the projection's aspect ratio.
    pub aspect_width: i64,
    /// Height of the projection's aspect ratio.
    pub aspect_height: i64,
    /// Near clipping plane of the projection, in micro units.
    pub near_micro: i64,
    /// Far clipping plane of the projection, in micro units.
    pub far_micro: i64,
}

impl SceneConfig {
    /// Bounds that keep all pose arithmetic exact and inside `i64`/`i128`.
    pub open spec fn wf(self) -> bool {
        &&& 1 <= self.radius_micro <= MAX_LENGTH_MICRO
        &&& -MAX_LENGTH_MICRO <= self.height_micro <= MAX_LENGTH_MICRO
        &&& -MAX_LENGTH_MICRO <= self.depth_micro <= MAX_LENGTH_MICRO
        &&& 1 <= self.orbit_period_us <= MAX_PERIOD_US
        &&& 0 <= self.ambient_strength_micro <= MICRO
        &&& self.clear_color.wf()
        &&& 1 <= self.fovy_degrees <= 179
        &&& 1 <= self.aspect_width
        &&& 1 <= self.aspect_height
        &&& 1 <= self.near_micro < self.far_micro
    }
}

/// The configuration of the demo as shipped: a ten-second orbit of radius
/// seven, centered 1.5 units up and 13 units in, a half-strength ambient
/// term, a light gray background, and a 90-degree, 3:4 perspective.
pub fn demo_config() -> (c: SceneConfig)
    ensures
        c.wf(),
        c == (SceneConfig {
            radius_micro: 7_000_000i64,
            height_micro: 1_500_000i64,
            depth_micro: 13_000_000i64,
            orbit_period_us: 10_000_000i64,
            ambient_strength_micro: 500_000i64,
            clear_color: Color { r_micro: 960_000i64, g_micro: 960_000i64, b_micro: 960_000i64 },
            fovy_degrees: 90i64,
            aspect_width: 768i64,
            aspect_height: 1024i64,
            near_micro: 1_000_000i64,
            far_micro: 45_000_000i64,
        }),
{
    SceneConfig {
        radius_micro: 7_000_000,
        height_micro: 1_500_000,
        depth_micro: 13_000_000,
        orbit_period_us: 10_000_000,
        ambient_strength_micro: 500_000,
        clear_color: Color { r_micro: 960_000, g_micro: 960_000, b_micro: 960_000 },
        fovy_degrees: 90,
        aspect_width: 768,
        aspect_height: 1024,
        near_micro: 1_000_000,
        far_micro: 45_000_000,
    }
}

/// The pose of one cube at one instant: everything the two render passes
/// need that depends on the cube and the clock.
#[derive(Clone, Copy, Debug, PartialEq, Eq, Structural)]
pub struct Pose {
    /// The cube's spin axis, unchanged from the cube.
    pub spin_axis: Axis,
    /// Spin angle in micro-radians: the elapsed time plus the cube's spin
    /// phase offset (one radian per second of spin).
    pub spin_angle_us: i64,
    /// Position on the orbit circle, as an exact fraction of a full turn:
    /// `t / period + orbit_phase`.
    pub orbit_angle: Turns,
}

/// The pose of `cube` at elapsed time `t_us`:
/// `spin_angle = t + spin_phase_offset` and
/// `orbit_angle = t / period + orbit_phase`, the latter exact over a common
/// denominator.
pub open spec fn spec_pose(cube: Cube, cfg: SceneConfig, t_us: i64) -> Pose {
    Pose {
        spin_axis: cube.spin_axis,
        spin_angle_us: (t_us + cube.spin_phase_offset_us) as i64,
        orbit_angle: Turns {
            num: (t_us * cube.orbit_phase.den + cube.orbit_phase.num * cfg.orbit_period_us) as i128,
            den: (cfg.orbit_period_us * cube.orbit_phase.den) as i128,
        },
    }
}

/// Computes the pose of `cube` at elapsed time `t_us`.  Pure: the result is
/// a function of the arguments alone, so replaying a time reproduces the
/// pose exactly.
pub fn compute_pose(cube: &Cube, cfg: &SceneConfig, t_us: i64) -> (p: Pose)
    requires
        cube.wf(),
        cfg.wf(),
        0 <= t_us <= MAX_TIME_US,
    ensures
        p == spec_pose(*cube, *cfg, t_us),
        p.orbit_angle.wf(),
{
    let den: i128 = cube.orbit_phase.den;
    let num: i128 = cube.orbit_phase.num;
    let t: i128 = t_us as i128;
    let period: i128 = cfg.orbit_period_us as i128;
    proof {
        lemma_mul_bounds(t as int, MAX_TIME_US as int, den as int, MAX_CUBES as int);
        lemma_mul_bounds(num as int, MAX_CUBES as int, period as int, MAX_PERIOD_US as int);
        lemma_mul_bounds(period as int, MAX_PERIOD_US as int, den as int, MAX_CUBES as int);
        assert(period as int * den as int >= 1) by (nonlinear_arith)
            requires period as int >= 1, den as int >= 1;
    }
    Pose {
        spin_axis: cube.spin_axis,
        spin_angle_us: t_us + cube.spin_phase_offset_us,
        orbit_angle: Turns {
            num: t * den + num * period,
            den: period * den,
        },
    }
}

/// Bounds on a product of nonnegative bounded factors.
proof fn lemma_mul_bounds(a: int, a_max: int, b: int, b_max: int)
    requires
        0 <= a <= a_max,
        0 <= b <= b_max,
    ensures
        0 <= a * b <= a_max * b_max,
{
    assert(0 <= a * b <= a_max * b_max) by (nonlinear_arith)
        requires 0 <= a <= a_max, 0 <= b <= b_max;
}

/// The pose is a pure function of `(cube, t)`: any two results that meet
/// [`compute_pose`]'s contract for the same cube, configuration and time are
/// identical.
pub proof fn lemma_pose_deterministic(p1: Pose, p2: Pose, cube: Cube, cfg: SceneConfig, t_us: i64)
    requires
        p1 == spec_pose(cube, cfg, t_us),
        p2 == spec_pose(cube, cfg, t_us),
    ensures
        p1 == p2,
{
}

/// A cube with orbit phase zero stands at orbit angle zero at time zero.
/// Since `cos 0 == 1` and `sin 0 == 0`, its orbit-plane position is then
/// `(radius, 0)`: with those trigonometric values (in micro units) the
/// direct transform places it at world position `(radius, height, -depth)`.
pub proof fn lemma_orbit_angle_at_start(cube: Cube, cfg: SceneConfig)
    requires
        cube.wf(),
        cfg.wf(),
        cube.orbit_phase.is_zero(),
    ensures
        spec_pose(cube, cfg, 0).orbit_angle.is_zero(),
        spec_direct_transform(cfg, MICRO, 0).translation == (Vec3Pico {
            x_pico: (cfg.radius_micro * MICRO) as i64,
            y_pico: (cfg.height_micro * MICRO) as i64,
            z_pico: (-cfg.depth_micro * MICRO) as i64,
        }),
{
    assert(cube.orbit_phase.num * cfg.orbit_period_us == 0) by (nonlinear_arith)
        requires cube.orbit_phase.num == 0i128;
    assert(MICRO * cfg.radius_micro == cfg.radius_micro * MICRO) by (nonlinear_arith);
    assert(0 * cfg.radius_micro == 0) by (nonlinear_arith);
}

/// A point in world space, in pico units (`MICRO * MICRO` ticks per unit).
#[derive(Clone, Copy, Debug, PartialEq, Eq, Structural)]
pub struct Vec3Pico {
    pub x_pico: i64,
    pub y_pico: i64,
    pub z_pico: i64,
}

/// A model transform: a translation followed (for the reflected pass) by a
/// negation of the vertical axis applied before it.  The cube's spin
/// rotation is applied separately, inside whichever of these is drawn.
#[derive(Clone, Copy, Debug, PartialEq, Eq, Structural)]
pub struct ModelTransform {
    /// Where the cube (or its mirror image) is placed.
    pub translation: Vec3Pico,
    /// Whether the vertical axis is negated before translating, turning the
    /// cube into its mirror image.
    pub flip_y: bool,
}

/// Direct-pass model transform, given the cosine and sine of the orbit angle
/// in micro units.  The orbit-plane position is `(cos, sin) * radius`:
/// cosine along the sideways axis, sine as the offset above the scene
/// height; the whole orbit is pushed back by the scene depth.  At orbit
/// angle zero the cube therefore stands at `(radius, 0)` in the orbit
/// plane, i.e. at world position `(radius, height, -depth)`.
pub open spec fn spec_direct_transform(cfg: SceneConfig, cos_micro: i64, sin_micro: i64)
    -> ModelTransform {
    ModelTransform {
        translation: Vec3Pico {
            x_pico: (cos_micro * cfg.radius_micro) as i64,
            y_pico: (cfg.height_micro * MICRO + sin_micro * cfg.radius_micro) as i64,
            z_pico: (-cfg.depth_micro * MICRO) as i64,
        },
        flip_y: false,
    }
}

/// Reflected-pass model transform: the mirror image of the direct cube,
/// dropped `2.7` radii below the orbit center.
pub open spec fn spec_reflected_transform(cfg: SceneConfig, cos_micro: i64, sin_micro: i64)
    -> ModelTransform {
    ModelTransform {
        translation: Vec3Pico {
            x_pico: (cos_micro * cfg.radius_micro) as i64,
            y_pico: (cfg.height_micro * MICRO - REFLECT_DROP_PER_RADIUS_MICRO * cfg.radius_micro
                - sin_micro * cfg.radius_micro) as i64,
            z_pico: (-cfg.depth_micro * MICRO) as i64,
        },
        flip_y: true,
    }
}

/// Vertical offset between a translation and its mirror image, in pico
/// units: `2 * height - 2.7 * radius`.  The reflected translation is the
/// direct translation negated vertically and shifted by this much.
pub open spec fn spec_reflection_offset_y_pico(cfg: SceneConfig) -> int {
    2 * cfg.height_micro * MICRO - REFLECT_DROP_PER_RADIUS_MICRO * cfg.radius_micro
}

/// Computes the model transforms of both passes from the cosine and sine of
/// the orbit angle (in micro units, as the unverified front end evaluates
/// them).
pub fn model_transforms(cfg: &SceneConfig, cos_micro: i64, sin_micro: i64)
    -> (pair: (ModelTransform, ModelTransform))
    requires
        cfg.wf(),
        -MICRO <= cos_micro <= MICRO,
        -MICRO <= sin_micro <= MICRO,
    ensures
        pair.0 == spec_direct_transform(*cfg, cos_micro, sin_micro),
        pair.1 == spec_reflected_transform(*cfg, cos_micro, sin_micro),
{
    proof {
        lemma_trig_term_bounds(cos_micro as int, cfg.radius_micro as int);
        lemma_trig_term_bounds(sin_micro as int, cfg.radius_micro as int);
    }
    let x_pico: i64 = cos_micro * cfg.radius_micro;
    let z_pico: i64 = -cfg.depth_micro * MICRO;
    let direct = ModelTransform {
        translation: Vec3Pico {
            x_pico,
            y_pico: cfg.height_micro * MICRO + sin_micro * cfg.radius_micro,
            z_pico,
        },
        flip_y: false,
    };
    let reflected = ModelTransform {
        translation: Vec3Pico {
            x_pico,
            y_pico: cfg.height_micro * MICRO - REFLECT_DROP_PER_RADIUS_MICRO * cfg.radius_micro
                - sin_micro * cfg.radius_micro,
            z_pico,
        },
        flip_y: true,
    };
    (direct, reflected)
}

/// A factor of at most a few units in micro scale (a trigonometric value,
/// or the reflection drop) times a bounded radius stays well inside `i64`.
proof fn lemma_trig_term_bounds(c: int, r: int)
    requires
        -3_000_000 <= c <= 3_000_000,
        1 <= r <= MAX_LENGTH_MICRO,
    ensures
        -3_000_000_000_000_000 <= c * r <= 3_000_000_000_000_000,
{
    assert(-3_000_000_000_000_000 <= c * r <= 3_000_000_000_000_000) by (nonlinear_arith)
        requires -3_000_000 <= c <= 3_000_000, 1 <= r <= 1_000_000_000;
}

/// The reflected transform is the direct transform composed with a fixed
/// vertical negation and a fixed translation offset: it flips the vertical
/// axis, keeps the horizontal position, and places the cube's mirror image
/// at the negated height shifted by [`spec_reflection_offset_y_pico`].  Both
/// passes share the cube's spin rotation unchanged.
pub proof fn lemma_reflected_is_mirrored_direct(cfg: SceneConfig, cos_micro: i64, sin_micro: i64)
    requires
        cfg.wf(),
        -MICRO <= cos_micro <= MICRO,
        -MICRO <= sin_micro <= MICRO,
    ensures
        ({
            let d = spec_direct_transform(cfg, cos_micro, sin_micro);
            let r = spec_reflected_transform(cfg, cos_micro, sin_micro);
            &&& !d.flip_y
            &&& r.flip_y
            &&& r.translation.x_pico == d.translation.x_pico
            &&& r.translation.z_pico == d.translation.z_pico
            &&& r.translation.y_pico == -d.translation.y_pico + spec_reflection_offset_y_pico(cfg)
        }),
{
    lemma_trig_term_bounds(cos_micro as int, cfg.radius_micro as int);
    lemma_trig_term_bounds(sin_micro as int, cfg.radius_micro as int);
}

/// Which of the two render passes a draw call belongs to.
#[derive(Clone, Copy, Debug, PartialEq, Eq, Structural)]
pub enum Pass {
    /// The cube at its true position, opaque.
    Direct,
    /// The cube's translucent mirror image below the scene.
    Reflected,
}

/// Alpha of a pass, in micro units: the direct pass is opaque, the
/// reflection faint.
pub open spec fn spec_pass_alpha_micro(pass: Pass) -> i64 {
    match pass {
        Pass::Direct => DIRECT_ALPHA_MICRO,
        Pass::Reflected => REFLECTED_ALPHA_MICRO,
    }
}

/// Returns the alpha of a pass, in micro units.
pub fn pass_alpha_micro(pass: Pass) -> (a: i64)
    ensures
        a == spec_pass_alpha_micro(pass),
{
    match pass {
        Pass::Direct => DIRECT_ALPHA_MICRO,
        Pass::Reflected => REFLECTED_ALPHA_MICRO,
    }
}

/// Light position of a pass, in pico units.  The direct light sits at the
/// orbit center; the reflected light mirrors it, `2.7` radii lower, so the
/// mirrored geometry is lit (more dimly) from the mirrored side.
pub open spec fn spec_light_position(cfg: SceneConfig, pass: Pass) -> Vec3Pico {
    match pass {
        Pass::Direct => Vec3Pico {
            x_pico: 0,
            y_pico: (cfg.height_micro * MICRO) as i64,
            z_pico: (-cfg.depth_micro * MICRO) as i64,
        },
        Pass::Reflected => Vec3Pico {
            x_pico: 0,
            y_pico: (cfg.height_micro * MICRO
                - REFLECT_DROP_PER_RADIUS_MICRO * cfg.radius_micro) as i64,
            z_pico: (-cfg.depth_micro * MICRO) as i64,
        },
    }
}

/// Computes the light position of a pass, in pico units.
pub fn light_position(cfg: &SceneConfig, pass: Pass) -> (p: Vec3Pico)
    requires
        cfg.wf(),
    ensures
        p == spec_light_position(*cfg, pass),
{
    let y_center: i64 = cfg.height_micro * MICRO;
    let z_pico: i64 = -cfg.depth_micro * MICRO;
    match pass {
        Pass::Direct => Vec3Pico { x_pico: 0, y_pico: y_center, z_pico },
        Pass::Reflected => {
            proof {
                lemma_trig_term_bounds(REFLECT_DROP_PER_RADIUS_MICRO as int, cfg.radius_micro as int);
            }
            Vec3Pico {
                x_pico: 0,
                y_pico: y_center - REFLECT_DROP_PER_RADIUS_MICRO * cfg.radius_micro,
                z_pico,
            }
        },
    }
}

} // verus!
