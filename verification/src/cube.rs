//! Animated cube entities: per-cube parameters, their invariants, and the
//! factory that assigns them.

use vstd::prelude::*;
use crate::angle::{Turns, turns_eq, turns_diff_num, turns_diff_den};

verus! {

/// Scale of the fixed-point values used throughout: one unit (one meter of
/// world space, one second of time, a color channel at full strength) is
/// `MICRO` ticks.
pub const MICRO: i64 = 1_000_000;

/// `MICRO` squared: the squared length of an exactly unit vector whose
/// components are held in micro units.
pub const UNIT_NORM_SQ_MICRO: i64 = 1_000_000_000_000;

/// Tolerance on the squared micro-scale norm of a spin axis.  A vector whose
/// length is within `1e-5` of `1` has a squared length within about `2e-5`
/// of `1`, which is `20_000_000` in squared micro units.
pub const UNIT_TOL_SQ_MICRO: i64 = 20_000_000;

/// Spin phase offsets are drawn from `[0, 1)` seconds, so they are below one
/// second in micro units.
pub const SPIN_OFFSET_MAX_US: i64 = 1_000_000;

/// Largest supported number of cubes in one scene.
pub const MAX_CUBES: usize = 1_000_000;

/// An RGB color with channels in `[0, 1]`, held in micro units.
#[derive(Clone, Copy, Debug, PartialEq, Eq, Structural)]
pub struct Color {
    pub r_micro: i64,
    pub g_micro: i64,
    pub b_micro: i64,
}

impl Color {
    /// Every channel lies in `[0, 1]`.
    pub open spec fn wf(self) -> bool {
        &&& 0 <= self.r_micro <= MICRO
        &&& 0 <= self.g_micro <= MICRO
        &&& 0 <= self.b_micro <= MICRO
    }
}

/// A spin axis: a three-component vector in micro units, intended to be of
/// unit length.
#[derive(Clone, Copy, Debug, PartialEq, Eq, Structural)]
pub struct Axis {
    pub x_micro: i64,
    pub y_micro: i64,
    pub z_micro: i64,
}

impl Axis {
    /// Squared length of the axis in squared micro units.
    pub open spec fn norm_sq(self) -> int {
        self.x_micro * self.x_micro
            + self.y_micro * self.y_micro
            + self.z_micro * self.z_micro
    }

    /// The axis has unit length up to the fixed tolerance.
    pub open spec fn is_unit(self) -> bool {
        UNIT_NORM_SQ_MICRO - UNIT_TOL_SQ_MICRO <= self.norm_sq()
            <= UNIT_NORM_SQ_MICRO + UNIT_TOL_SQ_MICRO
    }

    /// Decides whether the axis has unit length up to the fixed tolerance.
    pub fn has_unit_length(&self) -> (r: bool)
        ensures
            r == self.is_unit(),
    {
        let bound: i64 = 2_000_000;
        if self.x_micro < -bound || self.x_micro > bound
            || self.y_micro < -bound || self.y_micro > bound
            || self.z_micro < -bound || self.z_micro > bound
        {
            proof {
                lemma_square_monotone_bound(self.x_micro as int);
                lemma_square_monotone_bound(self.y_micro as int);
                lemma_square_monotone_bound(self.z_micro as int);
            }
            false
        } else {
            proof {
                lemma_square_range(self.x_micro as int);
                lemma_square_range(self.y_micro as int);
                lemma_square_range(self.z_micro as int);
            }
            let q: i64 = self.x_micro * self.x_micro
                + self.y_micro * self.y_micro
                + self.z_micro * self.z_micro;
            UNIT_NORM_SQ_MICRO - UNIT_TOL_SQ_MICRO <= q
                && q <= UNIT_NORM_SQ_MICRO + UNIT_TOL_SQ_MICRO
        }
    }
}

/// A square is nonnegative, and a component beyond `2e6` micro units squares
/// to more than the unit norm plus its tolerance.
proof fn lemma_square_monotone_bound(x: int)
    ensures
        x * x >= 0,
        x < -2_000_000 || x > 2_000_000 ==> x * x > UNIT_NORM_SQ_MICRO + UNIT_TOL_SQ_MICRO,
{
    assert(x * x >= 0) by (nonlinear_arith);
    if x < -2_000_000 || x > 2_000_000 {
        assert(x * x > 4_000_000_000_000) by (nonlinear_arith)
            requires x < -2_000_000 || x > 2_000_000;
    }
}

/// A component within `2e6` micro units squares to a nonnegative value of at
/// most `4e12`.
proof fn lemma_square_range(x: int)
    requires
        -2_000_000 <= x <= 2_000_000,
    ensures
        0 <= x * x <= 4_000_000_000_000,
{
    assert(0 <= x * x <= 4_000_000_000_000) by (nonlinear_arith)
        requires -2_000_000 <= x <= 2_000_000;
}

/// One animated cube.  All parameters are fixed at creation; every per-frame
/// quantity is recomputed from them and the clock.
#[derive(Clone, Copy, Debug, PartialEq, Eq, Structural)]
pub struct Cube {
    /// Fixed angular offset of this cube on the shared orbit circle,
    /// as a fraction of a full turn.
    pub orbit_phase: Turns,
    /// Unit axis of the cube's own spin.
    pub spin_axis: Axis,
    /// Display color, one of the palette entries.
    pub color: Color,
    /// Offset added to the elapsed time before computing the spin angle,
    /// in microseconds, so that cubes spin out of step with each other.
    pub spin_phase_offset_us: i64,
}

impl Cube {
    /// Invariant of every cube the factory hands out.
    pub open spec fn wf(self) -> bool {
        &&& self.orbit_phase.wf()
        &&& self.orbit_phase.den <= MAX_CUBES as i128
        &&& 0 <= self.orbit_phase.num < self.orbit_phase.den
        &&& self.spin_axis.is_unit()
        &&& 0 <= self.spin_phase_offset_us < SPIN_OFFSET_MAX_US
    }
}

/// Orbit phase of the cube at `index` out of `count`: the fraction
/// `index / count` of a full turn.
pub open spec fn phase_of(index: int, count: int) -> Turns {
    Turns { num: index as i128, den: count as i128 }
}

/// The cube the factory builds at `index` out of `count` from the given
/// inputs: phase `index / count` of a turn, the supplied spin parameters,
/// and the palette color at `index` modulo the palette length.
pub open spec fn spec_cube(
    index: int,
    count: int,
    axis: Axis,
    spin_offset_us: i64,
    palette: Seq<Color>,
) -> Cube {
    Cube {
        orbit_phase: phase_of(index, count),
        spin_axis: axis,
        color: palette[index % palette.len() as int],
        spin_phase_offset_us: spin_offset_us,
    }
}

/// The fixed five-color palette cubes are painted with, in micro units:
/// blue, magenta, yellow, dark gray, white.
pub open spec fn spec_palette() -> Seq<Color> {
    seq![
        Color { r_micro: 250_000, g_micro: 800_000, b_micro: 1_000_000 },
        Color { r_micro: 1_000_000, g_micro: 200_000, b_micro: 500_000 },
        Color { r_micro: 1_000_000, g_micro: 1_000_000, b_micro: 500_000 },
        Color { r_micro: 400_000, g_micro: 400_000, b_micro: 400_000 },
        Color { r_micro: 1_000_000, g_micro: 1_000_000, b_micro: 1_000_000 },
    ]
}

/// Builds the fixed palette: five well-formed, pairwise distinct colors.
pub fn palette() -> (p: Vec<Color>)
    ensures
        p@ == spec_palette(),
        p@.len() == 5,
        forall|i: int| 0 <= i < 5 ==> (#[trigger] p@[i]).wf(),
        forall|i: int, j: int| 0 <= i < 5 && 0 <= j < 5 && i != j ==> p@[i] != p@[j],
{
    let mut p: Vec<Color> = Vec::new();
    p.push(Color { r_micro: 250_000, g_micro: 800_000, b_micro: 1_000_000 });
    p.push(Color { r_micro: 1_000_000, g_micro: 200_000, b_micro: 500_000 });
    p.push(Color { r_micro: 1_000_000, g_micro: 1_000_000, b_micro: 500_000 });
    p.push(Color { r_micro: 400_000, g_micro: 400_000, b_micro: 400_000 });
    p.push(Color { r_micro: 1_000_000, g_micro: 1_000_000, b_micro: 1_000_000 });
    proof {
        assert(p@ =~= spec_palette());
    }
    p
}

/// The randomly drawn inputs for one cube are acceptable: the axis is unit
/// length and the spin offset lies in `[0, 1)` seconds.
pub open spec fn cube_inputs_ok(axis: Axis, spin_offset_us: i64) -> bool {
    &&& axis.is_unit()
    &&& 0 <= spin_offset_us < SPIN_OFFSET_MAX_US
}

/// Why the factory rejected its inputs.
#[derive(Clone, Copy, Debug, PartialEq, Eq, Structural)]
pub enum CubeError {
    /// The spin axis at `index` is not of unit length.
    AxisNotUnit { index: usize },
    /// The spin phase offset at `index` lies outside `[0, 1)` seconds.
    SpinOffsetOutOfRange { index: usize },
}

/// The error names the first defective input: every input before `index` is
/// acceptable and the named check fails at `index`.
pub open spec fn err_describes(
    e: CubeError,
    count: int,
    axes: Seq<Axis>,
    offsets: Seq<i64>,
) -> bool {
    match e {
        CubeError::AxisNotUnit { index } => {
            &&& index < count
            &&& !axes[index as int].is_unit()
            &&& forall|j: int| 0 <= j < index ==> cube_inputs_ok(axes[j], offsets[j])
        },
        CubeError::SpinOffsetOutOfRange { index } => {
            &&& index < count
            &&& axes[index as int].is_unit()
            &&& !(0 <= offsets[index as int] < SPIN_OFFSET_MAX_US)
            &&& forall|j: int| 0 <= j < index ==> cube_inputs_ok(axes[j], offsets[j])
        },
    }
}

/// Builds the `count` cubes of a scene.  Orbit phases and colors are a
/// deterministic function of the index; the spin axis and spin phase offset
/// of each cube are supplied by the caller (they come from a random source)
/// and are only validated here.
pub fn make_cubes(
    count: usize,
    palette: &Vec<Color>,
    spin_axes: &Vec<Axis>,
    spin_offsets_us: &Vec<i64>,
) -> (r: Result<Vec<Cube>, CubeError>)
    requires
        1 <= count <= MAX_CUBES,
        spin_axes@.len() == count,
        spin_offsets_us@.len() == count,
        palette@.len() >= 1,
    ensures
        (r matches Ok(_)) <==> (forall|i: int|
            0 <= i < count ==> cube_inputs_ok(spin_axes@[i], spin_offsets_us@[i])),
        r matches Ok(cubes) ==> {
            &&& cubes@.len() == count
            &&& forall|i: int| 0 <= i < count ==> cubes@[i] == spec_cube(
                i,
                count as int,
                spin_axes@[i],
                spin_offsets_us@[i],
                palette@,
            )
        },
        r matches Err(e) ==> err_describes(e, count as int, spin_axes@, spin_offsets_us@),
{
    let mut cubes: Vec<Cube> = Vec::new();
    for i in 0..count
        invariant
            count <= MAX_CUBES,
            spin_axes@.len() == count,
            spin_offsets_us@.len() == count,
            palette@.len() >= 1,
            cubes@.len() == i,
            forall|j: int| 0 <= j < i ==> cube_inputs_ok(spin_axes@[j], spin_offsets_us@[j]),
            forall|j: int| 0 <= j < i ==> cubes@[j] == spec_cube(
                j,
                count as int,
                spin_axes@[j],
                spin_offsets_us@[j],
                palette@,
            ),
    {
        let axis = spin_axes[i];
        let offset_us = spin_offsets_us[i];
        if !axis.has_unit_length() {
            return Err(CubeError::AxisNotUnit { index: i });
        }
        if !(0 <= offset_us && offset_us < SPIN_OFFSET_MAX_US) {
            return Err(CubeError::SpinOffsetOutOfRange { index: i });
        }
        let cube = Cube {
            orbit_phase: Turns { num: i as i128, den: count as i128 },
            spin_axis: axis,
            color: palette[i % palette.len()],
            spin_phase_offset_us: offset_us,
        };
        cubes.push(cube);
    }
    Ok(cubes)
}

/// Every cube the factory accepts satisfies the cube invariant; in
/// particular its spin axis is of unit length up to the fixed tolerance.
pub proof fn lemma_made_cubes_wf(
    count: int,
    axes: Seq<Axis>,
    offsets: Seq<i64>,
    palette: Seq<Color>,
    i: int,
)
    requires
        1 <= count <= MAX_CUBES,
        0 <= i < count,
        cube_inputs_ok(axes[i], offsets[i]),
        palette.len() >= 1,
    ensures
        spec_cube(i, count, axes[i], offsets[i], palette).wf(),
        spec_cube(i, count, axes[i], offsets[i], palette).spin_axis.is_unit(),
{
}

/// Orbit phases partition the circle: the phases of two distinct cubes of
/// one scene are distinct angles.
pub proof fn lemma_orbit_phases_distinct(count: int, i: int, j: int)
    requires
        1 <= count <= MAX_CUBES as int,
        0 <= i < count,
        0 <= j < count,
        i != j,
    ensures
        !turns_eq(phase_of(i, count), phase_of(j, count)),
{
    let a = phase_of(i, count);
    let b = phase_of(j, count);
    assert(a.num == i && a.den == count && b.num == j && b.den == count);
    assert(i * count != j * count) by (nonlinear_arith)
        requires i != j, count >= 1;
}

/// Orbit phases are evenly spaced: the difference between the phases of two
/// consecutive cubes is exactly `1 / count` of a turn.
pub proof fn lemma_orbit_phases_evenly_spaced(count: int, i: int)
    requires
        1 <= count <= MAX_CUBES as int,
        0 <= i < count - 1,
    ensures
        turns_diff_num(phase_of(i + 1, count), phase_of(i, count)) * count
            == turns_diff_den(phase_of(i + 1, count), phase_of(i, count)),
{
    let a = phase_of(i + 1, count);
    let b = phase_of(i, count);
    assert(turns_diff_num(a, b) == (i + 1) * count - i * count);
    assert(((i + 1) * count - i * count) * count == count * count) by (nonlinear_arith);
    assert(turns_diff_den(a, b) == count * count);
}

} // verus!
