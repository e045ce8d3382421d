//! The frame loop: input handling, the running/stopped state machine, and
//! the per-frame sequence of render commands.
//!
//! Each frame the renderer drains the pending input events, applies their
//! effects, and emits the frame's commands in order: clear, then (while
//! drawing is enabled) a direct and a reflected draw call per cube in
//! collection order, then present.  An unverified front end executes the
//! commands against the graphics API.

use vstd::prelude::*;
use crate::cube::{Color, Cube};
use crate::scene::{
    SceneConfig, Pose, Pass, Vec3Pico, MAX_TIME_US,
    spec_pose, spec_pass_alpha_micro, spec_light_position,
    compute_pose, pass_alpha_micro, light_position,
};

verus! {

/// Depth value the depth buffer is cleared to each frame, in micro units.
pub const CLEAR_DEPTH_MICRO: i64 = 1_000_000;

/// An input signal, as the windowing collaborator delivers it.
#[derive(Clone, Copy, Debug, PartialEq, Eq, Structural)]
pub enum InputEvent {
    /// The window was asked to close.
    Quit,
    /// The escape key was pressed: treated like a quit request.
    KeyEscape,
    /// The key that toggles drawing was pressed.
    KeyToggleDrawing,
    /// Any other event: ignored.
    Other,
}

/// The two states of the frame loop.  `Stopped` is terminal.
#[derive(Clone, Copy, Debug, PartialEq, Eq, Structural)]
pub enum LoopState {
    Running,
    Stopped,
}

/// Which triangle winding a pass culls.  The cube mesh's faces wind
/// clockwise as seen from outside (proved in the geometry module), so the
/// direct pass culls counter-clockwise triangles to keep the outward faces;
/// the reflected pass culls the opposite winding because mirroring the
/// geometry inverts it.
#[derive(Clone, Copy, Debug, PartialEq, Eq, Structural)]
pub enum CullWinding {
    CounterClockwise,
    Clockwise,
}

/// How a draw tests the depth buffer.
#[derive(Clone, Copy, Debug, PartialEq, Eq, Structural)]
pub enum DepthCheck {
    /// Every fragment passes.
    Always,
    /// A fragment passes where its depth is less than or equal to the
    /// stored depth.
    LessOrEqual,
}

/// The winding culled by a pass: the direct pass culls counter-clockwise
/// triangles, the reflected pass clockwise ones.
pub open spec fn spec_pass_cull(pass: Pass) -> CullWinding {
    match pass {
        Pass::Direct => CullWinding::CounterClockwise,
        Pass::Reflected => CullWinding::Clockwise,
    }
}

/// Returns the winding culled by a pass.
pub fn pass_cull(pass: Pass) -> (c: CullWinding)
    ensures
        c == spec_pass_cull(pass),
{
    match pass {
        Pass::Direct => CullWinding::CounterClockwise,
        Pass::Reflected => CullWinding::Clockwise,
    }
}

/// Whether a pass is alpha-blended over what the color buffer already
/// holds: only the reflection is, so it reads as a faint echo instead of
/// occluding the floor.
pub open spec fn spec_pass_blended(pass: Pass) -> bool {
    match pass {
        Pass::Direct => false,
        Pass::Reflected => true,
    }
}

/// Returns whether a pass is alpha-blended.
pub fn pass_blended(pass: Pass) -> (b: bool)
    ensures
        b == spec_pass_blended(pass),
{
    match pass {
        Pass::Direct => false,
        Pass::Reflected => true,
    }
}

/// Everything one draw call hands the graphics pipeline: the cube's pose
/// and color, the pass's alpha, light, culling and blending, and the depth
/// rule.
#[derive(Clone, Copy, Debug, PartialEq, Eq, Structural)]
pub struct DrawCall {
    /// Index of the cube in the scene's collection (display order).
    pub cube_index: usize,
    /// Which pass this call belongs to.
    pub pass: Pass,
    /// The cube's pose at the frame's time, shared by both passes.
    pub pose: Pose,
    /// The cube's color.
    pub color: Color,
    /// Alpha of the pass, in micro units.
    pub alpha_micro: i64,
    /// Light position of the pass, in pico units.
    pub light_pos: Vec3Pico,
    /// Which winding the pass culls.
    pub cull: CullWinding,
    /// Depth test of the draw: less-or-equal for both passes.
    pub depth_check: DepthCheck,
    /// Whether the draw writes the depth buffer: on for both passes.
    pub depth_write: bool,
    /// Whether the draw is alpha-blended over the frame: only the
    /// reflection is.
    pub blended: bool,
}

/// One step of a frame: the commands are executed in list order.
#[derive(Clone, Copy, Debug, PartialEq, Eq, Structural)]
pub enum FrameCommand {
    /// Clear the color buffer to `color` and the depth buffer to
    /// `depth_micro`.
    Clear { color: Color, depth_micro: i64 },
    /// Draw the cube mesh once with the call's uniforms.
    Draw { call: DrawCall },
    /// Present the finished frame.
    Present,
}

/// Effect of one input event on the `(state, drawing)` pair: quit and
/// escape stop the loop, the toggle key flips drawing, everything else is
/// ignored.
pub open spec fn spec_event_applied(s: (LoopState, bool), e: InputEvent) -> (LoopState, bool) {
    match e {
        InputEvent::Quit => (LoopState::Stopped, s.1),
        InputEvent::KeyEscape => (LoopState::Stopped, s.1),
        InputEvent::KeyToggleDrawing => (s.0, !s.1),
        InputEvent::Other => s,
    }
}

/// Effect of draining a whole event batch, in order.
pub open spec fn spec_events_applied(s: (LoopState, bool), events: Seq<InputEvent>)
    -> (LoopState, bool)
    decreases events.len(),
{
    if events.len() == 0 {
        s
    } else {
        spec_event_applied(spec_events_applied(s, events.drop_last()), events.last())
    }
}

/// The draw call of `pass` for the cube at `j` at time `t_us`.
pub open spec fn spec_draw_call(
    cubes: Seq<Cube>,
    cfg: SceneConfig,
    t_us: i64,
    j: int,
    pass: Pass,
) -> DrawCall {
    DrawCall {
        cube_index: j as usize,
        pass,
        pose: spec_pose(cubes[j], cfg, t_us),
        color: cubes[j].color,
        alpha_micro: spec_pass_alpha_micro(pass),
        light_pos: spec_light_position(cfg, pass),
        cull: spec_pass_cull(pass),
        depth_check: DepthCheck::LessOrEqual,
        depth_write: true,
        blended: spec_pass_blended(pass),
    }
}

/// Number of commands in a frame over `n` cubes: clear and present always,
/// plus two draws per cube while drawing is enabled.
pub open spec fn spec_frame_len(n: int, drawing: bool) -> int {
    if drawing {
        2 + 2 * n
    } else {
        2
    }
}

/// The command at position `k` of a frame: clear first, present last, and
/// in between the direct and reflected draw of each cube in collection
/// order.
pub open spec fn spec_frame_command(
    cubes: Seq<Cube>,
    cfg: SceneConfig,
    t_us: i64,
    drawing: bool,
    k: int,
) -> FrameCommand {
    if k == 0 {
        FrameCommand::Clear { color: cfg.clear_color, depth_micro: CLEAR_DEPTH_MICRO }
    } else if k == spec_frame_len(cubes.len() as int, drawing) - 1 {
        FrameCommand::Present
    } else {
        let j = (k - 1) / 2;
        let pass = if (k - 1) % 2 == 0 {
            Pass::Direct
        } else {
            Pass::Reflected
        };
        FrameCommand::Draw { call: spec_draw_call(cubes, cfg, t_us, j, pass) }
    }
}

/// The full command list of one frame.
pub open spec fn spec_frame_commands(
    cubes: Seq<Cube>,
    cfg: SceneConfig,
    t_us: i64,
    drawing: bool,
) -> Seq<FrameCommand> {
    Seq::new(
        spec_frame_len(cubes.len() as int, drawing) as nat,
        |k: int| spec_frame_command(cubes, cfg, t_us, drawing, k),
    )
}

/// The frame loop's state: whether it is still running and whether draw
/// calls are currently issued.
#[derive(Clone, Copy, Debug, PartialEq, Eq, Structural)]
pub struct Renderer {
    pub state: LoopState,
    pub drawing_enabled: bool,
}

impl Renderer {
    /// A fresh loop: running, with drawing enabled.
    pub fn new() -> (r: Renderer)
        ensures
            r.state == LoopState::Running,
            r.drawing_enabled,
    {
        Renderer { state: LoopState::Running, drawing_enabled: true }
    }

    /// Runs one frame: drains `events`, updates the loop state and the
    /// drawing flag, and returns the frame's commands in execution order.
    ///
    /// A frame during which a quit signal arrives still runs to completion
    /// (its list still ends with a present); once the loop is stopped, no
    /// frame emits anything further.
    pub fn frame(
        &mut self,
        events: &Vec<InputEvent>,
        cubes: &Vec<Cube>,
        cfg: &SceneConfig,
        t_us: i64,
    ) -> (cmds: Vec<FrameCommand>)
        requires
            cfg.wf(),
            forall|j: int| 0 <= j < cubes@.len() ==> cubes@[j].wf(),
            0 <= t_us <= MAX_TIME_US,
        ensures
            old(self).state == LoopState::Stopped ==> {
                &&& *final(self) == *old(self)
                &&& cmds@ == Seq::<FrameCommand>::empty()
            },
            old(self).state == LoopState::Running ==> {
                let after = spec_events_applied(
                    (old(self).state, old(self).drawing_enabled),
                    events@,
                );
                &&& final(self).state == after.0
                &&& final(self).drawing_enabled == after.1
                &&& cmds@ == spec_frame_commands(cubes@, *cfg, t_us, after.1)
            },
    {
        match self.state {
            LoopState::Stopped => {
                return Vec::new();
            },
            LoopState::Running => {},
        }
        let ghost s0: (LoopState, bool) = (self.state, self.drawing_enabled);
        let mut state = self.state;
        let mut drawing = self.drawing_enabled;
        for idx in 0..events.len()
            invariant
                (state, drawing) == spec_events_applied(s0, events@.take(idx as int)),
        {
            proof {
                assert(events@.take(idx as int + 1).drop_last() =~= events@.take(idx as int));
                assert(events@.take(idx as int + 1).last() == events@[idx as int]);
            }
            match events[idx] {
                InputEvent::Quit => {
                    state = LoopState::Stopped;
                },
                InputEvent::KeyEscape => {
                    state = LoopState::Stopped;
                },
                InputEvent::KeyToggleDrawing => {
                    drawing = !drawing;
                },
                InputEvent::Other => {},
            }
        }
        proof {
            assert(events@.take(events@.len() as int) =~= events@);
        }
        self.state = state;
        self.drawing_enabled = drawing;

        let mut cmds: Vec<FrameCommand> = Vec::new();
        cmds.push(FrameCommand::Clear { color: cfg.clear_color, depth_micro: CLEAR_DEPTH_MICRO });
        if drawing {
            let n = cubes.len();
            for j in 0..n
                invariant
                    n == cubes@.len(),
                    cfg.wf(),
                    forall|i: int| 0 <= i < cubes@.len() ==> cubes@[i].wf(),
                    0 <= t_us <= MAX_TIME_US,
                    cmds@.len() == 1 + 2 * j,
                    cmds@[0] == (FrameCommand::Clear {
                        color: cfg.clear_color,
                        depth_micro: CLEAR_DEPTH_MICRO,
                    }),
                    forall|i: int| 0 <= i < j ==> cmds@[1 + 2 * i] == (FrameCommand::Draw {
                        call: spec_draw_call(cubes@, *cfg, t_us, i, Pass::Direct),
                    }),
                    forall|i: int| 0 <= i < j ==> cmds@[2 + 2 * i] == (FrameCommand::Draw {
                        call: spec_draw_call(cubes@, *cfg, t_us, i, Pass::Reflected),
                    }),
            {
                let cube = &cubes[j];
                let pose = compute_pose(cube, cfg, t_us);
                let direct = DrawCall {
                    cube_index: j,
                    pass: Pass::Direct,
                    pose,
                    color: cube.color,
                    alpha_micro: pass_alpha_micro(Pass::Direct),
                    light_pos: light_position(cfg, Pass::Direct),
                    cull: pass_cull(Pass::Direct),
                    depth_check: DepthCheck::LessOrEqual,
                    depth_write: true,
                    blended: pass_blended(Pass::Direct),
                };
                cmds.push(FrameCommand::Draw { call: direct });
                let reflected = DrawCall {
                    cube_index: j,
                    pass: Pass::Reflected,
                    pose,
                    color: cube.color,
                    alpha_micro: pass_alpha_micro(Pass::Reflected),
                    light_pos: light_position(cfg, Pass::Reflected),
                    cull: pass_cull(Pass::Reflected),
                    depth_check: DepthCheck::LessOrEqual,
                    depth_write: true,
                    blended: pass_blended(Pass::Reflected),
                };
                cmds.push(FrameCommand::Draw { call: reflected });
            }
        }
        cmds.push(FrameCommand::Present);
        proof {
            let fin = spec_frame_commands(cubes@, *cfg, t_us, drawing);
            assert forall|k: int| 0 <= k < cmds@.len() implies cmds@[k] == fin[k] by {
                let n = cubes@.len() as int;
                if k != 0 && k != spec_frame_len(n, drawing) - 1 {
                    let i = (k - 1) / 2;
                    if (k - 1) % 2 == 0 {
                        assert(k == 1 + 2 * i);
                    } else {
                        assert(k == 2 + 2 * i);
                    }
                }
            }
            assert(cmds@ =~= fin);
        }
        cmds
    }
}

/// The direct and the reflected draw of one cube in one frame share the
/// same pose, and with it the same spin rotation (axis and angle); they
/// differ only in the pass parameters.
pub proof fn lemma_passes_share_pose(cubes: Seq<Cube>, cfg: SceneConfig, t_us: i64, j: int)
    requires
        0 <= j < cubes.len(),
    ensures
        spec_draw_call(cubes, cfg, t_us, j, Pass::Direct).pose
            == spec_draw_call(cubes, cfg, t_us, j, Pass::Reflected).pose,
{
}

/// Once stopped, the loop stays stopped: no event batch brings it back.
pub proof fn lemma_stopped_is_terminal(drawing: bool, events: Seq<InputEvent>)
    ensures
        spec_events_applied((LoopState::Stopped, drawing), events).0 == LoopState::Stopped,
    decreases events.len(),
{
    if events.len() > 0 {
        lemma_stopped_is_terminal(drawing, events.drop_last());
    }
}

/// A batch that carries a quit or escape signal stops the loop, whatever
/// else it carries and in whatever order.
pub proof fn lemma_quit_stops_loop(s: (LoopState, bool), events: Seq<InputEvent>)
    requires
        events.contains(InputEvent::Quit) || events.contains(InputEvent::KeyEscape),
    ensures
        spec_events_applied(s, events).0 == LoopState::Stopped,
    decreases events.len(),
{
    let last = events.last();
    if last == InputEvent::Quit || last == InputEvent::KeyEscape {
    } else {
        let i = if events.contains(InputEvent::Quit) {
            choose|i: int| 0 <= i < events.len() && events[i] == InputEvent::Quit
        } else {
            choose|i: int| 0 <= i < events.len() && events[i] == InputEvent::KeyEscape
        };
        assert(i < events.len() - 1);
        assert(events.drop_last()[i] == events[i]);
        lemma_quit_stops_loop(s, events.drop_last());
    }
}

/// Disabling drawing suppresses the draw calls but not the clear or the
/// present: the disabled frame is exactly a clear followed by a present,
/// while an enabled frame over the same scene begins and ends the same way
/// and carries two draws per cube in between.
pub proof fn lemma_toggle_suppresses_draws(cubes: Seq<Cube>, cfg: SceneConfig, t_us: i64)
    ensures
        ({
            let off = spec_frame_commands(cubes, cfg, t_us, false);
            &&& off.len() == 2
            &&& off[0] == (FrameCommand::Clear {
                color: cfg.clear_color,
                depth_micro: CLEAR_DEPTH_MICRO,
            })
            &&& off[1] == FrameCommand::Present
            &&& forall|k: int, c: DrawCall| 0 <= k < off.len()
                ==> off[k] != (FrameCommand::Draw { call: c })
        }),
        ({
            let on = spec_frame_commands(cubes, cfg, t_us, true);
            &&& on.len() == 2 + 2 * cubes.len()
            &&& on[0] == (FrameCommand::Clear {
                color: cfg.clear_color,
                depth_micro: CLEAR_DEPTH_MICRO,
            })
            &&& on[on.len() - 1] == FrameCommand::Present
        }),
{
}

/// A quit signal received during a frame stops the loop, but only after the
/// frame completes: the frame's command list still ends with its present,
/// and every later frame is empty (no further draw calls are ever issued).
pub proof fn lemma_quit_completes_frame(
    drawing0: bool,
    events: Seq<InputEvent>,
    cubes: Seq<Cube>,
    cfg: SceneConfig,
    t_us: i64,
)
    requires
        events.contains(InputEvent::Quit) || events.contains(InputEvent::KeyEscape),
    ensures
        spec_events_applied((LoopState::Running, drawing0), events).0 == LoopState::Stopped,
        ({
            let after = spec_events_applied((LoopState::Running, drawing0), events);
            let frame = spec_frame_commands(cubes, cfg, t_us, after.1);
            frame[frame.len() - 1] == FrameCommand::Present
        }),
{
    lemma_quit_stops_loop((LoopState::Running, drawing0), events);
}

} // verus!
