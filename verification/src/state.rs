//! Per-frame control state: camera input integration, the ping-pong
//! accumulation pair, sample counting and invalidation, surface
//! configuration and the per-render dispatch plan.
//!
//! The GPU device, its textures and the window live outside the library.
//! They feed this state machine plain values (key transitions, mouse motion,
//! a frame delta, a surface size) and carry out what it decides: which
//! accumulation image to read and which to write, how many work groups to
//! dispatch, when to rebuild size-dependent resources and when to discard
//! accumulated samples.
//!
//! Scalars (the frame delta, mouse motion, angles) travel as IEEE 754
//! single-precision bit patterns or as opaque `glam` vectors; every float
//! operation goes through the named wrappers in `crate::math`, so each
//! contract states exactly which operations were applied.

use vstd::prelude::*;
use vstd::arithmetic::div_mod::lemma_fundamental_div_mod;
use crate::math::{
    add_vec, clamp_vec, mul_vec, splat_of, sub_vec, vec_add, vec_clamp, vec_from_bits, vec_mul,
    vec_of_bits, vec_sub, vec_zero, F32_ONE_BITS,
};

verus! {

/// Movement speed in world units per second (bit pattern of 2.0).
pub const SPEED_BITS: u32 = 0x4000_0000;

/// Radians of camera turn per unit of mouse motion (bit pattern of 0.002).
pub const MOUSE_SENSITIVITY_BITS: u32 = 0x3b03_126f;

/// Lower pitch bound, a hundredth above the south pole
/// (bit pattern of -pi/2 + 0.01 evaluated in single precision).
pub const PITCH_MIN_BITS: u32 = 0xbfc7_c82d;

/// Upper pitch bound, a hundredth below the north pole
/// (bit pattern of pi/2 - 0.01 evaluated in single precision).
pub const PITCH_MAX_BITS: u32 = 0x3fc7_c82d;

/// Bit pattern of single-precision negative infinity: a clamp bound that
/// never binds.
pub const F32_NEG_INF_BITS: u32 = 0xff80_0000;

/// Bit pattern of single-precision positive infinity.
pub const F32_INF_BITS: u32 = 0x7f80_0000;

/// Step of one focal-distance or aperture-radius key press
/// (bit pattern of 0.02).
pub const ADJUST_STEP_BITS: u32 = 0x3ca3_d70a;

/// Starting focal distance (bit pattern of 4.0).
pub const FOCAL_START_BITS: u32 = 0x4080_0000;

/// Starting aperture radius (bit pattern of 0.05).
pub const APERTURE_START_BITS: u32 = 0x3d4c_cccd;

/// Edge length of one compute work group; the dispatch grid is the
/// resolution divided by this, rounded up.
pub const WORKGROUP_EDGE: u32 = 8;

/// Which movement keys are currently held.
#[derive(Clone, Copy, PartialEq, Eq, Structural, Debug)]
pub struct HeldKeys {
    pub forward: bool,
    pub back: bool,
    pub strafe_left: bool,
    pub strafe_right: bool,
    pub down: bool,
    pub up: bool,
}

/// The keys the renderer reacts to. The windowing layer translates its own
/// key codes into these before calling in.
#[derive(Clone, Copy, PartialEq, Eq, Structural, Debug)]
pub enum Key {
    Forward,
    Back,
    StrafeLeft,
    StrafeRight,
    Down,
    Up,
    Escape,
    LockToggle,
    FocalUp,
    FocalDown,
    ApertureUp,
    ApertureDown,
}

/// One of the two accumulation images of the ping-pong pair.
#[derive(Clone, Copy, PartialEq, Eq, Structural, Debug)]
pub enum AccumulationSide {
    A,
    B,
}

/// Everything one compute dispatch needs: which accumulation image to read,
/// which to write, the random seed, the sample count so far, and the
/// work-group grid size.
#[derive(Clone, Copy, PartialEq, Eq, Structural, Debug)]
pub struct RenderPlan {
    pub read_side: AccumulationSide,
    pub write_side: AccumulationSide,
    pub seed: u32,
    pub sample_count: u32,
    pub dispatch_x: u32,
    pub dispatch_y: u32,
}

/// How acquiring the presentable surface failed, as reported by the
/// graphics backend.
#[derive(Clone, Copy, PartialEq, Eq, Structural, Debug)]
pub enum SurfaceIssue {
    Lost,
    Outdated,
    Timeout,
    OutOfMemory,
    Other,
}

/// What to do about a failed surface acquisition.
#[derive(Clone, Copy, PartialEq, Eq, Structural, Debug)]
pub enum SurfaceRecovery {
    Reconfigure,
    SkipFrame,
}

/// The renderer's control state: surface configuration, the accumulation
/// pair's parity and sample counter, the frame counter that doubles as the
/// random seed, camera state, and input state.
pub struct State {
    pub config_width: u32,
    pub config_height: u32,
    pub is_surface_configured: bool,
    pub accumulation_swap: bool,
    pub frame: u32,
    pub sample_count: u32,
    pub camera_pos: glam::Vec3A,
    /// Yaw in the first component, pitch in the second, zero in the third.
    pub angles: glam::Vec3A,
    pub forward: glam::Vec3A,
    pub right: glam::Vec3A,
    pub up: glam::Vec3A,
    /// Focal distance, splatted across all three components.
    pub focal_distance: glam::Vec3A,
    /// Aperture radius, splatted across all three components.
    pub aperture_radius: glam::Vec3A,
    pub keys_down: HeldKeys,
    /// Mouse motion summed since the last look update.
    pub mouse_delta: glam::Vec3A,
    pub input_locked: bool,
}

/// State after discarding accumulated samples: only the sample counter
/// changes, and it becomes zero.
pub open spec fn invalidate_step(s: State) -> State {
    State { sample_count: 0, ..s }
}

/// State after the dispatch half of a render call: the parity flipped,
/// nothing else touched.
pub open spec fn dispatch_step(s: State) -> State {
    State { accumulation_swap: !s.accumulation_swap, ..s }
}

/// State after the commit half of a render call, once the frame was
/// presented: frame and sample counters up by one.
pub open spec fn commit_step(s: State) -> State {
    State { frame: (s.frame + 1) as u32, sample_count: (s.sample_count + 1) as u32, ..s }
}

/// State after one successful render call: dispatched and committed.
pub open spec fn render_step(s: State) -> State {
    commit_step(dispatch_step(s))
}

/// State after `n` successful render calls.
pub open spec fn render_steps(s: State, n: nat) -> State
    decreases n,
{
    if n == 0 {
        s
    } else {
        render_step(render_steps(s, (n - 1) as nat))
    }
}

/// Work groups needed to cover `edge` pixels: the ceiling of
/// `edge / WORKGROUP_EDGE`.
pub open spec fn groups_for(edge: u32) -> u32 {
    ((edge / 8) + (if edge % 8 == 0 {
        0int
    } else {
        1int
    })) as u32
}

/// The dispatch plan a render call produces: read and write sides chosen by
/// the current parity, the frame counter as seed, and a grid that covers the
/// surface.
pub open spec fn render_plan_of(s: State) -> RenderPlan {
    RenderPlan {
        read_side: if s.accumulation_swap {
            AccumulationSide::B
        } else {
            AccumulationSide::A
        },
        write_side: if s.accumulation_swap {
            AccumulationSide::A
        } else {
            AccumulationSide::B
        },
        seed: s.frame,
        sample_count: s.sample_count,
        dispatch_x: groups_for(s.config_width),
        dispatch_y: groups_for(s.config_height),
    }
}

/// Angles after one look update: the summed mouse motion, scaled by the
/// sensitivity, subtracted from yaw and pitch, and pitch clamped a
/// hundredth inside the poles (the other components' bounds are infinite
/// and never bind).
pub open spec fn looked_angles(s: State) -> glam::Vec3A {
    vec_clamp(
        vec_sub(s.angles, vec_mul(s.mouse_delta, splat_of(MOUSE_SENSITIVITY_BITS))),
        vec_of_bits(F32_NEG_INF_BITS, PITCH_MIN_BITS, F32_NEG_INF_BITS),
        vec_of_bits(F32_INF_BITS, PITCH_MAX_BITS, F32_INF_BITS),
    )
}

/// Whether this tick moves the camera: input unlocked and at least one
/// movement key held.
pub open spec fn movement_held(s: State) -> bool {
    !s.input_locked && (s.keys_down.forward || s.keys_down.back || s.keys_down.strafe_left
        || s.keys_down.strafe_right || s.keys_down.down || s.keys_down.up)
}

/// Distance covered this tick in each axis: speed times the frame delta,
/// splatted.
pub open spec fn move_amount(dt_bits: u32) -> glam::Vec3A {
    vec_mul(splat_of(SPEED_BITS), splat_of(dt_bits))
}

/// Camera position after one movement update: for each held movement key,
/// in a fixed order, the matching basis direction scaled by the move amount
/// is added to (or subtracted from) the position. Locked input moves
/// nothing.
pub open spec fn moved_position(
    s: State,
    dt_bits: u32,
    fwd: glam::Vec3A,
    right: glam::Vec3A,
    up: glam::Vec3A,
) -> glam::Vec3A {
    if s.input_locked {
        s.camera_pos
    } else {
        let amt = move_amount(dt_bits);
        let p1 = if s.keys_down.forward {
            vec_add(s.camera_pos, vec_mul(fwd, amt))
        } else {
            s.camera_pos
        };
        let p2 = if s.keys_down.back {
            vec_sub(p1, vec_mul(fwd, amt))
        } else {
            p1
        };
        let p3 = if s.keys_down.strafe_right {
            vec_add(p2, vec_mul(right, amt))
        } else {
            p2
        };
        let p4 = if s.keys_down.strafe_left {
            vec_sub(p3, vec_mul(right, amt))
        } else {
            p3
        };
        let p5 = if s.keys_down.down {
            vec_sub(p4, vec_mul(up, amt))
        } else {
            p4
        };
        if s.keys_down.up {
            vec_add(p5, vec_mul(up, amt))
        } else {
            p5
        }
    }
}

/// State after one key transition. Movement keys only track their held
/// flag; the lock toggle flips on press; focal-distance steps discard
/// accumulated samples; aperture-radius steps deliberately do not.
pub open spec fn handle_key_step(s: State, key: Key, pressed: bool) -> State {
    match key {
        Key::Forward => State { keys_down: HeldKeys { forward: pressed, ..s.keys_down }, ..s },
        Key::Back => State { keys_down: HeldKeys { back: pressed, ..s.keys_down }, ..s },
        Key::StrafeLeft => State {
            keys_down: HeldKeys { strafe_left: pressed, ..s.keys_down },
            ..s
        },
        Key::StrafeRight => State {
            keys_down: HeldKeys { strafe_right: pressed, ..s.keys_down },
            ..s
        },
        Key::Down => State { keys_down: HeldKeys { down: pressed, ..s.keys_down }, ..s },
        Key::Up => State { keys_down: HeldKeys { up: pressed, ..s.keys_down }, ..s },
        Key::Escape => s,
        Key::LockToggle => if pressed {
            State { input_locked: !s.input_locked, ..s }
        } else {
            s
        },
        Key::FocalUp => if pressed {
            State {
                focal_distance: vec_add(s.focal_distance, splat_of(ADJUST_STEP_BITS)),
                sample_count: 0,
                ..s
            }
        } else {
            s
        },
        Key::FocalDown => if pressed {
            State {
                focal_distance: vec_sub(s.focal_distance, splat_of(ADJUST_STEP_BITS)),
                sample_count: 0,
                ..s
            }
        } else {
            s
        },
        Key::ApertureUp => if pressed {
            State { aperture_radius: vec_add(s.aperture_radius, splat_of(ADJUST_STEP_BITS)), ..s }
        } else {
            s
        },
        Key::ApertureDown => if pressed {
            State { aperture_radius: vec_sub(s.aperture_radius, splat_of(ADJUST_STEP_BITS)), ..s }
        } else {
            s
        },
    }
}

impl State {
    /// Fresh state for a surface of the given size (clamped to at least one
    /// pixel each way, as a zero-sized surface cannot be configured). The
    /// camera starts at the origin looking along the world y axis, so the
    /// starting basis is exact without any trigonometry.
    pub fn new(width: u32, height: u32) -> (r: State)
        ensures
            r.config_width == (if width > 0 { width } else { 1u32 }),
            r.config_height == (if height > 0 { height } else { 1u32 }),
            !r.is_surface_configured,
            !r.accumulation_swap,
            r.frame == 0,
            r.sample_count == 0,
            r.camera_pos == vec_of_bits(0, 0, 0),
            r.angles == vec_of_bits(0, 0, 0),
            r.forward == vec_of_bits(0, F32_ONE_BITS, 0),
            r.right == vec_of_bits(F32_ONE_BITS, 0, 0),
            r.up == vec_of_bits(0, 0, F32_ONE_BITS),
            r.focal_distance == splat_of(FOCAL_START_BITS),
            r.aperture_radius == splat_of(APERTURE_START_BITS),
            r.keys_down == (HeldKeys {
                forward: false,
                back: false,
                strafe_left: false,
                strafe_right: false,
                down: false,
                up: false,
            }),
            r.mouse_delta == vec_of_bits(0, 0, 0),
            !r.input_locked,
    {
        State {
            config_width: if width > 0 { width } else { 1 },
            config_height: if height > 0 { height } else { 1 },
            is_surface_configured: false,
            accumulation_swap: false,
            frame: 0,
            sample_count: 0,
            camera_pos: vec_zero(),
            angles: vec_zero(),
            forward: vec_from_bits(0, F32_ONE_BITS, 0),
            right: vec_from_bits(F32_ONE_BITS, 0, 0),
            up: vec_from_bits(0, 0, F32_ONE_BITS),
            focal_distance: vec_from_bits(FOCAL_START_BITS, FOCAL_START_BITS, FOCAL_START_BITS),
            aperture_radius: vec_from_bits(
                APERTURE_START_BITS,
                APERTURE_START_BITS,
                APERTURE_START_BITS,
            ),
            keys_down: HeldKeys {
                forward: false,
                back: false,
                strafe_left: false,
                strafe_right: false,
                down: false,
                up: false,
            },
            mouse_delta: vec_zero(),
            input_locked: false,
        }
    }

    /// Adopts a new surface size. A zero width or height (a minimized
    /// window) changes nothing at all; otherwise the surface is considered
    /// configured at the new size, the accumulation pair restarts on its
    /// first image, and all accumulated samples are discarded, since the
    /// pixel mapping changed. Returns whether the caller must reconfigure
    /// the surface and rebuild the size-dependent images.
    pub fn resize(&mut self, width: u32, height: u32) -> (reconfigured: bool)
        ensures
            reconfigured == (width > 0 && height > 0),
            reconfigured ==> *final(self) == (State {
                config_width: width,
                config_height: height,
                is_surface_configured: true,
                accumulation_swap: false,
                sample_count: 0,
                ..*old(self)
            }),
            !reconfigured ==> *final(self) == *old(self),
    {
        if width > 0 && height > 0 {
            self.config_width = width;
            self.config_height = height;
            self.is_surface_configured = true;
            self.accumulation_swap = false;
            self.sample_count = 0;
            true
        } else {
            false
        }
    }

    /// Discards all accumulated samples. The caller recreates both
    /// accumulation images; here only the sample counter resets, so calling
    /// this any number of times between renders has the same effect as
    /// calling it once.
    pub fn invalidate(&mut self)
        ensures
            *final(self) == invalidate_step(*old(self)),
    {
        self.sample_count = 0;
    }

    /// One key transition. Returns whether the application should exit
    /// (the escape key, on press).
    pub fn handle_key(&mut self, key: Key, pressed: bool) -> (exit: bool)
        ensures
            *final(self) == handle_key_step(*old(self), key, pressed),
            exit == (key == Key::Escape && pressed),
    {
        match key {
            Key::Forward => {
                self.keys_down.forward = pressed;
                false
            },
            Key::Back => {
                self.keys_down.back = pressed;
                false
            },
            Key::StrafeLeft => {
                self.keys_down.strafe_left = pressed;
                false
            },
            Key::StrafeRight => {
                self.keys_down.strafe_right = pressed;
                false
            },
            Key::Down => {
                self.keys_down.down = pressed;
                false
            },
            Key::Up => {
                self.keys_down.up = pressed;
                false
            },
            Key::Escape => pressed,
            Key::LockToggle => {
                if pressed {
                    self.input_locked = !self.input_locked;
                }
                false
            },
            Key::FocalUp => {
                if pressed {
                    let step = vec_from_bits(ADJUST_STEP_BITS, ADJUST_STEP_BITS, ADJUST_STEP_BITS);
                    self.focal_distance = add_vec(&self.focal_distance, &step);
                    self.sample_count = 0;
                }
                false
            },
            Key::FocalDown => {
                if pressed {
                    let step = vec_from_bits(ADJUST_STEP_BITS, ADJUST_STEP_BITS, ADJUST_STEP_BITS);
                    self.focal_distance = sub_vec(&self.focal_distance, &step);
                    self.sample_count = 0;
                }
                false
            },
            Key::ApertureUp => {
                if pressed {
                    let step = vec_from_bits(ADJUST_STEP_BITS, ADJUST_STEP_BITS, ADJUST_STEP_BITS);
                    self.aperture_radius = add_vec(&self.aperture_radius, &step);
                }
                false
            },
            Key::ApertureDown => {
                if pressed {
                    let step = vec_from_bits(ADJUST_STEP_BITS, ADJUST_STEP_BITS, ADJUST_STEP_BITS);
                    self.aperture_radius = sub_vec(&self.aperture_radius, &step);
                }
                false
            },
        }
    }

    /// Relative mouse motion. While input is unlocked it is summed into the
    /// pending delta and discards accumulated samples, since the camera will
    /// turn; while locked it is ignored entirely.
    pub fn mouse_motion(&mut self, dx_bits: u32, dy_bits: u32)
        ensures
            old(self).input_locked ==> *final(self) == *old(self),
            !old(self).input_locked ==> *final(self) == (State {
                mouse_delta: vec_add(old(self).mouse_delta, vec_of_bits(dx_bits, dy_bits, 0)),
                sample_count: 0,
                ..*old(self)
            }),
    {
        if !self.input_locked {
            let d = vec_from_bits(dx_bits, dy_bits, 0);
            self.mouse_delta = add_vec(&self.mouse_delta, &d);
            self.sample_count = 0;
        }
    }

    /// First half of a tick: turns the camera by the summed mouse motion and
    /// clears the sum, so each unit of motion is applied exactly once. Pitch
    /// is clamped a hundredth inside the poles to keep the basis
    /// non-degenerate. The caller derives the new basis vectors from the new
    /// angles and hands them to `update_move`.
    pub fn update_look(&mut self)
        ensures
            *final(self) == (State {
                angles: looked_angles(*old(self)),
                mouse_delta: vec_of_bits(0, 0, 0),
                ..*old(self)
            }),
    {
        let sens = vec_from_bits(
            MOUSE_SENSITIVITY_BITS,
            MOUSE_SENSITIVITY_BITS,
            MOUSE_SENSITIVITY_BITS,
        );
        let scaled = mul_vec(&self.mouse_delta, &sens);
        let turned = sub_vec(&self.angles, &scaled);
        let lo = vec_from_bits(F32_NEG_INF_BITS, PITCH_MIN_BITS, F32_NEG_INF_BITS);
        let hi = vec_from_bits(F32_INF_BITS, PITCH_MAX_BITS, F32_INF_BITS);
        self.angles = clamp_vec(&turned, &lo, &hi);
        self.mouse_delta = vec_zero();
    }

    /// Second half of a tick: adopts the basis derived from the current
    /// angles and, while input is unlocked, walks the camera along each held
    /// movement direction by speed times the frame delta. If anything moved,
    /// accumulated samples are discarded exactly once for the whole tick,
    /// never once per key. Returns whether anything moved.
    pub fn update_move(
        &mut self,
        dt_bits: u32,
        forward: glam::Vec3A,
        right: glam::Vec3A,
        up: glam::Vec3A,
    ) -> (moved: bool)
        ensures
            moved == movement_held(*old(self)),
            *final(self) == (State {
                forward: forward,
                right: right,
                up: up,
                camera_pos: moved_position(*old(self), dt_bits, forward, right, up),
                sample_count: if movement_held(*old(self)) {
                    0u32
                } else {
                    old(self).sample_count
                },
                ..*old(self)
            }),
    {
        self.forward = forward;
        self.right = right;
        self.up = up;
        let dt = vec_from_bits(dt_bits, dt_bits, dt_bits);
        let speed = vec_from_bits(SPEED_BITS, SPEED_BITS, SPEED_BITS);
        let amount = mul_vec(&speed, &dt);
        let mut moved = false;
        if !self.input_locked {
            if self.keys_down.forward {
                let d = mul_vec(&self.forward, &amount);
                self.camera_pos = add_vec(&self.camera_pos, &d);
                moved = true;
            }
            if self.keys_down.back {
                let d = mul_vec(&self.forward, &amount);
                self.camera_pos = sub_vec(&self.camera_pos, &d);
                moved = true;
            }
            if self.keys_down.strafe_right {
                let d = mul_vec(&self.right, &amount);
                self.camera_pos = add_vec(&self.camera_pos, &d);
                moved = true;
            }
            if self.keys_down.strafe_left {
                let d = mul_vec(&self.right, &amount);
                self.camera_pos = sub_vec(&self.camera_pos, &d);
                moved = true;
            }
            if self.keys_down.down {
                let d = mul_vec(&self.up, &amount);
                self.camera_pos = sub_vec(&self.camera_pos, &d);
                moved = true;
            }
            if self.keys_down.up {
                let d = mul_vec(&self.up, &amount);
                self.camera_pos = add_vec(&self.camera_pos, &d);
                moved = true;
            }
            if moved {
                self.sample_count = 0;
            }
        }
        moved
    }

    /// The dispatch half of a render call. Before the surface is configured
    /// this is a no-op that produces no plan. Otherwise it hands back the
    /// dispatch plan — read and write accumulation images chosen by the
    /// current parity (and therefore never the same image), the frame
    /// counter as random seed, the current sample count, and a work-group
    /// grid covering the surface — and flips the parity. The counters move
    /// only in `commit_frame`, after the frame is presented, so a failed
    /// surface acquisition leaves them untouched.
    pub fn render(&mut self) -> (plan: Option<RenderPlan>)
        ensures
            !old(self).is_surface_configured ==> plan is None && *final(self) == *old(self),
            old(self).is_surface_configured ==> plan == Some(render_plan_of(*old(self)))
                && *final(self) == dispatch_step(*old(self)),
    {
        if !self.is_surface_configured {
            return None;
        }
        let read_side = if self.accumulation_swap {
            AccumulationSide::B
        } else {
            AccumulationSide::A
        };
        let write_side = if self.accumulation_swap {
            AccumulationSide::A
        } else {
            AccumulationSide::B
        };
        let dispatch_x = self.config_width / WORKGROUP_EDGE + (if self.config_width
            % WORKGROUP_EDGE == 0 {
            0
        } else {
            1
        });
        let dispatch_y = self.config_height / WORKGROUP_EDGE + (if self.config_height
            % WORKGROUP_EDGE == 0 {
            0
        } else {
            1
        });
        let plan = RenderPlan {
            read_side,
            write_side,
            seed: self.frame,
            sample_count: self.sample_count,
            dispatch_x,
            dispatch_y,
        };
        self.accumulation_swap = !self.accumulation_swap;
        Some(plan)
    }

    /// Counts one successful render call, once the frame was presented: the
    /// frame counter — which doubles as the next random seed — and the
    /// sample counter each move up by one. A skipped frame is never
    /// committed, so both counters stand still when the surface could not
    /// be acquired.
    pub fn commit_frame(&mut self)
        requires
            old(self).frame < u32::MAX,
            old(self).sample_count < u32::MAX,
        ensures
            *final(self) == commit_step(*old(self)),
    {
        self.frame = self.frame + 1;
        self.sample_count = self.sample_count + 1;
    }
}

/// What to do when the surface could not be acquired: a lost or outdated
/// surface is recovered by reconfiguring at the current size; any other
/// failure skips the frame and rendering continues.
pub fn classify_surface_issue(issue: SurfaceIssue) -> (r: SurfaceRecovery)
    ensures
        r == SurfaceRecovery::Reconfigure <==> (issue == SurfaceIssue::Lost || issue
            == SurfaceIssue::Outdated),
{
    match issue {
        SurfaceIssue::Lost => SurfaceRecovery::Reconfigure,
        SurfaceIssue::Outdated => SurfaceRecovery::Reconfigure,
        SurfaceIssue::Timeout => SurfaceRecovery::SkipFrame,
        SurfaceIssue::OutOfMemory => SurfaceRecovery::SkipFrame,
        SurfaceIssue::Other => SurfaceRecovery::SkipFrame,
    }
}

/// Law: a render call never reads and writes the same accumulation image,
/// whatever the parity.
pub proof fn lemma_render_never_aliases(s: State)
    ensures
        render_plan_of(s).read_side != render_plan_of(s).write_side,
{
}

/// Law: across any run of successful render calls, each call flips the
/// parity exactly once and counts exactly one frame and one sample.
pub proof fn lemma_render_counters(s: State, n: nat)
    requires
        s.frame + n <= u32::MAX,
        s.sample_count + n <= u32::MAX,
    ensures
        render_steps(s, n).frame == s.frame + n,
        render_steps(s, n).sample_count == s.sample_count + n,
        render_steps(s, n).accumulation_swap == (if n % 2 == 0 {
            s.accumulation_swap
        } else {
            !s.accumulation_swap
        }),
    decreases n,
{
    if n > 0 {
        lemma_render_counters(s, (n - 1) as nat);
    }
}

/// Law: after any invalidation the sample counter is zero regardless of its
/// prior value, repeating an invalidation changes nothing further, and after
/// `n` subsequent successful render calls the sample counter is exactly `n`.
pub proof fn lemma_invalidation_resets_sample_count(s: State, n: nat)
    requires
        s.frame + n <= u32::MAX,
        n <= u32::MAX,
    ensures
        invalidate_step(s).sample_count == 0,
        invalidate_step(invalidate_step(s)) == invalidate_step(s),
        render_steps(invalidate_step(s), n).sample_count == n,
{
    lemma_render_counters(invalidate_step(s), n);
}

/// Law: the dispatch grid covers the surface: `groups_for(edge)` work
/// groups of `WORKGROUP_EDGE` threads reach at least `edge` pixels, and not
/// a whole group beyond it.
pub proof fn lemma_dispatch_covers(edge: u32)
    ensures
        groups_for(edge) * WORKGROUP_EDGE >= edge,
        edge > 0 ==> (groups_for(edge) - 1) * WORKGROUP_EDGE < edge,
{
    lemma_fundamental_div_mod(edge as int, 8);
}

} // verus!
