//! The camera controller: projection-mode state machine, zoom with floors,
//! and the per-tick decision of which camera motion to perform.
//!
//! Lengths (orthographic half-height, orbit radius) are fixed-point values in
//! millionths of a world unit; scroll amounts are in thousandths of a step.

use vstd::prelude::*;

verus! {

/// Fixed-point lengths are counted in millionths of a world unit.
pub const MICROS_PER_UNIT: u64 = 1_000_000;

/// Scroll amounts are counted in thousandths of a scroll step.
pub const MILLIS_PER_STEP: i64 = 1000;

/// Smallest orthographic half-height: 0.02 world units.
pub const MIN_ORTHO_SCALE: u64 = 20_000;

/// Smallest orbit radius: 0.05 world units.
pub const MIN_ORBIT_RADIUS: u64 = 50_000;

/// Orthographic zoom: each step changes the scale by a tenth of itself,
/// i.e. `scale * scroll_milli / 10_000`.
pub const ORTHO_ZOOM_DIVISOR: u64 = 10_000;

/// Perspective zoom: each step changes the radius by a fifth of itself,
/// i.e. `radius * scroll_milli / 5_000`.
pub const ORBIT_ZOOM_DIVISOR: u64 = 5_000;

/// The value that `zoom_length` gives: `value - value * scroll / divisor`
/// (the product rounded toward zero), held between `floor` and `u64::MAX`.
pub open spec fn zoomed(value: int, scroll: int, divisor: int, floor: int) -> int {
    let magnitude = if scroll >= 0 { scroll } else { -scroll };
    let delta = (value * magnitude) / divisor;
    let raw = if scroll >= 0 { value - delta } else { value + delta };
    if raw < floor {
        floor
    } else if raw > u64::MAX as int {
        u64::MAX as int
    } else {
        raw
    }
}

/// Applies one zoom step of `scroll` thousandths to a fixed-point length.
pub fn zoom_length(value: u64, scroll: i64, divisor: u64, floor: u64) -> (r: u64)
    requires
        divisor > 0,
    ensures
        r as int == zoomed(value as int, scroll as int, divisor as int, floor as int),
        r >= floor,
{
    let magnitude: u128 = if scroll >= 0 {
        scroll as u128
    } else {
        (-(scroll as i128)) as u128
    };
    assert(value as int * magnitude as int <= u64::MAX as int * 0x8000_0000_0000_0000) by (nonlinear_arith)
        requires
            value <= u64::MAX,
            magnitude <= 0x8000_0000_0000_0000,
    ;
    let delta: u128 = (value as u128 * magnitude) / (divisor as u128);
    assert(delta <= value as int * magnitude as int) by (nonlinear_arith)
        requires
            delta == (value as int * magnitude as int) / (divisor as int),
            divisor >= 1,
            value as int * magnitude as int >= 0,
    ;
    let raw_below: bool;
    let raw: u128;
    if scroll >= 0 {
        if delta > value as u128 {
            raw_below = true;
            raw = 0;
        } else {
            raw_below = false;
            raw = value as u128 - delta;
        }
    } else {
        raw_below = false;
        raw = value as u128 + delta;
    }
    if raw_below || raw < floor as u128 {
        floor
    } else if raw > u64::MAX as u128 {
        u64::MAX
    } else {
        raw as u64
    }
}


/// Which of the two projections is active.
#[derive(Clone, Copy, Debug, PartialEq, Eq, Structural)]
pub enum ProjectionMode {
    Perspective,
    Orthographic,
}

/// What the pointer buttons, the pointer and the scroll wheel did during one
/// tick, already reduced from that tick's events.
#[derive(Clone, Copy, Debug)]
pub struct TickInput {
    /// The pan button is held.
    pub pan_pressed: bool,
    /// The orbit button is held.
    pub orbit_pressed: bool,
    /// The orbit button went down during this tick.
    pub orbit_just_pressed: bool,
    /// The orbit button went up during this tick.
    pub orbit_just_released: bool,
    /// The latest pointer sample differs from the previous pointer position.
    pub pointer_moved: bool,
    /// Scroll of this tick, summed over its events, in thousandths of a step.
    pub scroll: i64,
    /// The camera's local up axis, turned into world space, has a world Z
    /// component that is not positive.
    pub up_z_nonpositive: bool,
}

/// What the caller must do to the camera's pose after a tick.
#[derive(Clone, Copy, Debug, PartialEq, Eq, Structural)]
pub enum CameraAction {
    /// Move the camera to its initial position with identity orientation.
    ResetPose,
    /// Orthographic tick: when `pan` holds, move the camera in its view
    /// plane against the cursor motion, using the current scale.
    Orthographic { pan: bool },
    /// Orbit around the orbit center by the cursor motion, the yaw inverted
    /// when `upside_down` holds, then place the camera on its orbit.
    Orbit { upside_down: bool },
    /// Move the orbit center against the cursor motion, in proportion to the
    /// orbit radius, then place the camera on its orbit.
    PanCenter,
    /// The orbit radius changed: place the camera on its orbit.
    Zoom,
    /// Leave the camera as it is.
    Idle,
}

/// The controller's state as plain values.
pub struct ProjectionState {
    pub mode: ProjectionMode,
    pub mode_switched: bool,
    pub ortho_scale: int,
    pub orbit_radius: int,
    pub upside_down: bool,
}

impl ProjectionState {
    /// Both lengths are at or above their floors and fit in a `u64`.
    pub open spec fn wf(self) -> bool {
        &&& MIN_ORTHO_SCALE <= self.ortho_scale <= u64::MAX
        &&& MIN_ORBIT_RADIUS <= self.orbit_radius <= u64::MAX
    }
}

/// Cursor motion counts only while the pan or the orbit button is held.
pub open spec fn has_motion(i: TickInput) -> bool {
    (i.pan_pressed || i.orbit_pressed) && i.pointer_moved
}

/// The state after `set_mode(mode)`.
pub open spec fn with_mode(s: ProjectionState, mode: ProjectionMode) -> ProjectionState {
    ProjectionState { mode: mode, mode_switched: true, ..s }
}

/// One tick of the controller: the next state and the action on the pose.
///
/// A pending mode switch resets the pose and consumes the tick. In
/// orthographic mode the scale zooms by the scroll and the view pans while
/// there is motion. In perspective mode the upside-down flag is latched on an
/// orbit-button edge, then exactly one of orbit, pan and zoom happens, in
/// that order of priority.
pub open spec fn tick(s: ProjectionState, i: TickInput) -> (ProjectionState, CameraAction) {
    if s.mode_switched {
        (ProjectionState { mode_switched: false, ..s }, CameraAction::ResetPose)
    } else if s.mode == ProjectionMode::Orthographic {
        let scale = if i.scroll != 0 {
            zoomed(s.ortho_scale, i.scroll as int, ORTHO_ZOOM_DIVISOR as int, MIN_ORTHO_SCALE as int)
        } else {
            s.ortho_scale
        };
        (ProjectionState { ortho_scale: scale, ..s }, CameraAction::Orthographic { pan: has_motion(i) })
    } else {
        let upside_down = if i.orbit_just_pressed || i.orbit_just_released {
            i.up_z_nonpositive
        } else {
            s.upside_down
        };
        let latched = ProjectionState { upside_down: upside_down, ..s };
        if i.orbit_pressed && has_motion(i) {
            (latched, CameraAction::Orbit { upside_down: upside_down })
        } else if i.pan_pressed && has_motion(i) {
            (latched, CameraAction::PanCenter)
        } else if i.scroll != 0 {
            let radius = zoomed(s.orbit_radius, i.scroll as int, ORBIT_ZOOM_DIVISOR as int, MIN_ORBIT_RADIUS as int);
            (ProjectionState { orbit_radius: radius, ..latched }, CameraAction::Zoom)
        } else {
            (latched, CameraAction::Idle)
        }
    }
}

/// The state after running `inputs` one tick after another.
pub open spec fn run(s: ProjectionState, inputs: Seq<TickInput>) -> ProjectionState
    decreases inputs.len(),
{
    if inputs.len() == 0 {
        s
    } else {
        run(tick(s, inputs[0]).0, inputs.drop_first())
    }
}

/// The state of a new controller: orthographic, with a switch pending, a
/// half-height of 10 world units and an orbit radius of 100 world units.
pub open spec fn initial_state() -> ProjectionState {
    ProjectionState {
        mode: ProjectionMode::Orthographic,
        mode_switched: true,
        ortho_scale: 10 * MICROS_PER_UNIT as int,
        orbit_radius: 100 * MICROS_PER_UNIT as int,
        upside_down: false,
    }
}

/// The projection controller: active mode, pending-switch flag, the
/// orthographic scale, the orbit radius and the latched upside-down flag.
#[derive(Clone, Debug)]
pub struct FlexibleProjection {
    mode: ProjectionMode,
    mode_switched: bool,
    ortho_scale: u64,
    orbit_radius: u64,
    orbit_upside_down: bool,
}

impl View for FlexibleProjection {
    type V = ProjectionState;

    closed spec fn view(&self) -> ProjectionState {
        ProjectionState {
            mode: self.mode,
            mode_switched: self.mode_switched,
            ortho_scale: self.ortho_scale as int,
            orbit_radius: self.orbit_radius as int,
            upside_down: self.orbit_upside_down,
        }
    }
}

impl FlexibleProjection {
    /// Orthographic, with a switch pending, a half-height of 10 world units
    /// and an orbit radius of 100 world units.
    pub fn new() -> (r: Self)
        ensures
            r@ == initial_state(),
            r@.wf(),
    {
        FlexibleProjection {
            mode: ProjectionMode::Orthographic,
            mode_switched: true,
            ortho_scale: 10 * MICROS_PER_UNIT,
            orbit_radius: 100 * MICROS_PER_UNIT,
            orbit_upside_down: false,
        }
    }

    pub fn mode(&self) -> (r: ProjectionMode)
        ensures
            r == self@.mode,
    {
        self.mode
    }

    pub fn mode_switched(&self) -> (r: bool)
        ensures
            r == self@.mode_switched,
    {
        self.mode_switched
    }

    /// Orthographic half-height, in millionths of a world unit.
    pub fn ortho_scale(&self) -> (r: u64)
        ensures
            r == self@.ortho_scale,
    {
        self.ortho_scale
    }

    /// Orbit radius, in millionths of a world unit.
    pub fn orbit_radius(&self) -> (r: u64)
        ensures
            r == self@.orbit_radius,
    {
        self.orbit_radius
    }

    pub fn upside_down(&self) -> (r: bool)
        ensures
            r == self@.upside_down,
    {
        self.orbit_upside_down
    }

    /// Makes `mode` active and raises the switch flag, also when `mode` was
    /// already active.
    pub fn set_mode(&mut self, mode: ProjectionMode)
        ensures
            final(self)@ == with_mode(old(self)@, mode),
    {
        self.mode = mode;
        self.mode_switched = true;
    }

    /// Sets the orthographic half-height, raised to its floor if below it.
    pub fn set_ortho_scale(&mut self, scale: u64)
        ensures
            final(self)@ == (ProjectionState {
                ortho_scale: if scale < MIN_ORTHO_SCALE { MIN_ORTHO_SCALE as int } else { scale as int },
                ..old(self)@
            }),
    {
        self.ortho_scale = if scale < MIN_ORTHO_SCALE { MIN_ORTHO_SCALE } else { scale };
    }

    /// Sets the orbit radius, raised to its floor if below it.
    pub fn set_orbit_radius(&mut self, radius: u64)
        ensures
            final(self)@ == (ProjectionState {
                orbit_radius: if radius < MIN_ORBIT_RADIUS { MIN_ORBIT_RADIUS as int } else { radius as int },
                ..old(self)@
            }),
    {
        self.orbit_radius = if radius < MIN_ORBIT_RADIUS { MIN_ORBIT_RADIUS } else { radius };
    }

    /// Runs one tick of the controller and says what to do with the pose.
    pub fn step(&mut self, input: &TickInput) -> (r: CameraAction)
        ensures
            (final(self)@, r) == tick(old(self)@, *input),
    {
        if self.mode_switched {
            self.mode_switched = false;
            return CameraAction::ResetPose;
        }
        let motion = (input.pan_pressed || input.orbit_pressed) && input.pointer_moved;
        match self.mode {
            ProjectionMode::Orthographic => {
                if input.scroll != 0 {
                    self.ortho_scale = zoom_length(self.ortho_scale, input.scroll, ORTHO_ZOOM_DIVISOR, MIN_ORTHO_SCALE);
                }
                CameraAction::Orthographic { pan: motion }
            },
            ProjectionMode::Perspective => {
                if input.orbit_just_pressed || input.orbit_just_released {
                    self.orbit_upside_down = input.up_z_nonpositive;
                }
                if input.orbit_pressed && motion {
                    CameraAction::Orbit { upside_down: self.orbit_upside_down }
                } else if input.pan_pressed && motion {
                    CameraAction::PanCenter
                } else if input.scroll != 0 {
                    self.orbit_radius = zoom_length(self.orbit_radius, input.scroll, ORBIT_ZOOM_DIVISOR, MIN_ORBIT_RADIUS);
                    CameraAction::Zoom
                } else {
                    CameraAction::Idle
                }
            },
        }
    }
}


impl Default for FlexibleProjection {
    fn default() -> (r: Self)
        ensures
            r@ == initial_state(),
    {
        FlexibleProjection::new()
    }
}

/// The pointer position after a tick: the last sample of the tick, or the
/// previous position when the tick has none. Earlier samples are dropped.
pub fn latest_sample<T: Copy>(previous: T, samples: &Vec<T>) -> (r: T)
    ensures
        r == (if samples@.len() == 0 { previous } else { samples@.last() }),
{
    if samples.len() == 0 {
        previous
    } else {
        samples[samples.len() - 1]
    }
}

/// Sum of a sequence of scroll amounts.
pub open spec fn scroll_sum(events: Seq<i32>) -> int
    decreases events.len(),
{
    if events.len() == 0 {
        0
    } else {
        scroll_sum(events.drop_last()) + events.last()
    }
}

/// The scroll of a tick: every event's amount added up, held within `i64`.
pub fn total_scroll(events: &Vec<i32>) -> (r: i64)
    ensures
        r == (if scroll_sum(events@) < i64::MIN {
            i64::MIN as int
        } else if scroll_sum(events@) > i64::MAX {
            i64::MAX as int
        } else {
            scroll_sum(events@)
        }),
{
    let mut sum: i128 = 0;
    let mut i: usize = 0;
    while i < events.len()
        invariant
            i <= events@.len(),
            sum == scroll_sum(events@.subrange(0, i as int)),
            -0x8000_0000 * i <= sum <= 0x7fff_ffff * i,
        decreases events@.len() - i,
    {
        proof {
            assert(events@.subrange(0, i + 1).drop_last() =~= events@.subrange(0, i as int));
        }
        sum = sum + events[i] as i128;
        i = i + 1;
    }
    proof {
        assert(events@.subrange(0, events@.len() as int) =~= events@);
    }
    if sum < i64::MIN as i128 {
        i64::MIN
    } else if sum > i64::MAX as i128 {
        i64::MAX
    } else {
        sum as i64
    }
}

/// A tick keeps both lengths at or above their floors.
pub proof fn lemma_tick_wf(s: ProjectionState, i: TickInput)
    requires
        s.wf(),
    ensures
        tick(s, i).0.wf(),
{
}

/// In perspective mode the orbit radius never drops below 0.05 world units,
/// whatever ticks run, with whatever scroll amounts and signs.
pub proof fn lemma_radius_stays_above_floor(s: ProjectionState, inputs: Seq<TickInput>)
    requires
        s.wf(),
    ensures
        run(s, inputs).orbit_radius >= MIN_ORBIT_RADIUS,
        run(s, inputs).wf(),
    decreases inputs.len(),
{
    if inputs.len() > 0 {
        lemma_tick_wf(s, inputs[0]);
        lemma_radius_stays_above_floor(tick(s, inputs[0]).0, inputs.drop_first());
    }
}

/// Choosing a projection mode makes the very next tick put the camera back
/// at its initial pose, with the chosen mode active, the switch consumed,
/// and no pan, orbit or zoom from that tick's input.
pub proof fn lemma_switch_resets_pose(s: ProjectionState, mode: ProjectionMode, i: TickInput)
    ensures
        tick(with_mode(s, mode), i).1 == CameraAction::ResetPose,
        tick(with_mode(s, mode), i).0 == (ProjectionState { mode: mode, mode_switched: false, ..s }),
{
}

} // verus!
