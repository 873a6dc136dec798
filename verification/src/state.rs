//! The render state: what a frame is drawn from.
//!
//! Time is counted in whole nanoseconds and angles in nanoradians, so that
//! the clock never drifts and every step is exact. The shading program gets
//! the time in seconds; turning the count into a float is the caller's last
//! step before it fills the uniform block.

use vstd::prelude::*;

verus! {

/// Number of shading variants; the style ids are `0..STYLE_COUNT`.
pub const STYLE_COUNT: u32 = 5;

/// Nanoseconds in one second, and nanoradians in one radian.
pub const NANOS_PER_UNIT: u64 = 1_000_000_000;

/// Width and height of a surface, in pixels.
#[derive(Clone, Copy, Debug, PartialEq, Eq, Structural)]
pub struct SurfaceSize {
    pub width: u32,
    pub height: u32,
}

impl SurfaceSize {
    /// A surface of this size cannot be configured: one of its sides is zero.
    pub open spec fn is_empty(&self) -> bool {
        self.width == 0 || self.height == 0
    }
}

/// The state that update, input and resize work on, and that a frame is
/// rendered from.
#[derive(Clone, Copy, Debug, PartialEq, Eq, Structural)]
pub struct RenderState {
    /// Elapsed time in nanoseconds. Only `update` changes it, and never
    /// downwards.
    pub time: u64,
    /// The shading variant, below `STYLE_COUNT`. Only key input changes it.
    pub style_id: u32,
    /// Whether the secondary body is drawn. Only key input changes it.
    pub show_secondary: bool,
    /// The angle of an orbiting camera, in nanoradians. It follows the time at
    /// 0.3 rad/s and is kept for a camera that orbits; the view of this
    /// renderer does not read it and stays where it is.
    pub camera_angle: u64,
    /// Width and height of the surface. Only resizing changes it.
    pub surface_size: SurfaceSize,
}

/// The time after a step of `dt` nanoseconds: a negative step counts as none,
/// and the count stops at the largest value it can hold.
pub open spec fn advanced_time(time: u64, dt: i64) -> u64 {
    if dt <= 0 {
        time
    } else if time + dt > u64::MAX {
        u64::MAX
    } else {
        (time + dt) as u64
    }
}

/// The model's rotation about the vertical axis at a time: 0.5 rad/s.
pub open spec fn rotation_angle_at(time: u64) -> u64 {
    time / 2
}

/// The camera angle at a time: 0.3 rad/s.
pub open spec fn camera_angle_at(time: u64) -> u64 {
    ((time * 3) / 10) as u64
}

impl RenderState {
    /// The style is one of the variants and the camera angle is the one of
    /// the time.
    pub open spec fn wf(&self) -> bool {
        &&& self.style_id < STYLE_COUNT
        &&& self.camera_angle == camera_angle_at(self.time)
    }

    /// The state after `update(dt)`.
    pub open spec fn after_update(self, dt: i64) -> RenderState {
        RenderState {
            time: advanced_time(self.time, dt),
            camera_angle: camera_angle_at(advanced_time(self.time, dt)),
            ..self
        }
    }

    /// The state every run starts from: time zero, style 0, the secondary
    /// body hidden.
    pub fn new(width: u32, height: u32) -> (state: RenderState)
        ensures
            state == (RenderState {
                time: 0,
                style_id: 0,
                show_secondary: false,
                camera_angle: 0,
                surface_size: SurfaceSize { width, height },
            }),
            state.wf(),
    {
        RenderState {
            time: 0,
            style_id: 0,
            show_secondary: false,
            camera_angle: 0,
            surface_size: SurfaceSize { width, height },
        }
    }

    /// Advances the time by `dt` nanoseconds and lets the camera angle follow.
    /// A negative `dt` (a clock that went backwards) is taken as zero, so the
    /// time never decreases.
    pub fn update(&mut self, dt: i64)
        ensures
            *final(self) == old(self).after_update(dt),
            final(self).time >= old(self).time,
            dt <= 0 ==> final(self).time == old(self).time,
            old(self).style_id < STYLE_COUNT ==> final(self).wf(),
    {
        if dt > 0 {
            let step: u64 = dt as u64;
            if step > u64::MAX - self.time {
                self.time = u64::MAX;
            } else {
                self.time = self.time + step;
            }
        }
        self.camera_angle = ((self.time as u128 * 3) / 10) as u64;
    }

    /// The angle by which the model is turned about the vertical axis, in
    /// nanoradians: the time multiplied by 0.5 rad/s.
    pub fn rotation_angle(&self) -> (angle: u64)
        ensures
            angle == rotation_angle_at(self.time),
    {
        self.time / 2
    }
}

/// Two steps forward are one step of their sum, as long as the clock has room.
pub proof fn lemma_update_adds_up(state: RenderState, a: i64, b: i64)
    requires
        0 <= a,
        0 <= b,
        state.time + a + b <= u64::MAX,
        a + b <= i64::MAX,
    ensures
        state.after_update(a).after_update(b) == state.after_update((a + b) as i64),
        state.after_update(a).after_update(b).time == state.time + a + b,
{
}

/// A step backwards is no step.
pub proof fn lemma_negative_step_is_none(state: RenderState, dt: i64)
    requires
        dt < 0,
    ensures
        state.after_update(dt) == state.after_update(0),
        state.after_update(dt).time == state.time,
        state.wf() ==> state.after_update(dt) == state,
{
}

} // verus!
