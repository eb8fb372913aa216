//! The camera: a pose, and a cache for what is derived from the pose.
//!
//! The arithmetic lives with the caller. The camera keeps the numbers as
//! binary32 bit patterns. It decides in which direction a step goes,
//! whether a turn may change the pitch, and when the view-projection matrix
//! has to be computed anew; the computing itself it leaves to the functions
//! that the caller hands in.

use vstd::prelude::*;
use crate::managed_buffer::HostData;

verus! {

/// A 4 by 4 matrix of binary32 bit patterns, column after column.
#[derive(Clone, Copy, Debug, PartialEq, Eq)]
pub struct Matrix4 {
    pub m: [u32; 16],
}

impl HostData for Matrix4 {
    open spec fn elements(&self) -> nat {
        16
    }

    open spec fn element_size() -> nat {
        4
    }

    fn len(&self) -> (n: usize) {
        16
    }

    fn t_size() -> (n: usize) {
        4
    }
}

/// Where the camera is, where it looks, and how it projects. All numbers
/// are binary32 bit patterns; `view` and `up` are unit vectors, and `pitch`
/// is the angle of `view` above the horizontal plane, in radians.
#[derive(Clone, Copy, Debug, PartialEq, Eq)]
pub struct CameraPose {
    pub position: [u32; 3],
    pub view: [u32; 3],
    pub up: [u32; 3],
    pub pitch: u32,
    pub aspect_ratio: u32,
    pub fovy: u32,
    pub z_near: u32,
    pub z_far: u32,
}

/// What a `Camera` stands for: the pose and the two cached values.
pub struct CameraState {
    pub pose: CameraPose,
    pub cached_matrix: Option<Matrix4>,
    pub cached_right: Option<[u32; 3]>,
}

impl CameraState {
    /// A camera with this pose and nothing cached.
    pub open spec fn fresh(pose: CameraPose) -> CameraState {
        CameraState { pose, cached_matrix: None, cached_right: None }
    }

    /// The state after the matrix `m` was computed and cached.
    pub open spec fn with_matrix(self, m: Matrix4) -> CameraState {
        CameraState { pose: self.pose, cached_matrix: Some(m), cached_right: self.cached_right }
    }

    /// What a call of `matrix` makes of the camera, and what it returns,
    /// where `computed` is the matrix that the caller's function answers
    /// with if it is asked: a cached matrix is returned as it is, and only
    /// without one the computed matrix is cached and returned.
    pub open spec fn matrix_call(self, computed: Matrix4) -> (CameraState, Matrix4) {
        match self.cached_matrix {
            Some(m) => (self, m),
            None => (self.with_matrix(computed), computed),
        }
    }

    /// The state after the right vector `r` was computed and cached.
    pub open spec fn with_right(self, r: [u32; 3]) -> CameraState {
        CameraState { pose: self.pose, cached_matrix: self.cached_matrix, cached_right: Some(r) }
    }
}

/// A step of the camera.
#[derive(Clone, Copy, Debug, PartialEq, Eq)]
pub enum CameraMove {
    Forward,
    Backward,
    Left,
    Right,
    Up,
    Down,
}

/// Whether `after` is the camera `before` after a step of length `mag`
/// along `direction`, ahead or back, with nothing cached.
pub open spec fn stepped<F: FnOnce([u32; 3], [u32; 3], u32, bool) -> [u32; 3]>(
    before: CameraState,
    after: CameraState,
    direction: [u32; 3],
    mag: u32,
    ahead: bool,
    shift: F,
) -> bool {
    &&& call_ensures(shift, (before.pose.position, direction, mag, ahead), after.pose.position)
    &&& after == CameraState::fresh(
        CameraPose { position: after.pose.position, ..before.pose },
    )
}

/// Whether `after` is the camera `before` after a step of length `mag` to
/// its right or to its left, with the vector to its right cached.
pub open spec fn stepped_aside<
    C: FnOnce([u32; 3], [u32; 3]) -> [u32; 3],
    F: FnOnce([u32; 3], [u32; 3], u32, bool) -> [u32; 3],
>(before: CameraState, after: CameraState, mag: u32, ahead: bool, cross: C, shift: F) -> bool {
    &&& after.cached_right is Some
    &&& call_ensures(cross, (before.pose.view, before.pose.up), after.cached_right->0)
    &&& call_ensures(
        shift,
        (before.pose.position, after.cached_right->0, mag, ahead),
        after.pose.position,
    )
    &&& after == CameraState::fresh(
        CameraPose { position: after.pose.position, ..before.pose },
    ).with_right(after.cached_right->0)
}

/// Whether `after` is the camera `before` after the step `step` of length
/// `mag`: forward and backward along the view direction, up and down along
/// the up vector, right and left along what `cross` makes of the two.
pub open spec fn moved<
    C: FnOnce([u32; 3], [u32; 3]) -> [u32; 3],
    F: FnOnce([u32; 3], [u32; 3], u32, bool) -> [u32; 3],
>(
    before: CameraState,
    after: CameraState,
    step: CameraMove,
    mag: u32,
    cross: C,
    shift: F,
) -> bool {
    match step {
        CameraMove::Forward => stepped(before, after, before.pose.view, mag, true, shift),
        CameraMove::Backward => stepped(before, after, before.pose.view, mag, false, shift),
        CameraMove::Up => stepped(before, after, before.pose.up, mag, true, shift),
        CameraMove::Down => stepped(before, after, before.pose.up, mag, false, shift),
        CameraMove::Right => stepped_aside(before, after, mag, true, cross, shift),
        CameraMove::Left => stepped_aside(before, after, mag, false, cross, shift),
    }
}

/// A camera that flies freely. Whatever changes its pose empties its cache.
pub struct Camera {
    pose: CameraPose,
    cached_matrix: Option<Matrix4>,
    cached_right: Option<[u32; 3]>,
}

impl View for Camera {
    type V = CameraState;

    closed spec fn view(&self) -> CameraState {
        CameraState {
            pose: self.pose,
            cached_matrix: self.cached_matrix,
            cached_right: self.cached_right,
        }
    }
}

impl Camera {
    /// Initializes a new `Camera`. Nothing is cached yet.
    pub fn new(pose: CameraPose) -> (camera: Camera)
        ensures
            camera@ == CameraState::fresh(pose),
    {
        Camera { pose, cached_matrix: None, cached_right: None }
    }

    /// The present pose.
    pub fn pose(&self) -> (pose: CameraPose)
        ensures
            pose == self@.pose,
    {
        self.pose
    }

    /// The view-projection matrix. It is taken from the cache if it is
    /// there; only otherwise `compute` is called on the pose, and its
    /// answer cached.
    pub fn matrix<F: FnOnce(CameraPose) -> Matrix4>(&mut self, compute: F) -> (m: Matrix4)
        requires
            old(self)@.cached_matrix is None ==> call_requires(compute, (old(self)@.pose,)),
        ensures
            (final(self)@, m) == old(self)@.matrix_call(m),
            old(self)@.cached_matrix is None ==> call_ensures(compute, (old(self)@.pose,), m),
    {
        match self.cached_matrix {
            Some(cached_matrix) => cached_matrix,
            None => {
                let m = compute(self.pose);
                self.cached_matrix = Some(m);
                m
            },
        }
    }

    /// The vector to the right of the camera. It is taken from the cache if
    /// it is there; only otherwise `cross` is called on the view and up
    /// vectors, and its answer cached.
    fn right<C: FnOnce([u32; 3], [u32; 3]) -> [u32; 3]>(&mut self, cross: C) -> (r: [u32; 3])
        requires
            old(self)@.cached_right is None ==> call_requires(
                cross,
                (old(self)@.pose.view, old(self)@.pose.up),
            ),
        ensures
            final(self)@ == old(self)@.with_right(r),
            old(self)@.cached_right is Some ==> old(self)@.cached_right == Some(r),
            old(self)@.cached_right is None ==> call_ensures(
                cross,
                (old(self)@.pose.view, old(self)@.pose.up),
                r,
            ),
    {
        match self.cached_right {
            Some(cached_right) => cached_right,
            None => {
                let r = cross(self.pose.view, self.pose.up);
                self.cached_right = Some(r);
                r
            },
        }
    }

    /// Invalidate the cache. The next time we get the matrix, it will be
    /// recomputed.
    fn invalidate_cache(&mut self)
        ensures
            final(self)@ == CameraState::fresh(old(self)@.pose),
    {
        self.cached_matrix = None;
        self.cached_right = None;
    }

    /// Sets the ratio of width to height of the projection.
    pub fn set_aspect_ratio(&mut self, aspect_ratio: u32)
        ensures
            final(self)@ == CameraState::fresh(
                CameraPose { aspect_ratio, ..old(self)@.pose },
            ),
    {
        self.invalidate_cache();
        self.pose.aspect_ratio = aspect_ratio;
    }

    /// Moves the camera along `direction`, ahead or back.
    fn step<F: FnOnce([u32; 3], [u32; 3], u32, bool) -> [u32; 3]>(
        &mut self,
        direction: [u32; 3],
        mag: u32,
        ahead: bool,
        shift: F,
    )
        requires
            call_requires(shift, (old(self)@.pose.position, direction, mag, ahead)),
        ensures
            call_ensures(
                shift,
                (old(self)@.pose.position, direction, mag, ahead),
                final(self)@.pose.position,
            ),
            final(self)@ == (CameraState {
                pose: CameraPose { position: final(self)@.pose.position, ..old(self)@.pose },
                ..old(self)@
            }),
    {
        self.pose.position = shift(self.pose.position, direction, mag, ahead);
    }

    /// Moves the camera by `mag` along its view direction. `shift` is given
    /// the position, a direction, a length and whether to go ahead along
    /// the direction or back, and answers with the position after the step.
    pub fn move_forward<F: FnOnce([u32; 3], [u32; 3], u32, bool) -> [u32; 3]>(
        &mut self,
        mag: u32,
        shift: F,
    )
        requires
            call_requires(shift, (old(self)@.pose.position, old(self)@.pose.view, mag, true)),
        ensures
            stepped(old(self)@, final(self)@, old(self)@.pose.view, mag, true, shift),
    {
        self.invalidate_cache();
        let view = self.pose.view;
        self.step(view, mag, true, shift);
    }

    /// Moves the camera by `mag` against its view direction.
    pub fn move_backward<F: FnOnce([u32; 3], [u32; 3], u32, bool) -> [u32; 3]>(
        &mut self,
        mag: u32,
        shift: F,
    )
        requires
            call_requires(shift, (old(self)@.pose.position, old(self)@.pose.view, mag, false)),
        ensures
            stepped(old(self)@, final(self)@, old(self)@.pose.view, mag, false, shift),
    {
        self.invalidate_cache();
        let view = self.pose.view;
        self.step(view, mag, false, shift);
    }

    /// Moves the camera by `mag` to its right. The vector to the right is
    /// what `cross` makes of the view and up vectors; it stays cached.
    pub fn move_right<
        C: FnOnce([u32; 3], [u32; 3]) -> [u32; 3],
        F: FnOnce([u32; 3], [u32; 3], u32, bool) -> [u32; 3],
    >(&mut self, mag: u32, cross: C, shift: F)
        requires
            call_requires(cross, (old(self)@.pose.view, old(self)@.pose.up)),
            forall|r: [u32; 3]|
                call_ensures(cross, (old(self)@.pose.view, old(self)@.pose.up), r)
                    ==> call_requires(shift, (old(self)@.pose.position, r, mag, true)),
        ensures
            stepped_aside(old(self)@, final(self)@, mag, true, cross, shift),
    {
        self.invalidate_cache();
        let r = self.right(cross);
        self.step(r, mag, true, shift);
    }

    /// Moves the camera by `mag` to its left. The vector to the right is
    /// what `cross` makes of the view and up vectors; it stays cached.
    pub fn move_left<
        C: FnOnce([u32; 3], [u32; 3]) -> [u32; 3],
        F: FnOnce([u32; 3], [u32; 3], u32, bool) -> [u32; 3],
    >(&mut self, mag: u32, cross: C, shift: F)
        requires
            call_requires(cross, (old(self)@.pose.view, old(self)@.pose.up)),
            forall|r: [u32; 3]|
                call_ensures(cross, (old(self)@.pose.view, old(self)@.pose.up), r)
                    ==> call_requires(shift, (old(self)@.pose.position, r, mag, false)),
        ensures
            stepped_aside(old(self)@, final(self)@, mag, false, cross, shift),
    {
        self.invalidate_cache();
        let r = self.right(cross);
        self.step(r, mag, false, shift);
    }

    /// Moves the camera by `mag` along its up vector.
    pub fn move_up<F: FnOnce([u32; 3], [u32; 3], u32, bool) -> [u32; 3]>(
        &mut self,
        mag: u32,
        shift: F,
    )
        requires
            call_requires(shift, (old(self)@.pose.position, old(self)@.pose.up, mag, true)),
        ensures
            stepped(old(self)@, final(self)@, old(self)@.pose.up, mag, true, shift),
    {
        self.invalidate_cache();
        let up = self.pose.up;
        self.step(up, mag, true, shift);
    }

    /// Moves the camera by `mag` against its up vector.
    pub fn move_down<F: FnOnce([u32; 3], [u32; 3], u32, bool) -> [u32; 3]>(
        &mut self,
        mag: u32,
        shift: F,
    )
        requires
            call_requires(shift, (old(self)@.pose.position, old(self)@.pose.up, mag, false)),
        ensures
            stepped(old(self)@, final(self)@, old(self)@.pose.up, mag, false, shift),
    {
        self.invalidate_cache();
        let up = self.pose.up;
        self.step(up, mag, false, shift);
    }

    /// Makes the step `step` of length `mag`.
    pub fn make_move<
        C: FnOnce([u32; 3], [u32; 3]) -> [u32; 3],
        F: FnOnce([u32; 3], [u32; 3], u32, bool) -> [u32; 3],
    >(&mut self, step: CameraMove, mag: u32, cross: C, shift: F)
        requires
            forall|view: [u32; 3], up: [u32; 3]| call_requires(cross, (view, up)),
            forall|position: [u32; 3], direction: [u32; 3], length: u32, ahead: bool|
                call_requires(shift, (position, direction, length, ahead)),
        ensures
            moved(old(self)@, final(self)@, step, mag, cross, shift),
    {
        match step {
            CameraMove::Forward => self.move_forward(mag, shift),
            CameraMove::Backward => self.move_backward(mag, shift),
            CameraMove::Left => self.move_left(mag, cross, shift),
            CameraMove::Right => self.move_right(mag, cross, shift),
            CameraMove::Up => self.move_up(mag, shift),
            CameraMove::Down => self.move_down(mag, shift),
        }
    }

    /// Turns the camera. `new_pitch` is the pitch that the turn asks for.
    /// If it lies beyond a quarter turn up or down, the camera keeps its
    /// pitch and only turns sideways. `turn` is told the pose and whether
    /// the camera may pitch, and answers with the new view direction. A
    /// pitch within a quarter turn up or down stays within it, unless the
    /// turn asks for a pitch that is no number.
    pub fn rotate_by_x_y<F: FnOnce(CameraPose, bool) -> [u32; 3]>(
        &mut self,
        new_pitch: u32,
        turn: F,
    )
        requires
            call_requires(turn, (old(self)@.pose, pitch_allowed(new_pitch))),
        ensures
            call_ensures(
                turn,
                (old(self)@.pose, pitch_allowed(new_pitch)),
                final(self)@.pose.view,
            ),
            final(self)@ == CameraState::fresh(
                CameraPose {
                    view: final(self)@.pose.view,
                    pitch: pitch_after(old(self)@.pose.pitch, new_pitch),
                    ..old(self)@.pose
                },
            ),
            within_quarter_turn(old(self)@.pose.pitch) && !is_nan(new_pitch)
                ==> within_quarter_turn(final(self)@.pose.pitch),
    {
        self.invalidate_cache();
        let pose = self.pose;
        // If our new pitch would exceed the pitch range, then we just
        // don't pitch the camera any more.
        let pitches = !(exceeds_half_pi(new_pitch) || exceeds_minus_half_pi(new_pitch));
        if pitches {
            self.pose.pitch = new_pitch;
        }
        self.pose.view = turn(pose, pitches);
    }
}

/// Bit pattern of the binary32 number nearest to a quarter turn, pi / 2.
pub const HALF_PI_BITS: u32 = 0x3fc9_0fdb;

/// Bit pattern of the binary32 number nearest to minus a quarter turn.
pub const MINUS_HALF_PI_BITS: u32 = 0xbfc9_0fdb;

/// Bit pattern of positive infinity. The patterns above it that have no
/// sign bit are no numbers.
pub const INFINITY_BITS: u32 = 0x7f80_0000;

/// Bit pattern of negative zero: the sign bit alone.
pub const MINUS_ZERO_BITS: u32 = 0x8000_0000;

/// Bit pattern of negative infinity. The patterns above it are no numbers.
pub const MINUS_INFINITY_BITS: u32 = 0xff80_0000;

/// Whether `bits` is the pattern of no number.
pub open spec fn is_nan(bits: u32) -> bool {
    INFINITY_BITS < bits < MINUS_ZERO_BITS || MINUS_INFINITY_BITS < bits
}

/// Whether the number with this pattern is greater than a quarter turn.
/// Among the patterns without a sign bit a greater number has the greater
/// pattern.
pub open spec fn above_half_pi(bits: u32) -> bool {
    HALF_PI_BITS < bits <= INFINITY_BITS
}

/// Whether the number with this pattern is less than minus a quarter turn.
/// Among the patterns with a sign bit a lesser number has the greater
/// pattern.
pub open spec fn below_minus_half_pi(bits: u32) -> bool {
    MINUS_HALF_PI_BITS < bits <= MINUS_INFINITY_BITS
}

/// Whether a turn may bring the camera to this pitch.
pub open spec fn pitch_allowed(new_pitch: u32) -> bool {
    !above_half_pi(new_pitch) && !below_minus_half_pi(new_pitch)
}

/// The pitch after a turn that asks for `new_pitch`.
pub open spec fn pitch_after(pitch: u32, new_pitch: u32) -> u32 {
    if pitch_allowed(new_pitch) {
        new_pitch
    } else {
        pitch
    }
}

/// Whether the number with this pattern lies between minus a quarter turn
/// and a quarter turn, both included.
pub open spec fn within_quarter_turn(bits: u32) -> bool {
    bits <= HALF_PI_BITS || MINUS_ZERO_BITS <= bits <= MINUS_HALF_PI_BITS
}

fn exceeds_half_pi(bits: u32) -> (r: bool)
    ensures
        r == above_half_pi(bits),
{
    HALF_PI_BITS < bits && bits <= INFINITY_BITS
}

fn exceeds_minus_half_pi(bits: u32) -> (r: bool)
    ensures
        r == below_minus_half_pi(bits),
{
    MINUS_HALF_PI_BITS < bits && bits <= MINUS_INFINITY_BITS
}

/// The pitch is clamped. A camera whose pitch lies within a quarter turn
/// up or down keeps such a pitch through every turn that asks for a
/// number. A turn that asks for more than a quarter turn, up or down,
/// leaves the pitch as it is.
pub proof fn lemma_pitch_clamp(pitch: u32, new_pitch: u32)
    requires
        within_quarter_turn(pitch),
        !is_nan(new_pitch),
    ensures
        within_quarter_turn(pitch_after(pitch, new_pitch)),
        above_half_pi(new_pitch) || below_minus_half_pi(new_pitch) ==> pitch_after(
            pitch,
            new_pitch,
        ) == pitch,
        within_quarter_turn(new_pitch) ==> pitch_after(pitch, new_pitch) == new_pitch,
{
}

/// The cache is correct. Every mutator leaves the camera without a cached
/// matrix, whether or not it keeps the vector to the right, so the next
/// call of `matrix` returns what is computed then. A second call of
/// `matrix`, with no mutator in between, returns the matrix of the first
/// call and leaves the camera as it is, whatever a computation would
/// answer: nothing is computed again.
pub proof fn lemma_camera_cache(
    state: CameraState,
    pose: CameraPose,
    r: [u32; 3],
    first: Matrix4,
    second: Matrix4,
)
    ensures
        CameraState::fresh(pose).matrix_call(first).1 == first,
        CameraState::fresh(pose).with_right(r).matrix_call(first).1 == first,
        state.matrix_call(first).0.cached_matrix == Some(state.matrix_call(first).1),
        state.matrix_call(first).0.pose == state.pose,
        state.matrix_call(first).0.matrix_call(second) == state.matrix_call(first),
{
}

} // verus!
