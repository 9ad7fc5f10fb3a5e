//! The triangle's rotation: three angular velocities that grow by a fixed
//! step each frame, and the turns about the x, y and z axes that each frame
//! multiplies onto the orientation, on the right and in that order.
use vstd::prelude::*;

verus! {

/// An axis of rotation.
#[derive(Clone, Copy, Debug, PartialEq, Eq, Structural)]
pub enum Axis {
    X,
    Y,
    Z,
}

/// A rotation by `milliradians / 1000` radians about `axis`.
#[derive(Clone, Copy, Debug, PartialEq, Eq, Structural)]
pub struct Turn {
    pub axis: Axis,
    pub milliradians: i64,
}

impl View for Turn {
    type V = (Axis, int);

    open spec fn view(&self) -> (Axis, int) {
        (self.axis, self.milliradians as int)
    }
}

/// What each velocity gains per frame, in milliradians per frame.
pub const STEP_X: i64 = 1;
pub const STEP_Y: i64 = -3;
pub const STEP_Z: i64 = -1;

/// The most frames a `Spin` advances through: every velocity then still fits
/// in an `i64`.
pub const MAX_FRAMES: u64 = 1_000_000_000_000_000;

pub open spec fn step(axis: Axis) -> int {
    match axis {
        Axis::X => STEP_X as int,
        Axis::Y => STEP_Y as int,
        Axis::Z => STEP_Z as int,
    }
}

/// The velocity about `axis` during frame `n` (frames count from 1):
/// `n` steps, taken before the frame uses it.
pub open spec fn velocity(axis: Axis, n: nat) -> int {
    n * step(axis)
}

/// The axis of the `k`-th turn of a frame.
pub open spec fn axis_at(k: int) -> Axis {
    if k == 0 {
        Axis::X
    } else if k == 1 {
        Axis::Y
    } else {
        Axis::Z
    }
}

/// The turns of frame `n`: about x, then y, then z, by that frame's velocities.
pub open spec fn frame_turns(n: nat) -> Seq<(Axis, int)> {
    seq![
        (Axis::X, velocity(Axis::X, n)),
        (Axis::Y, velocity(Axis::Y, n)),
        (Axis::Z, velocity(Axis::Z, n)),
    ]
}

/// Every factor multiplied onto the identity in the first `n` frames, left to right.
pub open spec fn rotation_word(n: nat) -> Seq<(Axis, int)>
    decreases n,
{
    if n == 0 {
        Seq::empty()
    } else {
        rotation_word((n - 1) as nat) + frame_turns(n)
    }
}

pub open spec fn turns_view(ts: Seq<Turn>) -> Seq<(Axis, int)> {
    ts.map_values(|t: Turn| t@)
}

/// The orientation after `n` frames is the identity multiplied on the right by
/// `3 * n` single-axis turns, determined by `n` alone: factor `3 * i + k` turns
/// about x, y, z for `k` = 0, 1, 2, by the velocity of frame `i + 1`.
pub proof fn lemma_rotation_word(n: nat)
    ensures
        rotation_word(n).len() == 3 * n,
        forall|i: int, k: int|
            0 <= i < n && 0 <= k < 3 ==> #[trigger] rotation_word(n)[3 * i + k] == (
                axis_at(k),
                velocity(axis_at(k), (i + 1) as nat),
            ),
    decreases n,
{
    if n > 0 {
        let m = (n - 1) as nat;
        lemma_rotation_word(m);
        assert forall|i: int, k: int| 0 <= i < n && 0 <= k < 3 implies #[trigger] rotation_word(
            n,
        )[3 * i + k] == (axis_at(k), velocity(axis_at(k), (i + 1) as nat)) by {
            if i < m {
                assert(rotation_word(n)[3 * i + k] == rotation_word(m)[3 * i + k]);
            } else {
                assert(rotation_word(n)[3 * i + k] == frame_turns(n)[k]);
            }
        }
    }
}

/// The three angular velocities, after `frame` frames.
pub struct Spin {
    frame: u64,
    vel_x: i64,
    vel_y: i64,
    vel_z: i64,
}

impl Spin {
    /// Frames advanced through so far.
    pub closed spec fn frames(&self) -> nat {
        self.frame as nat
    }

    pub closed spec fn wf(&self) -> bool {
        &&& self.frame <= MAX_FRAMES
        &&& self.vel_x == velocity(Axis::X, self.frame as nat)
        &&& self.vel_y == velocity(Axis::Y, self.frame as nat)
        &&& self.vel_z == velocity(Axis::Z, self.frame as nat)
    }

    /// At rest, before the first frame.
    pub fn new() -> (r: Spin)
        ensures
            r.wf(),
            r.frames() == 0,
    {
        Spin { frame: 0, vel_x: 0, vel_y: 0, vel_z: 0 }
    }

    pub fn frame(&self) -> (r: u64)
        ensures
            r == self.frames(),
    {
        self.frame
    }

    /// The velocity about `axis`, in milliradians per frame.
    pub fn velocity(&self, axis: Axis) -> (r: i64)
        requires
            self.wf(),
        ensures
            r == velocity(axis, self.frames()),
    {
        match axis {
            Axis::X => self.vel_x,
            Axis::Y => self.vel_y,
            Axis::Z => self.vel_z,
        }
    }

    /// Starts the next frame: each velocity gains its step, and the frame's
    /// turns are returned in the order they are applied.
    pub fn advance(&mut self) -> (r: Vec<Turn>)
        requires
            old(self).wf(),
            old(self).frames() < MAX_FRAMES,
        ensures
            final(self).wf(),
            final(self).frames() == old(self).frames() + 1,
            turns_view(r@) == frame_turns(final(self).frames()),
    {
        proof {
            let n = self.frame as int;
            assert((n + 1) * 1 == n * 1 + 1 && (n + 1) * -3 == n * -3 - 3 && (n + 1) * -1 == n
                * -1 - 1) by (nonlinear_arith);
        }
        self.frame = self.frame + 1;
        self.vel_x = self.vel_x + STEP_X;
        self.vel_y = self.vel_y + STEP_Y;
        self.vel_z = self.vel_z + STEP_Z;
        let r = vec![
            Turn { axis: Axis::X, milliradians: self.vel_x },
            Turn { axis: Axis::Y, milliradians: self.vel_y },
            Turn { axis: Axis::Z, milliradians: self.vel_z },
        ];
        assert(turns_view(r@) =~= frame_turns(self.frame as nat));
        r
    }
}

} // verus!
