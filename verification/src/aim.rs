//! The aim of a team: two angles and a power, kept within their ranges, and
//! the impulse that a ball gets from them.

use vstd::prelude::*;
use crate::objects::Team;

verus! {

/// Largest deflection about the horizontal axis: a quarter turn, in
/// thousandths of a degree. The smallest is zero.
pub const X_ROT_MAX: i32 = 90_000;

/// Largest deflection about the vertical axis to either side: a sixteenth of
/// a turn, in thousandths of a degree.
pub const Y_ROT_MAX: i32 = 22_500;

/// Smallest power, in thousandths.
pub const POWER_MIN: i32 = 2_000;

/// Largest power, in thousandths.
pub const POWER_MAX: i32 = 10_000;

/// Millionths of impulse that one thousandth of power gives: a power of one
/// launches with an impulse of 0.005.
pub const LAUNCH_SCALE: i64 = 5;

/// `value` if it lies between `low` and `high`, else the nearer of the two.
pub open spec fn clamp_to(value: int, low: int, high: int) -> int {
    if value < low {
        low
    } else if value > high {
        high
    } else {
        value
    }
}

/// The aim of one team: angles in thousandths of a degree, power in
/// thousandths.
#[derive(Clone, Copy, PartialEq, Eq, Structural, Debug)]
pub struct StoredVelocity {
    /// Deflection about the horizontal axis across the table.
    pub x_rot: i32,
    /// Deflection about the vertical axis.
    pub y_rot: i32,
    /// How hard the ball is thrown.
    pub power: i32,
}

/// What launches a ball: a unit vector along the table, turned by two angles,
/// and the magnitude of the impulse along the turned vector.
#[derive(Clone, Copy, PartialEq, Eq, Structural, Debug)]
pub struct Impulse {
    /// Turn about the X axis, in thousandths of a degree; it is applied
    /// after `yaw`.
    pub pitch: i64,
    /// Turn about the Y axis, in thousandths of a degree.
    pub yaw: i64,
    /// The Z component of the unit vector that is turned, `1` or `-1`; its
    /// other components are zero.
    pub heading: i64,
    /// Magnitude of the impulse, in millionths.
    pub strength: i64,
}

impl Default for StoredVelocity {
    fn default() -> (aim: StoredVelocity)
        ensures
            aim == (StoredVelocity { x_rot: 48_600, y_rot: 0, power: 4_700 }),
    {
        StoredVelocity { x_rot: 48_600, y_rot: 0, power: 4_700 }
    }
}

impl StoredVelocity {
    /// Whether both angles and the power lie within their ranges.
    pub open spec fn in_bounds(self) -> bool {
        &&& 0 <= self.x_rot <= X_ROT_MAX
        &&& -Y_ROT_MAX <= self.y_rot <= Y_ROT_MAX
        &&& POWER_MIN <= self.power <= POWER_MAX
    }

    /// The aim with each part brought into its range.
    pub open spec fn clamped(self) -> StoredVelocity {
        StoredVelocity {
            x_rot: clamp_to(self.x_rot as int, 0, X_ROT_MAX as int) as i32,
            y_rot: clamp_to(self.y_rot as int, -Y_ROT_MAX, Y_ROT_MAX as int) as i32,
            power: clamp_to(self.power as int, POWER_MIN as int, POWER_MAX as int) as i32,
        }
    }

    /// The impulse that a ball of `team` gets from this aim. The ball leaves
    /// its own end towards the other, so the vector that is turned and the
    /// pitch are mirrored for `Right`; the strength is the power times
    /// `LAUNCH_SCALE`.
    pub open spec fn launch(self, team: Team) -> Impulse {
        Impulse {
            pitch: team.mirror(self.x_rot as int) as i64,
            yaw: self.y_rot as i64,
            heading: team.mirror(-1) as i64,
            strength: (self.power * LAUNCH_SCALE) as i64,
        }
    }

    /// Brings each part of the aim into its range.
    pub fn clamp(self) -> (aim: StoredVelocity)
        ensures
            aim == self.clamped(),
            aim.in_bounds(),
    {
        let x_rot: i32 = if self.x_rot < 0 {
            0
        } else if self.x_rot > X_ROT_MAX {
            X_ROT_MAX
        } else {
            self.x_rot
        };
        let y_rot: i32 = if self.y_rot < -Y_ROT_MAX {
            -Y_ROT_MAX
        } else if self.y_rot > Y_ROT_MAX {
            Y_ROT_MAX
        } else {
            self.y_rot
        };
        let power: i32 = if self.power < POWER_MIN {
            POWER_MIN
        } else if self.power > POWER_MAX {
            POWER_MAX
        } else {
            self.power
        };
        StoredVelocity { x_rot, y_rot, power }
    }

    /// The impulse that a ball of `team` gets from this aim.
    pub fn impulse(&self, team: Team) -> (impulse: Impulse)
        ensures
            impulse == self.launch(team),
    {
        let x_rot: i64 = self.x_rot as i64;
        let (pitch, heading): (i64, i64) = match team {
            Team::Left => (x_rot, -1),
            Team::Right => (-x_rot, 1),
        };
        Impulse { pitch, yaw: self.y_rot as i64, heading, strength: self.power as i64 * LAUNCH_SCALE }
    }
}

/// Clamping an aim leaves it within its ranges, changes nothing of an aim
/// that is within them, and therefore does nothing when done a second time.
pub proof fn lemma_clamp_idempotent(aim: StoredVelocity)
    ensures
        aim.clamped().in_bounds(),
        aim.in_bounds() ==> aim.clamped() == aim,
        aim.clamped().clamped() == aim.clamped(),
{
}

/// The strength of an impulse is linear in the power: it is `LAUNCH_SCALE`
/// times the power, so the strengths of two powers add up to the strength of
/// their sum, and `factor` times the power gives `factor` times the strength.
/// The turned vector and its two angles do not depend on the power.
pub proof fn lemma_impulse_linear(aim: StoredVelocity, other: StoredVelocity, team: Team, factor: int)
    requires
        aim.x_rot == other.x_rot,
        aim.y_rot == other.y_rot,
    ensures
        aim.launch(team).strength == LAUNCH_SCALE * aim.power,
        aim.launch(team).strength + other.launch(team).strength == LAUNCH_SCALE * (aim.power
            + other.power),
        other.power == factor * aim.power ==> other.launch(team).strength == factor * aim.launch(
            team,
        ).strength,
        aim.launch(team).pitch == other.launch(team).pitch,
        aim.launch(team).yaw == other.launch(team).yaw,
        aim.launch(team).heading == other.launch(team).heading,
{
    assert(other.power == factor * aim.power ==> LAUNCH_SCALE * other.power == factor * (
    LAUNCH_SCALE * aim.power)) by (nonlinear_arith);
}

} // verus!
