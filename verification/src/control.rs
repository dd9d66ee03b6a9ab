//! The shot controller: one shot at a time goes from aiming through flight to
//! its resolution, and back.

use vstd::prelude::*;
use crate::aim::{Impulse, StoredVelocity};
use crate::objects::{Cup, RespawnEvent, Team};
use crate::units::Position;

verus! {

/// Length of the table along the axis between the two teams.
pub const TABLE_Z: i64 = 8_000_000;

/// Height above the table's centre at which a ball is launched.
pub const LAUNCH_HEIGHT: i64 = 1_000_000;

/// How long after the launch a shot is resolved, in nanoseconds.
pub const RESOLVE_DELAY: u64 = 4_000_000_000;

/// The phase of the one shot that can exist at a time.
#[derive(Clone, Copy, PartialEq, Eq, Structural, Debug)]
pub enum ShotState {
    /// No shot; waiting for the table to be laid out.
    Idle,
    /// The active team is aiming.
    Armed,
    /// The ball has been launched and the delay has not begun.
    InFlight,
    /// The delay before the resolution is running.
    Resolving,
}

impl ShotState {
    /// The phase that follows `self` in the cycle
    /// Idle, Armed, InFlight, Resolving, Idle.
    pub open spec fn next(self) -> ShotState {
        match self {
            ShotState::Idle => ShotState::Armed,
            ShotState::Armed => ShotState::InFlight,
            ShotState::InFlight => ShotState::Resolving,
            ShotState::Resolving => ShotState::Idle,
        }
    }
}

/// The state of the shot controller. The aiming controls are active exactly
/// while the shot is `Armed`.
#[derive(Clone, Copy, PartialEq, Eq, Structural, Debug)]
pub struct ControlActive {
    /// The phase of the shot.
    pub state: ShotState,
    /// Nanoseconds of the delay that have passed; it counts while the shot is
    /// `Resolving`.
    pub elapsed: u64,
}

impl Default for ControlActive {
    fn default() -> (control: ControlActive)
        ensures
            control == (ControlActive { state: ShotState::Idle, elapsed: 0 }),
    {
        ControlActive { state: ShotState::Idle, elapsed: 0 }
    }
}

impl ControlActive {
    /// Whether the aiming controls are active.
    pub open spec fn active(self) -> bool {
        self.state == ShotState::Armed
    }

    /// Whether the aiming controls are active.
    #[verifier::when_used_as_spec(active)]
    pub fn is_active(self) -> (active: bool)
        ensures
            active == self.active(),
    {
        self.state == ShotState::Armed
    }

    /// The controller once `respawns` respawn signals have reached it: a
    /// signal arms an idle controller and is ignored in every other phase.
    pub open spec fn armed_by(self, respawns: nat) -> ControlActive {
        if respawns > 0 && self.state == ShotState::Idle {
            ControlActive { state: ShotState::Armed, elapsed: self.elapsed }
        } else {
            self
        }
    }

    /// The controller after the fire action: an armed controller lets the ball
    /// go, any other ignores the action.
    pub open spec fn fired(self) -> ControlActive {
        if self.state == ShotState::Armed {
            ControlActive { state: ShotState::InFlight, elapsed: self.elapsed }
        } else {
            self
        }
    }

    /// The controller once the delay has been started: a ball in flight
    /// starts it from zero, in every other phase nothing changes.
    pub open spec fn delay_started(self) -> ControlActive {
        if self.state == ShotState::InFlight {
            ControlActive { state: ShotState::Resolving, elapsed: 0 }
        } else {
            self
        }
    }

    /// Whether `delta` more nanoseconds bring a running delay to its end.
    pub open spec fn expires_within(self, delta: u64) -> bool {
        self.state == ShotState::Resolving && self.elapsed + delta >= RESOLVE_DELAY
    }

    /// The controller after `delta` nanoseconds: a running delay either ends,
    /// which leaves the controller idle, or has `delta` more behind it; in
    /// every other phase nothing changes.
    pub open spec fn delayed_by(self, delta: u64) -> ControlActive {
        if self.state != ShotState::Resolving {
            self
        } else if self.elapsed + delta >= RESOLVE_DELAY {
            ControlActive { state: ShotState::Idle, elapsed: 0 }
        } else {
            ControlActive { state: ShotState::Resolving, elapsed: (self.elapsed + delta) as u64 }
        }
    }
}

/// Where the ball of `team` is launched from: above the middle of the team's
/// own end of the table.
pub open spec fn launch_position(team: Team) -> Position {
    Position { x: 0, y: LAUNCH_HEIGHT, z: team.mirror(TABLE_Z / 2) as i64 }
}

/// Where the ball of `team` is launched from.
pub fn ball_pos(team: Team) -> (position: Position)
    ensures
        position == launch_position(team),
{
    Position { x: 0, y: LAUNCH_HEIGHT, z: TABLE_Z / 2 * team.factor() }
}

/// Arms the controller when the table has been laid out again: with at least
/// one respawn signal an idle controller becomes armed. Signals that arrive in
/// any other phase are ignored.
pub fn control_ball(respawns: usize, active: &mut ControlActive)
    ensures
        *final(active) == old(active).armed_by(respawns as nat),
{
    if respawns == 0 {
        return;
    }
    if active.state == ShotState::Idle {
        active.state = ShotState::Armed;
    }
}

/// A ball to launch: where it starts and what sets it off.
#[derive(Clone, Copy, PartialEq, Eq, Structural, Debug)]
pub struct Shot {
    pub position: Position,
    pub impulse: Impulse,
}

/// One frame of the aiming controls of `team`. `edited` is the aim as the
/// controls show it after this frame's input, and `fire` says whether the
/// fire action was taken.
///
/// While the controller is not armed nothing happens. While it is armed the
/// edited aim, clamped, becomes the aim of `team` in `local_stored` and the
/// aim in `stored`; with `fire` the controller lets the ball go, and the
/// answer is the ball to launch with that aim.
pub fn ui(
    active: &mut ControlActive,
    stored: &mut StoredVelocity,
    local_stored: &mut [StoredVelocity; 2],
    team: Team,
    edited: StoredVelocity,
    fire: bool,
) -> (shot: Option<Shot>)
    ensures
        !old(active).active() ==> {
            &&& *final(active) == *old(active)
            &&& *final(stored) == *old(stored)
            &&& *final(local_stored) == *old(local_stored)
            &&& shot is None
        },
        old(active).active() ==> {
            &&& final(local_stored)@ == old(local_stored)@.update(
                team.index() as int,
                edited.clamped(),
            )
            &&& *final(stored) == edited.clamped()
        },
        old(active).active() && !fire ==> *final(active) == *old(active) && shot is None,
        old(active).active() && fire ==> {
            &&& *final(active) == old(active).fired()
            &&& shot == Some(
                Shot { position: launch_position(team), impulse: edited.clamped().launch(team) },
            )
        },
{
    if !active.is_active() {
        return None;
    }
    let aim = edited.clamp();
    local_stored[team.index()] = aim;
    *stored = aim;
    if !fire {
        return None;
    }
    active.state = ShotState::InFlight;
    Some(Shot { position: ball_pos(team), impulse: stored.impulse(team) })
}

/// Moves the delay on by `delta` nanoseconds. A ball in flight first starts
/// the delay. The answer is `true` in the one call in which the delay ends:
/// the shot is then to be resolved, and the controller is idle again.
pub fn after_fire(active: &mut ControlActive, delta: u64) -> (expired: bool)
    ensures
        *final(active) == old(active).delay_started().delayed_by(delta),
        expired == old(active).delay_started().expires_within(delta),
{
    if active.state == ShotState::InFlight {
        active.state = ShotState::Resolving;
        active.elapsed = 0;
    }
    if active.state != ShotState::Resolving {
        return false;
    }
    if delta >= RESOLVE_DELAY || active.elapsed >= RESOLVE_DELAY - delta {
        active.state = ShotState::Idle;
        active.elapsed = 0;
        true
    } else {
        active.elapsed = active.elapsed + delta;
        false
    }
}

/// What the probe at the ball's resting place says of the shot: the cup whose
/// mouth it found is hit, and with no cup found the shot is missed.
pub open spec fn outcome_of(found: Option<Cup>) -> RespawnEvent {
    match found {
        Some(cup) => RespawnEvent::HitCup(cup),
        None => RespawnEvent::Missed,
    }
}

/// Classifies a shot by what the probe at the ball's resting place found.
pub fn shot_outcome(found: Option<Cup>) -> (event: RespawnEvent)
    ensures
        event == outcome_of(found),
{
    match found {
        Some(cup) => RespawnEvent::HitCup(cup),
        None => RespawnEvent::Missed,
    }
}

/// The phases are passed in one order only, Idle, Armed, InFlight, Resolving
/// and Idle again: every step of the controller leaves the phase as it is or
/// moves it to the next one, and each phase is left by one step only. A
/// respawn signal leaves `Idle`, the fire action leaves `Armed`, the start of
/// the delay leaves `InFlight` and the end of the delay leaves `Resolving`.
/// A delay that has ended does not end again until another ball is launched.
pub proof fn lemma_shot_cycle(control: ControlActive, respawns: nat, delta: u64, later: u64)
    ensures
        control.armed_by(respawns).state == (if control.state == ShotState::Idle && respawns > 0 {
            control.state.next()
        } else {
            control.state
        }),
        control.fired().state == (if control.state == ShotState::Armed {
            control.state.next()
        } else {
            control.state
        }),
        control.delay_started().state == (if control.state == ShotState::InFlight {
            control.state.next()
        } else {
            control.state
        }),
        control.delayed_by(delta).state == (if control.expires_within(delta) {
            control.state.next()
        } else {
            control.state
        }),
        control.expires_within(delta) ==> control.state == ShotState::Resolving,
        control.expires_within(delta) ==> !control.delayed_by(delta).delay_started().expires_within(
            later,
        ),
        control.state.next() != control.state,
        control.state.next().next() != control.state,
        control.state.next().next().next() != control.state,
        control.state.next().next().next().next() == control.state,
{
}

} // verus!
