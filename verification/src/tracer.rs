//! The preview of a shot: markers along the path that the ball would take if
//! it met nothing on its way.

use vstd::prelude::*;
use bevy::ecs::entity::Entity;
use crate::control::{ball_pos, launch_position, ControlActive};
use crate::objects::Team;
use crate::units::{Position, Vec3};

verus! {

/// `bevy::ecs::entity::Entity`, the engine's name for one thing in the scene.
/// Nothing is known of what is inside it: a marker's name is only handed on.
#[verifier::external_type_specification]
#[verifier::external_body]
pub struct ExEntity(Entity);

/// Markers that a preview has at most.
pub const MAX_TRACERS: usize = 20;

/// Physics steps between one marker and the next.
pub const PER_STEP: usize = 2;

/// What an impulse is multiplied by to give the distance that the ball
/// covers in the first physics step. The speed of the launch is reckoned as
/// the impulse divided by the length of a step and multiplied by `GAIN`, so
/// the distance covered in a step at that speed is `GAIN` times the impulse,
/// whatever the length of the step.
pub const GAIN: i64 = 4;

/// Nanoseconds in a second.
pub const NANOS: u128 = 1_000_000_000;

/// The markers of the preview, in the order in which they lie along the path.
pub struct TracerEntities {
    entities: Vec<Entity>,
}

impl View for TracerEntities {
    type V = Seq<Entity>;

    closed spec fn view(&self) -> Seq<Entity> {
        self.entities@
    }
}

impl TracerEntities {
    #[verifier::type_invariant]
    spec fn few(&self) -> bool {
        self.entities.len() <= MAX_TRACERS
    }

    /// The markers `entities`, in their order, unless they are more than
    /// `MAX_TRACERS`.
    pub fn new(entities: Vec<Entity>) -> (tracers: Option<TracerEntities>)
        ensures
            tracers is Some <==> entities.len() <= MAX_TRACERS,
            tracers matches Some(tracers) ==> tracers@ == entities@,
    {
        if entities.len() <= MAX_TRACERS {
            Some(TracerEntities { entities })
        } else {
            None
        }
    }

    /// The number of markers.
    pub fn len(&self) -> (len: usize)
        ensures
            len == self@.len(),
            len <= MAX_TRACERS,
    {
        proof {
            use_type_invariant(self);
        }
        self.entities.len()
    }

    /// The marker at `index`, counted from the launch position.
    pub fn get(&self, index: usize) -> (entity: Option<Entity>)
        ensures
            entity == (if index < self@.len() {
                Some(self@[index as int])
            } else {
                None
            }),
    {
        if index < self.entities.len() {
            Some(self.entities[index])
        } else {
            None
        }
    }
}

/// How the physics engine chooses the length of a step, each length in
/// nanoseconds.
#[derive(Clone, Copy, PartialEq, Eq, Structural, Debug)]
pub enum TimestepMode {
    /// Every step has the length `dt`.
    Fixed { dt: u32 },
    /// A step is as long as the frame, and `max_dt` at most.
    Variable { max_dt: u32 },
    /// Every step has the length `dt`, and the frames between are
    /// interpolated.
    Interpolated { dt: u32 },
}

impl TimestepMode {
    /// The length of a step that the preview reckons with, in nanoseconds.
    pub open spec fn step(self) -> u32 {
        match self {
            TimestepMode::Fixed { dt } => dt,
            TimestepMode::Variable { max_dt } => max_dt,
            TimestepMode::Interpolated { dt } => dt,
        }
    }

    /// The length of a step that the preview reckons with, in nanoseconds.
    pub fn dt(self) -> (dt: u32)
        ensures
            dt == self.step(),
    {
        match self {
            TimestepMode::Fixed { dt } => dt,
            TimestepMode::Variable { max_dt } => max_dt,
            TimestepMode::Interpolated { dt } => dt,
        }
    }
}

/// What gravity adds in each step to the distance that a step covers:
/// `gravity`, in millionths per second squared, times the square of the step's
/// length `dt`, in nanoseconds, rounded towards zero to whole millionths.
pub open spec fn gravity_step(gravity: int, dt: int) -> int {
    if gravity >= 0 {
        gravity * dt * dt / (NANOS * NANOS) as int
    } else {
        -((-gravity) * dt * dt / (NANOS * NANOS) as int)
    }
}

/// The distance covered in step number `steps`, counted from one, of a body
/// that would cover `first` in a step before gravity acts and gains `gain` in
/// every step.
pub open spec fn euler_velocity(first: int, gain: int, steps: nat) -> int
    decreases steps,
{
    if steps == 0 {
        first
    } else {
        euler_velocity(first, gain, (steps - 1) as nat) + gain
    }
}

/// The coordinate after `steps` steps of a body that starts at `start`: in
/// every step the distance per step first gains `gain`, and the coordinate
/// then moves on by that distance.
pub open spec fn euler_position(start: int, first: int, gain: int, steps: nat) -> int
    decreases steps,
{
    if steps == 0 {
        start
    } else {
        euler_position(start, first, gain, (steps - 1) as nat) + euler_velocity(first, gain, steps)
    }
}

/// One marker of the preview and where it is to be put.
#[derive(Clone, Copy, PartialEq, Eq, Debug)]
pub struct TracerPlacement {
    pub entity: Entity,
    pub position: Position,
}

/// Where marker number `marker`, counted from zero, lies: `PER_STEP` physics
/// steps after the marker before it, the first one as many after the launch
/// position of `team`. In the first step the ball would cover `GAIN` times
/// `impulse`, and every step adds what `gravity` gives in a step of `dt`
/// nanoseconds.
pub open spec fn marker_position(team: Team, impulse: Vec3, gravity: Vec3, dt: u32, marker: nat) -> Position {
    let start = launch_position(team);
    let steps = PER_STEP as nat * (marker + 1);
    Position {
        x: euler_position(
            start.x as int,
            GAIN * impulse.x,
            gravity_step(gravity.x as int, dt as int),
            steps,
        ) as i64,
        y: euler_position(
            start.y as int,
            GAIN * impulse.y,
            gravity_step(gravity.y as int, dt as int),
            steps,
        ) as i64,
        z: euler_position(
            start.z as int,
            GAIN * impulse.z,
            gravity_step(gravity.z as int, dt as int),
            steps,
        ) as i64,
    }
}

/// Most steps that a preview takes.
const STEPS_MAX: usize = 40;

/// Largest size of what gravity adds in a step.
const GAIN_MAX: i64 = 40_000_000_000;

/// Whether one axis of a preview starts within the sizes that the launch
/// position, an impulse and gravity can have.
spec fn small(start: int, first: int, gain: int) -> bool {
    &&& -4_000_000 <= start <= 4_000_000
    &&& -8_589_934_592 <= first <= 8_589_934_592
    &&& -40_000_000_000 <= gain <= 40_000_000_000
}

/// Largest size of the distance per step after `steps` steps.
spec fn speed_max(steps: nat) -> nat {
    8_589_934_592 + steps * 40_000_000_000
}

/// Largest size of the coordinate after `steps` steps.
spec fn reach_max(steps: nat) -> nat {
    4_000_000 + steps * 1_608_589_934_592
}

/// The sizes that the distance per step and the coordinate can reach within
/// the steps of a preview.
proof fn lemma_euler_small(start: int, first: int, gain: int, steps: nat)
    requires
        small(start, first, gain),
        steps <= STEPS_MAX,
    ensures
        -speed_max(steps) <= euler_velocity(first, gain, steps) <= speed_max(steps),
        -reach_max(steps) <= euler_position(start, first, gain, steps) <= reach_max(steps),
    decreases steps,
{
    if steps > 0 {
        lemma_euler_small(start, first, gain, (steps - 1) as nat);
    }
}

/// What gravity adds in a step stays within `GAIN_MAX`.
proof fn lemma_gravity_step_small(gravity: int, dt: int)
    requires
        -0x8000_0000 <= gravity < 0x8000_0000,
        0 <= dt < 0x1_0000_0000,
    ensures
        -GAIN_MAX <= gravity_step(gravity, dt) <= GAIN_MAX,
{
    let size = if gravity >= 0 { gravity } else { -gravity };
    assert(0 <= size * dt * dt <= 0x8000_0000 * 0x1_0000_0000 * 0x1_0000_0000) by (nonlinear_arith)
        requires
            0 <= size <= 0x8000_0000,
            0 <= dt < 0x1_0000_0000,
    ;
}

/// What gravity adds in each step to the distance that a step covers.
fn gravity_per_step(gravity: i32, dt: u32) -> (gain: i64)
    ensures
        gain == gravity_step(gravity as int, dt as int),
        -GAIN_MAX <= gain <= GAIN_MAX,
{
    let size: u128 = if gravity >= 0 {
        gravity as u128
    } else {
        (-(gravity as i64)) as u128
    };
    let dt: u128 = dt as u128;
    proof {
        lemma_gravity_step_small(gravity as int, dt as int);
        assert(0 <= size * dt <= 0x8000_0000 * 0x1_0000_0000) by (nonlinear_arith)
            requires
                0 <= size <= 0x8000_0000,
                0 <= dt < 0x1_0000_0000,
        ;
        assert(0 <= size * dt * dt <= 0x8000_0000 * 0x1_0000_0000 * 0x1_0000_0000)
            by (nonlinear_arith)
            requires
                0 <= size <= 0x8000_0000,
                0 <= dt < 0x1_0000_0000,
        ;
    }
    let scaled: u128 = size * dt * dt / (NANOS * NANOS);
    if gravity >= 0 {
        scaled as i64
    } else {
        -(scaled as i64)
    }
}

/// One axis of the preview, moved on from one marker to the next.
fn advance(
    position: i64,
    velocity: i64,
    gain: i64,
    Ghost(start): Ghost<int>,
    Ghost(first): Ghost<int>,
    Ghost(steps): Ghost<nat>,
) -> (next: (i64, i64))
    requires
        small(start, first, gain as int),
        steps + PER_STEP <= STEPS_MAX,
        position == euler_position(start, first, gain as int, steps),
        velocity == euler_velocity(first, gain as int, steps),
    ensures
        next.0 == euler_position(start, first, gain as int, steps + PER_STEP as nat),
        next.1 == euler_velocity(first, gain as int, steps + PER_STEP as nat),
{
    let mut position = position;
    let mut velocity = velocity;
    let mut done: usize = 0;
    while done < PER_STEP
        invariant
            small(start, first, gain as int),
            steps + PER_STEP <= STEPS_MAX,
            done <= PER_STEP,
            position == euler_position(start, first, gain as int, steps + done as nat),
            velocity == euler_velocity(first, gain as int, steps + done as nat),
        decreases PER_STEP - done,
    {
        proof {
            lemma_euler_small(start, first, gain as int, steps + done as nat);
            lemma_euler_small(start, first, gain as int, steps + done as nat + 1);
        }
        velocity = velocity + gain;
        position = position + velocity;
        done = done + 1;
    }
    (position, velocity)
}

/// Lays the markers along the path of the shot that `impulse` would launch
/// for `team`, under `gravity` and with the physics steps of `timestep`. The
/// impulse is in millionths, gravity in millionths per second squared.
///
/// The markers are laid only while the controller is armed and the aim has
/// `changed` since they were last laid; otherwise the answer is `None` and
/// they stay where they are. The path is that of explicit Euler steps, the
/// speed first and the position after it, and takes no notice of the table
/// or the cups.
pub fn tracer(
    entities: &TracerEntities,
    impulse: Vec3,
    gravity: Vec3,
    timestep: TimestepMode,
    active: &ControlActive,
    changed: bool,
    team: Team,
) -> (path: Option<Vec<TracerPlacement>>)
    ensures
        path is Some <==> active.active() && changed,
        path matches Some(path) ==> {
            &&& path.len() == entities@.len()
            &&& forall|marker: int|
                0 <= marker < path.len() ==> {
                    &&& (#[trigger] path[marker]).entity == entities@[marker]
                    &&& path[marker].position == marker_position(
                        team,
                        impulse,
                        gravity,
                        timestep.step(),
                        marker as nat,
                    )
                }
        },
{
    if !active.is_active() || !changed {
        return None;
    }
    let dt = timestep.dt();
    let start = ball_pos(team);
    let gain_x = gravity_per_step(gravity.x, dt);
    let gain_y = gravity_per_step(gravity.y, dt);
    let gain_z = gravity_per_step(gravity.z, dt);
    let first_x: i64 = GAIN * (impulse.x as i64);
    let first_y: i64 = GAIN * (impulse.y as i64);
    let first_z: i64 = GAIN * (impulse.z as i64);
    let mut x: i64 = start.x;
    let mut y: i64 = start.y;
    let mut z: i64 = start.z;
    let mut speed_x: i64 = first_x;
    let mut speed_y: i64 = first_y;
    let mut speed_z: i64 = first_z;
    let count = entities.len();
    let mut path: Vec<TracerPlacement> = Vec::new();
    let mut marker: usize = 0;
    while marker < count
        invariant
            count == entities@.len(),
            count <= MAX_TRACERS,
            marker <= count,
            start == launch_position(team),
            small(start.x as int, first_x as int, gain_x as int),
            small(start.y as int, first_y as int, gain_y as int),
            small(start.z as int, first_z as int, gain_z as int),
            first_x == GAIN * impulse.x,
            first_y == GAIN * impulse.y,
            first_z == GAIN * impulse.z,
            gain_x == gravity_step(gravity.x as int, timestep.step() as int),
            gain_y == gravity_step(gravity.y as int, timestep.step() as int),
            gain_z == gravity_step(gravity.z as int, timestep.step() as int),
            x == euler_position(start.x as int, first_x as int, gain_x as int, PER_STEP as nat * marker as nat),
            y == euler_position(start.y as int, first_y as int, gain_y as int, PER_STEP as nat * marker as nat),
            z == euler_position(start.z as int, first_z as int, gain_z as int, PER_STEP as nat * marker as nat),
            speed_x == euler_velocity(first_x as int, gain_x as int, PER_STEP as nat * marker as nat),
            speed_y == euler_velocity(first_y as int, gain_y as int, PER_STEP as nat * marker as nat),
            speed_z == euler_velocity(first_z as int, gain_z as int, PER_STEP as nat * marker as nat),
            path.len() == marker,
            forall|done: int|
                0 <= done < marker ==> {
                    &&& (#[trigger] path[done]).entity == entities@[done]
                    &&& path[done].position == marker_position(
                        team,
                        impulse,
                        gravity,
                        timestep.step(),
                        done as nat,
                    )
                },
        decreases count - marker,
    {
        let ghost steps: nat = PER_STEP as nat * marker as nat;
        let next_x = advance(x, speed_x, gain_x, Ghost(start.x as int), Ghost(first_x as int), Ghost(steps));
        let next_y = advance(y, speed_y, gain_y, Ghost(start.y as int), Ghost(first_y as int), Ghost(steps));
        let next_z = advance(z, speed_z, gain_z, Ghost(start.z as int), Ghost(first_z as int), Ghost(steps));
        x = next_x.0;
        speed_x = next_x.1;
        y = next_y.0;
        speed_y = next_y.1;
        z = next_z.0;
        speed_z = next_z.1;
        path.push(TracerPlacement { entity: entities.entities[marker], position: Position { x, y, z } });
        marker = marker + 1;
    }
    Some(path)
}

/// The steps of the preview add up to a closed form: after `steps` steps the
/// distance per step is `first + steps * gain`, and the coordinate is
/// `start + steps * first + gain * (1 + 2 + ... + steps)`.
pub proof fn lemma_euler_closed_form(start: int, first: int, gain: int, steps: nat)
    ensures
        euler_velocity(first, gain, steps) == first + steps * gain,
        euler_position(start, first, gain, steps) == start + steps * first + gain * (steps * (steps
            + 1) / 2),
    decreases steps,
{
    let n = steps as int;
    if steps == 0 {
        assert(n * gain == 0 && n * first == 0 && n * (n + 1) / 2 == 0) by (nonlinear_arith)
            requires
                n == 0,
        ;
        assert(gain * 0 == 0) by (nonlinear_arith);
    } else {
        let before = (steps - 1) as nat;
        let m = before as int;
        lemma_euler_closed_form(start, first, gain, before);
        assert(n * gain == m * gain + gain && n * first == m * first + first) by (nonlinear_arith)
            requires
                n == m + 1,
        ;
        assert(n * (n + 1) / 2 == m * (m + 1) / 2 + n) by (nonlinear_arith)
            requires
                n == m + 1,
                m >= 0,
        ;
        assert(gain * (m * (m + 1) / 2 + n) == gain * (m * (m + 1) / 2) + n * gain)
            by (nonlinear_arith);
    }
}

/// Every marker of a preview lies where the closed form says, and no
/// coordinate leaves the range of its type: marker number `marker` is
/// `steps = PER_STEP * (marker + 1)` steps from the launch position, at
/// `start + steps * GAIN * impulse + g * (1 + 2 + ... + steps)` along each
/// axis, where `g` is what gravity adds in a step along that axis.
pub proof fn lemma_marker_closed_form(team: Team, impulse: Vec3, gravity: Vec3, dt: u32, marker: nat)
    requires
        marker < MAX_TRACERS,
    ensures
        ({
            let start = launch_position(team);
            let place = marker_position(team, impulse, gravity, dt, marker);
            let steps = PER_STEP as nat * (marker + 1);
            let sum = steps * (steps + 1) / 2;
            &&& place.x == start.x + steps * (GAIN * impulse.x) + gravity_step(
                gravity.x as int,
                dt as int,
            ) * sum
            &&& place.y == start.y + steps * (GAIN * impulse.y) + gravity_step(
                gravity.y as int,
                dt as int,
            ) * sum
            &&& place.z == start.z + steps * (GAIN * impulse.z) + gravity_step(
                gravity.z as int,
                dt as int,
            ) * sum
        }),
{
    let start = launch_position(team);
    let steps = PER_STEP as nat * (marker + 1);
    lemma_gravity_step_small(gravity.x as int, dt as int);
    lemma_gravity_step_small(gravity.y as int, dt as int);
    lemma_gravity_step_small(gravity.z as int, dt as int);
    let gx = gravity_step(gravity.x as int, dt as int);
    let gy = gravity_step(gravity.y as int, dt as int);
    let gz = gravity_step(gravity.z as int, dt as int);
    lemma_euler_small(start.x as int, GAIN * impulse.x, gx, steps);
    lemma_euler_small(start.y as int, GAIN * impulse.y, gy, steps);
    lemma_euler_small(start.z as int, GAIN * impulse.z, gz, steps);
    lemma_euler_closed_form(start.x as int, GAIN * impulse.x, gx, steps);
    lemma_euler_closed_form(start.y as int, GAIN * impulse.y, gy, steps);
    lemma_euler_closed_form(start.z as int, GAIN * impulse.z, gz, steps);
}

} // verus!
