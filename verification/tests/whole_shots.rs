use beer_pong::aim::{Impulse, StoredVelocity};
use beer_pong::control::{
    after_fire, control_ball, shot_outcome, ui, ControlActive, Shot, ShotState,
};
use beer_pong::objects::{spawn_objects, Cup, CupSpawn, RespawnEvent, TakenCups, Team};
use beer_pong::units::Position;

struct Table {
    control: ControlActive,
    stored: StoredVelocity,
    local: [StoredVelocity; 2],
    team: Team,
    taken: TakenCups,
}

fn fresh_table() -> Table {
    let mut table = Table {
        control: ControlActive::default(),
        stored: StoredVelocity::default(),
        local: [StoredVelocity::default(); 2],
        team: Team::Left,
        taken: TakenCups::new(),
    };
    let respawn = spawn_objects(RespawnEvent::Nothing, &mut table.taken, &mut table.team);
    assert_eq!(respawn.cups.len(), 12);
    control_ball(1, &mut table.control);
    assert_eq!(table.control.state, ShotState::Armed);
    table
}

/// Fires, lets the delay run out in frames of a sixtieth of a second, and
/// books what the probe found.
fn play_shot(table: &mut Table, edited: StoredVelocity, found: Option<Cup>) -> (Shot, Vec<CupSpawn>, Position) {
    let shot = ui(&mut table.control, &mut table.stored, &mut table.local, table.team, edited, true)
        .unwrap();
    assert_eq!(table.control.state, ShotState::InFlight);
    let mut frames = 0;
    while !after_fire(&mut table.control, 16_666_667) {
        assert_eq!(table.control.state, ShotState::Resolving);
        frames += 1;
        assert!(frames < 1_000);
    }
    // 240 frames of 16_666_667 ns are the first to reach four seconds.
    assert_eq!(frames, 239);
    assert_eq!(table.control.state, ShotState::Idle);
    let event = shot_outcome(found);
    let respawn = spawn_objects(event, &mut table.taken, &mut table.team);
    control_ball(1, &mut table.control);
    assert_eq!(table.control.state, ShotState::Armed);
    (shot, respawn.cups, respawn.ball)
}

fn claimed_ids(taken: &TakenCups, team: Team) -> Vec<u8> {
    (0..=u8::MAX).filter(|id| taken.contains(team, Cup(*id))).collect()
}

fn count_side(cups: &[CupSpawn], side: Team) -> usize {
    cups.iter().filter(|cup| cup.side == side).count()
}

#[test]
fn missed_shot_passes_the_turn() {
    let mut table = fresh_table();
    let edited = StoredVelocity { x_rot: 0, y_rot: 0, power: 5_000 };
    let (shot, cups, ball) = play_shot(&mut table, edited, None);
    assert_eq!(
        shot,
        Shot {
            position: Position { x: 0, y: 1_000_000, z: 4_000_000 },
            impulse: Impulse { pitch: 0, yaw: 0, heading: -1, strength: 25_000 },
        }
    );
    assert_eq!(table.team, Team::Right);
    assert!(claimed_ids(&table.taken, Team::Left).is_empty());
    assert!(claimed_ids(&table.taken, Team::Right).is_empty());
    assert_eq!(cups.len(), 12);
    assert_eq!(count_side(&cups, Team::Left), 6);
    assert_eq!(count_side(&cups, Team::Right), 6);
    assert_eq!(ball, Position { x: 0, y: 1_000_000, z: -4_000_000 });
}

#[test]
fn hit_claims_the_cup_and_keeps_the_turn() {
    let mut table = fresh_table();
    let (_shot, cups, ball) = play_shot(&mut table, StoredVelocity::default(), Some(Cup(3)));
    assert_eq!(table.team, Team::Left);
    assert_eq!(claimed_ids(&table.taken, Team::Left), vec![3]);
    assert!(claimed_ids(&table.taken, Team::Right).is_empty());
    assert_eq!(count_side(&cups, Team::Left), 5);
    assert_eq!(count_side(&cups, Team::Right), 6);
    assert!(cups.iter().all(|cup| !(cup.side == Team::Left && cup.cup == Cup(3))));
    assert_eq!(ball, Position { x: 0, y: 1_000_000, z: 4_000_000 });
}

#[test]
fn same_hit_twice_claims_once() {
    let mut table = fresh_table();
    play_shot(&mut table, StoredVelocity::default(), Some(Cup(3)));
    let (_shot, cups, _ball) = play_shot(&mut table, StoredVelocity::default(), Some(Cup(3)));
    assert_eq!(table.team, Team::Left);
    assert_eq!(claimed_ids(&table.taken, Team::Left), vec![3]);
    assert!(claimed_ids(&table.taken, Team::Right).is_empty());
    assert_eq!(count_side(&cups, Team::Left), 5);
    assert_eq!(count_side(&cups, Team::Right), 6);
    assert_eq!(cups.len(), 11);
}

#[test]
fn match_of_hits_and_misses() {
    let mut table = fresh_table();
    play_shot(&mut table, StoredVelocity::default(), Some(Cup(0)));
    play_shot(&mut table, StoredVelocity::default(), None);
    assert_eq!(table.team, Team::Right);
    play_shot(&mut table, StoredVelocity::default(), Some(Cup(0)));
    play_shot(&mut table, StoredVelocity::default(), Some(Cup(5)));
    let (_shot, cups, ball) = play_shot(&mut table, StoredVelocity::default(), None);
    assert_eq!(table.team, Team::Left);
    assert_eq!(claimed_ids(&table.taken, Team::Left), vec![0]);
    assert_eq!(claimed_ids(&table.taken, Team::Right), vec![0, 5]);
    assert_eq!(count_side(&cups, Team::Left), 5);
    assert_eq!(count_side(&cups, Team::Right), 4);
    assert_eq!(ball, Position { x: 0, y: 1_000_000, z: 4_000_000 });
}

#[test]
fn each_team_keeps_its_own_aim() {
    let mut table = fresh_table();
    let left_aim = StoredVelocity { x_rot: 10_000, y_rot: 1_000, power: 3_000 };
    play_shot(&mut table, left_aim, None);
    let right_aim = StoredVelocity { x_rot: 20_000, y_rot: -2_000, power: 6_000 };
    play_shot(&mut table, right_aim, None);
    assert_eq!(table.local, [left_aim, right_aim]);
    assert_eq!(table.stored, right_aim);
}
