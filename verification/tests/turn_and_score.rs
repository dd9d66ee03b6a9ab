use beer_pong::control::shot_outcome;
use beer_pong::objects::{
    cup_position, spawn_objects, Cup, CupSpawn, RespawnEvent, TakenCups, Team, CUP_COUNT, HEIGHT,
};
use beer_pong::units::Position;

fn claimed_ids(taken: &TakenCups, team: Team) -> Vec<u8> {
    (0..=u8::MAX).filter(|id| taken.contains(team, Cup(*id))).collect()
}

fn count_side(cups: &[CupSpawn], side: Team) -> usize {
    cups.iter().filter(|cup| cup.side == side).count()
}

#[test]
fn team_signs_and_indices() {
    assert_eq!(Team::Left.factor(), 1);
    assert_eq!(Team::Right.factor(), -1);
    assert_eq!(Team::Left.index(), 0);
    assert_eq!(Team::Right.index(), 1);
    assert_eq!(Team::Left.other(), Team::Right);
    assert_eq!(Team::Right.other(), Team::Left);
    assert_eq!(Team::default(), Team::Left);
    assert_eq!(Cup::default(), Cup(0));
}

#[test]
fn new_bookkeeping_holds_nothing() {
    let taken = TakenCups::new();
    assert!(claimed_ids(&taken, Team::Left).is_empty());
    assert!(claimed_ids(&taken, Team::Right).is_empty());
    let taken = TakenCups::default();
    assert!(claimed_ids(&taken, Team::Left).is_empty());
    assert!(claimed_ids(&taken, Team::Right).is_empty());
}

#[test]
fn insert_adds_one_id_to_one_team() {
    let mut taken = TakenCups::new();
    assert!(!taken.contains(Team::Right, Cup(4)));
    assert!(taken.insert(Team::Right, Cup(4)));
    assert!(taken.contains(Team::Right, Cup(4)));
    assert!(!taken.contains(Team::Left, Cup(4)));
    assert_eq!(claimed_ids(&taken, Team::Right), vec![4]);
    assert!(claimed_ids(&taken, Team::Left).is_empty());
}

#[test]
fn insert_twice_holds_the_id_once() {
    let mut taken = TakenCups::new();
    assert!(taken.insert(Team::Left, Cup(2)));
    assert!(!taken.insert(Team::Left, Cup(2)));
    assert!(taken.insert(Team::Left, Cup(0)));
    assert_eq!(claimed_ids(&taken, Team::Left), vec![0, 2]);
}

#[test]
fn probe_result_becomes_outcome() {
    assert_eq!(shot_outcome(None), RespawnEvent::Missed);
    assert_eq!(shot_outcome(Some(Cup(5))), RespawnEvent::HitCup(Cup(5)));
    assert_eq!(shot_outcome(Some(Cup(0))), RespawnEvent::HitCup(Cup(0)));
}

#[test]
fn miss_flips_the_turn_and_claims_nothing() {
    let mut taken = TakenCups::new();
    taken.insert(Team::Left, Cup(1));
    let mut team = Team::Left;
    let respawn = spawn_objects(RespawnEvent::Missed, &mut taken, &mut team);
    assert_eq!(team, Team::Right);
    assert_eq!(claimed_ids(&taken, Team::Left), vec![1]);
    assert!(claimed_ids(&taken, Team::Right).is_empty());
    assert_eq!(respawn.ball, Position { x: 0, y: 1_000_000, z: -4_000_000 });
    let respawn = spawn_objects(RespawnEvent::Missed, &mut taken, &mut team);
    assert_eq!(team, Team::Left);
    assert_eq!(claimed_ids(&taken, Team::Left), vec![1]);
    assert!(claimed_ids(&taken, Team::Right).is_empty());
    assert_eq!(respawn.ball, Position { x: 0, y: 1_000_000, z: 4_000_000 });
}

#[test]
fn hit_credits_the_active_team_and_keeps_the_turn() {
    let mut taken = TakenCups::new();
    let mut team = Team::Right;
    let respawn = spawn_objects(RespawnEvent::HitCup(Cup(5)), &mut taken, &mut team);
    assert_eq!(team, Team::Right);
    assert_eq!(claimed_ids(&taken, Team::Right), vec![5]);
    assert!(claimed_ids(&taken, Team::Left).is_empty());
    assert_eq!(count_side(&respawn.cups, Team::Left), 6);
    assert_eq!(count_side(&respawn.cups, Team::Right), 5);
    assert_eq!(respawn.ball, Position { x: 0, y: 1_000_000, z: -4_000_000 });
}

#[test]
fn nothing_only_lays_the_table_out() {
    let mut taken = TakenCups::new();
    taken.insert(Team::Right, Cup(0));
    let mut team = Team::Left;
    let respawn = spawn_objects(RespawnEvent::Nothing, &mut taken, &mut team);
    assert_eq!(team, Team::Left);
    assert!(claimed_ids(&taken, Team::Left).is_empty());
    assert_eq!(claimed_ids(&taken, Team::Right), vec![0]);
    assert_eq!(respawn.cups.len(), 11);
    assert_eq!(respawn.ball, Position { x: 0, y: 1_000_000, z: 4_000_000 });
}

#[test]
fn respawn_counts_follow_the_claimed_sets() {
    let mut taken = TakenCups::new();
    let mut team = Team::Left;
    for id in [0u8, 2, 4] {
        spawn_objects(RespawnEvent::HitCup(Cup(id)), &mut taken, &mut team);
    }
    spawn_objects(RespawnEvent::Missed, &mut taken, &mut team);
    let respawn = spawn_objects(RespawnEvent::HitCup(Cup(1)), &mut taken, &mut team);
    assert_eq!(team, Team::Right);
    assert_eq!(count_side(&respawn.cups, Team::Left), 6 - 3);
    assert_eq!(count_side(&respawn.cups, Team::Right), 6 - 1);
    assert_eq!(respawn.cups.len(), 8);
    let slots: Vec<(Team, u8)> = respawn.cups.iter().map(|cup| (cup.side, cup.cup.0)).collect();
    assert_eq!(
        slots,
        vec![
            (Team::Left, 1),
            (Team::Left, 3),
            (Team::Left, 5),
            (Team::Right, 0),
            (Team::Right, 2),
            (Team::Right, 3),
            (Team::Right, 4),
            (Team::Right, 5),
        ]
    );
}

#[test]
fn every_cup_claimed_leaves_an_empty_side() {
    let mut taken = TakenCups::new();
    let mut team = Team::Left;
    let mut last = spawn_objects(RespawnEvent::Nothing, &mut taken, &mut team);
    for id in 0..CUP_COUNT {
        last = spawn_objects(RespawnEvent::HitCup(Cup(id)), &mut taken, &mut team);
    }
    assert_eq!(count_side(&last.cups, Team::Left), 0);
    assert_eq!(count_side(&last.cups, Team::Right), 6);
}

#[test]
fn id_outside_the_cluster_is_held_and_takes_no_cup_away() {
    let mut taken = TakenCups::new();
    let mut team = Team::Left;
    let respawn = spawn_objects(RespawnEvent::HitCup(Cup(9)), &mut taken, &mut team);
    assert_eq!(claimed_ids(&taken, Team::Left), vec![9]);
    assert_eq!(respawn.cups.len(), 12);
}

#[test]
fn cups_stand_in_a_mirrored_triangle() {
    let left: Vec<Position> = (0..CUP_COUNT).map(|slot| cup_position(Team::Left, slot)).collect();
    assert_eq!(
        left,
        vec![
            Position { x: 0, y: 50_000, z: -3_500_000 },
            Position { x: -600_000, y: 50_000, z: -3_500_000 },
            Position { x: 600_000, y: 50_000, z: -3_500_000 },
            Position { x: 300_000, y: 50_000, z: -2_980_385 },
            Position { x: -300_000, y: 50_000, z: -2_980_385 },
            Position { x: 0, y: 50_000, z: -2_460_770 },
        ]
    );
    for slot in 0..CUP_COUNT {
        let near = cup_position(Team::Left, slot);
        let far = cup_position(Team::Right, slot);
        assert_eq!(far, Position { x: near.x, y: near.y, z: -near.z });
    }
    assert_eq!(HEIGHT, 519_615);
}

#[test]
fn respawn_places_each_cup_in_its_slot() {
    let mut taken = TakenCups::new();
    let mut team = Team::Left;
    let respawn = spawn_objects(RespawnEvent::Nothing, &mut taken, &mut team);
    assert_eq!(respawn.cups.len(), 12);
    for (i, spawn) in respawn.cups.iter().enumerate() {
        let side = if i < 6 { Team::Left } else { Team::Right };
        let slot = (i % 6) as u8;
        assert_eq!(
            *spawn,
            CupSpawn { side, cup: Cup(slot), position: cup_position(side, slot) }
        );
    }
}
