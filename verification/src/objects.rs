//! Teams, cups, the claimed cups of each team and what is put back on the
//! table after a shot.

use vstd::prelude::*;
use crate::control::{ball_pos, launch_position, TABLE_Z};
use crate::units::Position;

verus! {

/// A cup, named by its slot in the cluster of its side.
#[derive(Clone, Copy, Hash, PartialEq, Eq, Structural, Debug)]
pub struct Cup(pub u8);

impl Default for Cup {
    fn default() -> (cup: Cup)
        ensures
            cup == Cup(0),
    {
        Cup(0)
    }
}

/// How a shot ended, as told to everything that reacts to the end of a shot.
#[derive(Clone, Copy, PartialEq, Eq, Structural, Debug)]
pub enum RespawnEvent {
    /// Nothing was decided: only the table is laid out again.
    Nothing,
    /// The ball came to rest in this cup.
    HitCup(Cup),
    /// The ball came to rest in no cup.
    Missed,
}

/// The two teams. Each launches from its own end of the table at the cluster
/// of cups at the other end, which is called the team's cluster here: the
/// cups that the team claims are gone from it.
#[derive(Clone, Copy, PartialEq, Eq, Structural, Debug)]
pub enum Team {
    Left,
    Right,
}

impl Default for Team {
    fn default() -> (team: Team)
        ensures
            team == Team::Left,
    {
        Team::Left
    }
}

impl Team {
    /// The sign that mirrors geometry and aim across the middle of the table:
    /// `1` for `Left`, `-1` for `Right`.
    pub open spec fn sign(self) -> int {
        match self {
            Team::Left => 1,
            Team::Right => -1,
        }
    }

    /// `value` seen from the team's end of the table: itself for `Left`,
    /// negated for `Right`, which is `value` times the team's sign.
    pub open spec fn mirror(self, value: int) -> int {
        match self {
            Team::Left => value,
            Team::Right => -value,
        }
    }

    /// The team that is not `self`.
    pub open spec fn spec_other(self) -> Team {
        match self {
            Team::Left => Team::Right,
            Team::Right => Team::Left,
        }
    }

    /// The team's place in a pair of per-team values: `0` for `Left`, `1` for
    /// `Right`.
    pub open spec fn spec_index(self) -> usize {
        match self {
            Team::Left => 0,
            Team::Right => 1,
        }
    }

    /// The team's place in a pair of per-team values.
    #[verifier::when_used_as_spec(spec_index)]
    pub fn index(self) -> (index: usize)
        ensures
            index == self.spec_index(),
    {
        match self {
            Team::Left => 0,
            Team::Right => 1,
        }
    }

    /// The mirror sign of the team.
    pub fn factor(self) -> (sign: i64)
        ensures
            sign == self.sign(),
    {
        match self {
            Team::Left => 1,
            Team::Right => -1,
        }
    }

    /// The team that is not `self`.
    #[verifier::when_used_as_spec(spec_other)]
    pub fn other(self) -> (team: Team)
        ensures
            team == self.spec_other(),
    {
        match self {
            Team::Left => Team::Right,
            Team::Right => Team::Left,
        }
    }
}

/// Slots in the cluster of one side.
pub const CUP_COUNT: u8 = 6;

/// The ids of the cups that one team has claimed, kept in a
/// `bevy::utils::HashSet`. That set's type has an allocator parameter which
/// cannot be named from outside its crate, so the set is held in this struct,
/// whose inside is opaque to the verifier; `cup_set_ids` names what it holds.
#[verifier::external_body]
pub struct CupSet {
    ids: bevy::utils::HashSet<u8>,
}

/// The ids that a `CupSet` holds.
pub uninterp spec fn cup_set_ids(set: CupSet) -> Set<u8>;

/// `bevy::utils::HashSet::default`: the set that it makes holds nothing.
#[verifier::external_body]
fn cup_set_new() -> (set: CupSet)
    ensures
        cup_set_ids(set) == Set::<u8>::empty(),
{
    CupSet { ids: bevy::utils::HashSet::default() }
}

/// `bevy::utils::HashSet::insert`: afterwards the set holds the cup's id
/// besides what it held; the answer is whether the id is new to the set.
#[verifier::external_body]
fn cup_set_insert(set: &mut CupSet, cup: Cup) -> (fresh: bool)
    ensures
        cup_set_ids(*final(set)) == cup_set_ids(*old(set)).insert(cup.0),
        fresh == !cup_set_ids(*old(set)).contains(cup.0),
{
    set.ids.insert(cup.0)
}

/// `bevy::utils::HashSet::contains`: whether the set holds the cup's id.
#[verifier::external_body]
fn cup_set_contains(set: &CupSet, cup: Cup) -> (held: bool)
    ensures
        held == cup_set_ids(*set).contains(cup.0),
{
    set.ids.contains(&cup.0)
}


/// The cups that each team has claimed so far.
pub struct TakenCups {
    left: CupSet,
    right: CupSet,
}

impl TakenCups {
    /// The ids of the cups that `team` has claimed.
    pub closed spec fn claimed(&self, team: Team) -> Set<u8> {
        match team {
            Team::Left => cup_set_ids(self.left),
            Team::Right => cup_set_ids(self.right),
        }
    }

    /// No cup is claimed.
    pub fn new() -> (taken: TakenCups)
        ensures
            taken.claimed(Team::Left) == Set::<u8>::empty(),
            taken.claimed(Team::Right) == Set::<u8>::empty(),
    {
        TakenCups { left: cup_set_new(), right: cup_set_new() }
    }

    /// Whether `team` has claimed `cup`.
    pub fn contains(&self, team: Team, cup: Cup) -> (held: bool)
        ensures
            held == self.claimed(team).contains(cup.0),
    {
        match team {
            Team::Left => cup_set_contains(&self.left, cup),
            Team::Right => cup_set_contains(&self.right, cup),
        }
    }

    /// Claims `cup` for `team`; the other team's cups stay as they are. The
    /// answer is whether the team did not hold the cup before.
    pub fn insert(&mut self, team: Team, cup: Cup) -> (fresh: bool)
        ensures
            final(self).claimed(team) == old(self).claimed(team).insert(cup.0),
            final(self).claimed(team.other()) == old(self).claimed(team.other()),
            fresh == !old(self).claimed(team).contains(cup.0),
    {
        match team {
            Team::Left => cup_set_insert(&mut self.left, cup),
            Team::Right => cup_set_insert(&mut self.right, cup),
        }
    }
}

impl Default for TakenCups {
    fn default() -> (taken: TakenCups)
        ensures
            taken.claimed(Team::Left) == Set::<u8>::empty(),
            taken.claimed(Team::Right) == Set::<u8>::empty(),
    {
        TakenCups::new()
    }
}


/// Distance between the centres of two neighbouring cups.
pub const CUP_OFFSET: i64 = 600_000;

/// Distance of a cluster's first row from its end of the table.
pub const CUP_OFFSET_Y: i64 = 500_000;

/// Distance between two rows of a cluster: the height of an equilateral
/// triangle whose side is `CUP_OFFSET`, that is `CUP_OFFSET` times 0.866025.
pub const HEIGHT: i64 = 519_615;

/// Height of a cup's foot above the table's centre.
pub const CUP_LIFT: i64 = 50_000;

/// Where the slot lies across the table, seen from the cluster's first cup.
pub open spec fn slot_across(slot: u8) -> int {
    if slot == 1 {
        -CUP_OFFSET
    } else if slot == 2 {
        CUP_OFFSET as int
    } else if slot == 3 {
        CUP_OFFSET / 2
    } else if slot == 4 {
        -(CUP_OFFSET / 2)
    } else {
        0
    }
}

/// How far behind the cluster's first row the slot lies.
pub open spec fn slot_depth(slot: u8) -> int {
    if slot == 3 || slot == 4 {
        HEIGHT as int
    } else if slot == 5 {
        2 * HEIGHT
    } else {
        0
    }
}

/// Where the cup in `slot` of the cluster of `side` stands. The six slots
/// form a triangle of rows of three, two and one cups, the row of three
/// nearest to the end of the table at which `side` throws; the cluster of
/// `Right` is that of `Left` mirrored across the middle of the table.
pub open spec fn cup_place(side: Team, slot: u8) -> Position {
    Position {
        x: slot_across(slot) as i64,
        y: CUP_LIFT,
        z: side.mirror(slot_depth(slot) - (TABLE_Z / 2 - CUP_OFFSET_Y)) as i64,
    }
}

/// Where the cup in `slot` of the cluster of `side` stands.
pub fn cup_position(side: Team, slot: u8) -> (position: Position)
    requires
        slot < CUP_COUNT,
    ensures
        position == cup_place(side, slot),
{
    let across: i64 = if slot == 1 {
        -CUP_OFFSET
    } else if slot == 2 {
        CUP_OFFSET
    } else if slot == 3 {
        CUP_OFFSET / 2
    } else if slot == 4 {
        -(CUP_OFFSET / 2)
    } else {
        0
    };
    let depth: i64 = if slot == 3 || slot == 4 {
        HEIGHT
    } else if slot == 5 {
        2 * HEIGHT
    } else {
        0
    };
    let behind: i64 = depth - (TABLE_Z / 2 - CUP_OFFSET_Y);
    let z: i64 = match side {
        Team::Left => behind,
        Team::Right => -behind,
    };
    Position { x: across, y: CUP_LIFT, z }
}

/// One cup to put on the table.
#[derive(Clone, Copy, PartialEq, Eq, Structural, Debug)]
pub struct CupSpawn {
    /// The team whose cluster the cup belongs to.
    pub side: Team,
    /// The cup's slot in that cluster.
    pub cup: Cup,
    /// Where the cup stands.
    pub position: Position,
}

/// All that is put on the table after the old ball and cups have been taken
/// off: one ball and the cups that nobody has claimed.
#[derive(Debug)]
pub struct Respawn {
    /// Where the one ball waits to be launched.
    pub ball: Position,
    /// The cups, those of `Left` first, each side in the order of its slots.
    pub cups: Vec<CupSpawn>,
}

/// The cup of `side` in `slot`, as it is put on the table.
pub open spec fn cup_spawn(side: Team, slot: u8) -> CupSpawn {
    CupSpawn { side, cup: Cup(slot), position: cup_place(side, slot) }
}

/// The cups in the first `slots` slots of the cluster of `side` that are put
/// on the table when the ids in `claimed` are taken: those whose id is not
/// among them, in the order of the slots.
pub open spec fn standing(claimed: Set<u8>, side: Team, slots: nat) -> Seq<CupSpawn>
    decreases slots,
{
    if slots == 0 {
        Seq::empty()
    } else {
        let slot = (slots - 1) as u8;
        let before = standing(claimed, side, (slots - 1) as nat);
        if claimed.contains(slot) {
            before
        } else {
            before.push(cup_spawn(side, slot))
        }
    }
}

/// The cups of both sides that are put on the table when `left` and `right`
/// are the ids taken from the two clusters.
pub open spec fn layout(left: Set<u8>, right: Set<u8>) -> Seq<CupSpawn> {
    standing(left, Team::Left, CUP_COUNT as nat) + standing(right, Team::Right, CUP_COUNT as nat)
}

/// The team whose turn it is after `event`, when it was the turn of `team`: a
/// miss passes the turn, anything else leaves it.
pub open spec fn turn_after(team: Team, event: RespawnEvent) -> Team {
    match event {
        RespawnEvent::Missed => team.other(),
        _ => team,
    }
}

/// The ids that `side` holds after `event`, when it held `claimed` and it was
/// the turn of `active`: a hit adds the cup to what the active team holds, and
/// nothing else changes anything.
pub open spec fn claimed_after(claimed: Set<u8>, side: Team, active: Team, event: RespawnEvent) -> Set<u8> {
    match event {
        RespawnEvent::HitCup(cup) => if side == active {
            claimed.insert(cup.0)
        } else {
            claimed
        },
        _ => claimed,
    }
}

impl TakenCups {
    /// Appends to `cups` the cups of `side` that nobody has claimed.
    fn push_standing(&self, side: Team, cups: &mut Vec<CupSpawn>)
        ensures
            final(cups)@ == old(cups)@ + standing(self.claimed(side), side, CUP_COUNT as nat),
    {
        let mut slot: u8 = 0;
        while slot < CUP_COUNT
            invariant
                slot <= CUP_COUNT,
                cups@ == old(cups)@ + standing(self.claimed(side), side, slot as nat),
            decreases CUP_COUNT - slot,
        {
            if !self.contains(side, Cup(slot)) {
                cups.push(CupSpawn { side, cup: Cup(slot), position: cup_position(side, slot) });
            }
            slot = slot + 1;
        }
    }
}

/// Books the end of a shot and lays the table out again. A hit gives the cup
/// to the team whose turn it is, whichever cluster the cup stands in, and the
/// turn stays; a miss passes the turn and gives nothing. Then one ball waits
/// at the launch position of the team whose turn it now is, and in each
/// team's cluster every cup stands whose id the team has not claimed.
pub fn spawn_objects(event: RespawnEvent, taken_cups: &mut TakenCups, team: &mut Team) -> (respawn: Respawn)
    ensures
        *final(team) == turn_after(*old(team), event),
        final(taken_cups).claimed(Team::Left) == claimed_after(
            old(taken_cups).claimed(Team::Left),
            Team::Left,
            *old(team),
            event,
        ),
        final(taken_cups).claimed(Team::Right) == claimed_after(
            old(taken_cups).claimed(Team::Right),
            Team::Right,
            *old(team),
            event,
        ),
        respawn.ball == launch_position(*final(team)),
        respawn.cups@ == layout(
            final(taken_cups).claimed(Team::Left),
            final(taken_cups).claimed(Team::Right),
        ),
{
    match event {
        RespawnEvent::Nothing => {},
        RespawnEvent::HitCup(cup) => {
            taken_cups.insert(*team, cup);
        },
        RespawnEvent::Missed => {
            *team = team.other();
        },
    }
    let mut cups: Vec<CupSpawn> = Vec::new();
    taken_cups.push_standing(Team::Left, &mut cups);
    taken_cups.push_standing(Team::Right, &mut cups);
    Respawn { ball: ball_pos(*team), cups }
}


/// The mirror of a value is the value times the team's sign.
pub proof fn lemma_mirror_is_sign(team: Team, value: int)
    ensures
        team.mirror(value) == team.sign() * value,
        team.mirror(team.mirror(value)) == value,
        team.other().mirror(value) == -team.mirror(value),
{
}

/// A miss passes the turn to the other team, once, and takes nothing away
/// from and adds nothing to what either team holds. A hit leaves the turn
/// where it is and adds the cup to what the team holds whose turn it is, and
/// to nothing else; a cup that this team holds already is not held twice, so
/// the same hit booked a second time changes nothing.
pub proof fn lemma_turn_and_score(claimed: Set<u8>, side: Team, team: Team, cup: Cup)
    ensures
        turn_after(team, RespawnEvent::Missed) == team.other(),
        turn_after(team, RespawnEvent::Missed) != team,
        turn_after(turn_after(team, RespawnEvent::Missed), RespawnEvent::Missed) == team,
        claimed_after(claimed, side, team, RespawnEvent::Missed) == claimed,
        turn_after(team, RespawnEvent::HitCup(cup)) == team,
        claimed_after(claimed, team, team, RespawnEvent::HitCup(cup)) == claimed.insert(cup.0),
        claimed_after(claimed, team.other(), team, RespawnEvent::HitCup(cup)) == claimed,
        claimed_after(claimed, side, team, RespawnEvent::HitCup(cup)).contains(cup.0) <==> side
            == team || claimed.contains(cup.0),
        claimed_after(
            claimed_after(claimed, side, team, RespawnEvent::HitCup(cup)),
            side,
            team,
            RespawnEvent::HitCup(cup),
        ) == claimed_after(claimed, side, team, RespawnEvent::HitCup(cup)),
        claimed.finite() ==> claimed_after(claimed, team, team, RespawnEvent::HitCup(cup)).len()
            == claimed.len() + (if claimed.contains(cup.0) {
            0int
        } else {
            1int
        }),
        turn_after(team, RespawnEvent::Nothing) == team,
        claimed_after(claimed, side, team, RespawnEvent::Nothing) == claimed,
        claimed.finite() ==> claimed_after(claimed, side, team, RespawnEvent::HitCup(cup)).finite(),
{
    assert(claimed.insert(cup.0).insert(cup.0) =~= claimed.insert(cup.0));
}

/// The ids in `claimed` that name one of the first `slots` slots.
pub open spec fn taken_below(claimed: Set<u8>, slots: nat) -> Set<u8> {
    claimed.filter(|id: u8| id < slots)
}

/// Of the first `slots` slots of a side, as many cups stand as there are slots
/// whose id is not taken. Each of them belongs to that side and is not taken.
pub proof fn lemma_standing(claimed: Set<u8>, side: Team, slots: nat)
    requires
        claimed.finite(),
        slots <= 256,
    ensures
        standing(claimed, side, slots).len() + taken_below(claimed, slots).len() == slots,
        forall|i: int|
            0 <= i < standing(claimed, side, slots).len() ==> {
                let spawn = #[trigger] standing(claimed, side, slots)[i];
                &&& spawn.side == side
                &&& spawn.cup.0 < slots
                &&& !claimed.contains(spawn.cup.0)
                &&& spawn.position == cup_place(side, spawn.cup.0)
            },
    decreases slots,
{
    claimed.lemma_len_filter(|id: u8| id < slots);
    if slots == 0 {
        assert(taken_below(claimed, slots) =~= Set::<u8>::empty());
    } else {
        let fewer = (slots - 1) as nat;
        let slot = fewer as u8;
        lemma_standing(claimed, side, fewer);
        claimed.lemma_len_filter(|id: u8| id < fewer);
        if claimed.contains(slot) {
            assert(taken_below(claimed, slots) =~= taken_below(claimed, fewer).insert(slot));
        } else {
            assert(taken_below(claimed, slots) =~= taken_below(claimed, fewer));
        }
    }
}

/// Laying the table out puts `CUP_COUNT` cups less those claimed into each
/// cluster, as long as every id claimed names a slot: first six less what
/// `Left` has claimed, all of the cluster of `Left`, then six less what
/// `Right` has claimed, all of the cluster of `Right`.
pub proof fn lemma_layout_count(left: Set<u8>, right: Set<u8>)
    requires
        left.finite(),
        right.finite(),
        forall|id: u8| left.contains(id) ==> id < CUP_COUNT,
        forall|id: u8| right.contains(id) ==> id < CUP_COUNT,
    ensures
        standing(left, Team::Left, CUP_COUNT as nat).len() == CUP_COUNT - left.len(),
        standing(right, Team::Right, CUP_COUNT as nat).len() == CUP_COUNT - right.len(),
        layout(left, right).len() == 2 * CUP_COUNT - left.len() - right.len(),
        forall|i: int|
            0 <= i < layout(left, right).len() ==> (#[trigger] layout(left, right)[i]).side == (if i
                < CUP_COUNT - left.len() {
                Team::Left
            } else {
                Team::Right
            }),
{
    lemma_standing(left, Team::Left, CUP_COUNT as nat);
    lemma_standing(right, Team::Right, CUP_COUNT as nat);
    assert(taken_below(left, CUP_COUNT as nat) =~= left);
    assert(taken_below(right, CUP_COUNT as nat) =~= right);
}

} // verus!
