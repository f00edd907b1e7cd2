use vstd::prelude::*;
use crate::combat::Monster;
use crate::dice::RandomSource;
use crate::entities::{Entity, Stats};
use crate::events::{Event, EventType, EventQueue, event_ok, entity_ok, character_ok};
use crate::messaging::Message;
use crate::modifiers::says;
use crate::sim::Game;

pub mod arcane_ward;
pub mod bossfight;
pub mod fight;
pub mod trapped;

verus! {

/// One themed obstacle along the dungeon.
pub struct Room {
    pub complete: bool,
    pub room_type: RoomType,
}

pub enum RoomType {
    Trapped,
    Arcane,
    BossFight,
    /// A monster party, spawned into the defenders when the room is entered.
    Fight { monsters: Vec<Monster>, partyname: String },
    Empty,
}

/// Number of weighted outcomes a fresh room's theme is drawn among: two
/// arcane wards, three traps and one monster party, so that every theme a
/// fresh room can take does come up.
pub const ROOM_DRAW: u64 = 6;

/// The theme a fresh room gets for a draw below `ROOM_DRAW`: two in six
/// arcane wards, three in six traps, one in six a monster party.
pub open spec fn drawn_room_kind(x: u64) -> int {
    if x <= 1 {
        0
    } else if x <= 4 {
        1
    } else {
        2
    }
}

pub open spec fn room_kind(rt: RoomType) -> int {
    match rt {
        RoomType::Arcane => 0,
        RoomType::Trapped => 1,
        RoomType::Fight { .. } => 2,
        RoomType::BossFight => 3,
        RoomType::Empty => 4,
    }
}

/// The zombie pirate party of a monster-party room.
pub open spec fn is_zombie_party(rt: RoomType) -> bool {
    &&& rt is Fight
    &&& rt->Fight_partyname@ == "a horde of zombie pirates!"@
    &&& rt->Fight_monsters@.len() == 3
    &&& forall|k: int| 0 <= k < 3 ==> {
        let m = #[trigger] rt->Fight_monsters@[k];
        m.name@ == "Zombie Pirate"@ && m.difficulty == 200 && m.hp == 3 && m.maxhp == 3
    }
}

impl Room {
    /// A fresh, uncleared room with a randomly drawn theme.
    pub fn new_room(rng: &mut RandomSource) -> (r: Room)
        ensures
            !r.complete,
            room_kind(r.room_type) <= 2,
            r.room_type is Fight ==> is_zombie_party(r.room_type),
            *old(rng) is Seeded ==> *final(rng) is Seeded,
            *old(rng) is Fixed ==> *final(rng) == *old(rng)
                && room_kind(r.room_type) == drawn_room_kind(old(rng).fixed_draw(ROOM_DRAW)),
    {
        let x = rng.below(ROOM_DRAW);
        let room_type = if x <= 1 {
            RoomType::Arcane
        } else if x <= 4 {
            RoomType::Trapped
        } else {
            let mut monsters: Vec<Monster> = Vec::new();
            let mut k: usize = 0;
            while k < 3
                invariant
                    k <= 3,
                    monsters@.len() == k,
                    forall|j: int| 0 <= j < k ==> {
                        let m = #[trigger] monsters@[j];
                        m.name@ == "Zombie Pirate"@ && m.difficulty == 200 && m.hp == 3 && m.maxhp == 3
                    },
                decreases 3 - k,
            {
                monsters.push(Monster { name: String::from_str("Zombie Pirate"), difficulty: 200, hp: 3, maxhp: 3 });
                k = k + 1;
            }
            RoomType::Fight { monsters, partyname: String::from_str("a horde of zombie pirates!") }
        };
        Room { complete: false, room_type }
    }
}

/// A stat check on a hazard room, as trapped and arcane rooms schedule it:
/// the acting delver rolls `stat` against `difficulty`; success clears the
/// room, failure deals `damage` to the game's random victim.
pub open spec fn is_hazard_roll(
    e: Event,
    game: Game,
    room: Entity,
    delver: Entity,
    difficulty: u32,
    stat: Stats,
    damage: i8,
    attempt: Seq<char>,
    success_text: Seq<char>,
    fail_text: Seq<char>,
) -> bool {
    let victim = Entity::Delver { index: game.rand_target };
    &&& e.target is Nothing && e.source is Nothing
    &&& says(e.message, game.name_of(delver) + attempt)
    &&& e.event_type is Roll
    &&& e.event_type->Roll_difficulty == difficulty
    &&& e.event_type->Roll_stat == stat
    &&& e.event_type->Roll_outcomes.success@.len() == 1
    &&& e.event_type->Roll_outcomes.success@[0].event_type is ClearRoom
    &&& e.event_type->Roll_outcomes.success@[0].source == delver
    &&& e.event_type->Roll_outcomes.success@[0].target == room
    &&& says(e.event_type->Roll_outcomes.success@[0].message, game.name_of(delver) + success_text)
    &&& e.event_type->Roll_outcomes.fail@.len() == 1
    &&& e.event_type->Roll_outcomes.fail@[0].event_type == EventType::Damage(damage)
    &&& e.event_type->Roll_outcomes.fail@[0].source == room
    &&& e.event_type->Roll_outcomes.fail@[0].target == victim
    &&& says(e.event_type->Roll_outcomes.fail@[0].message, game.name_of(victim) + fail_text)
}

/// A room-clear event credited to `delver`.
pub open spec fn clear_event(delver: Entity, room: Entity) -> Event {
    Event { event_type: EventType::ClearRoom, source: delver, target: room, message: Message::Nothing }
}

/// `q1` is `q0` with one hazard roll pushed.
pub open spec fn pushed_hazard(
    q0: Seq<Event>,
    q1: Seq<Event>,
    game: Game,
    room: Entity,
    delver: Entity,
    difficulty: u32,
    stat: Stats,
    damage: i8,
    attempt: Seq<char>,
    success_text: Seq<char>,
    fail_text: Seq<char>,
) -> bool {
    &&& q1.len() == q0.len() + 1
    &&& q1.drop_last() == q0
    &&& is_hazard_roll(q1.last(), game, room, delver, difficulty, stat, damage, attempt, success_text, fail_text)
}

/// `q1` is `q0` with a monster party scheduled: the room-clear first, then
/// one spawn per monster, the first one (which resolves last) narrating the
/// encounter.
pub open spec fn pushed_party(
    q0: Seq<Event>,
    q1: Seq<Event>,
    room: Entity,
    delver: Entity,
    monsters: Seq<Monster>,
    partyname: Seq<char>,
) -> bool {
    &&& q1.len() == q0.len() + 1 + monsters.len()
    &&& q1.subrange(0, q0.len() as int) == q0
    &&& q1[q0.len() as int] == clear_event(delver, room)
    &&& forall|k: int| 0 <= k < monsters.len() ==> {
        let e = #[trigger] q1[q0.len() + 1 + k];
        &&& e.event_type is SpawnDefender
        &&& monsters[k].spawns_as(e.event_type->SpawnDefender_0)
        &&& e.source == room
        &&& e.target is Nothing
        &&& k == 0 ==> (e.message is Encounters && e.message->Encounters_0@ == partyname)
        &&& k > 0 ==> e.message is Nothing
    }
}

/// The events an attempt to clear a room of type `rt` schedules.
pub open spec fn clear_spec(rt: RoomType, game: Game, room: Entity, delver: Entity, q0: Seq<Event>, q1: Seq<Event>) -> bool {
    match rt {
        RoomType::Trapped => pushed_hazard(q0, q1, game, room, delver, trapped::DIFFICULTY, Stats::Fightiness,
            trapped::DAMAGE, " attempts to disarm a trap."@, " disarms the traps"@,
            " triggers a trap room, hurting themselves"@),
        RoomType::Arcane => pushed_hazard(q0, q1, game, room, delver, arcane_ward::DIFFICULTY,
            Stats::Magiciness, arcane_ward::DAMAGE, " attempts to clear an arcane ward."@,
            " clears the arcane ward"@, " is exploded by a magical ward."@),
        RoomType::BossFight => q1 == q0.push(
            Event { event_type: EventType::StartBossFight, source: room, target: Entity::Nothing, message: Message::Nothing },
        ).push(clear_event(delver, room)),
        RoomType::Fight { monsters, partyname } => pushed_party(q0, q1, room, delver, monsters@, partyname@),
        RoomType::Empty => q1 == q0.push(clear_event(delver, room)),
    }
}

impl RoomType {
    /// Schedules the events of an attempt by `delver` to clear the room.
    pub fn attempt_clear(&self, game: &Game, room: Entity, delver: Entity, queue: &mut EventQueue)
        requires
            game.wf(),
            delver is Delver,
            character_ok(delver, game.defender_count()),
            entity_ok(room, game.defender_count()),
        ensures
            clear_spec(*self, *game, room, delver, old(queue).events@, final(queue).events@),
            forall|i: int| old(queue).events@.len() <= i < final(queue).events@.len()
                ==> event_ok(#[trigger] final(queue).events@[i], game.defender_count()),
            final(queue).events@.subrange(0, old(queue).events@.len() as int) == old(queue).events@,
    {
        let ghost q0 = queue.events@;
        match self {
            RoomType::Arcane => arcane_ward::attempt_clear(game, room, delver, queue),
            RoomType::Trapped => trapped::attempt_clear(game, room, delver, queue),
            RoomType::BossFight => bossfight::attempt_clear(game, room, delver, queue),
            RoomType::Fight { monsters, partyname } => fight::attempt_clear(
                game,
                room,
                delver,
                queue,
                monsters,
                partyname.clone(),
            ),
            RoomType::Empty => {
                queue.push(Event { event_type: EventType::ClearRoom, source: delver, target: room, message: Message::Nothing });
            },
        }
        assert(queue.events@.subrange(0, q0.len() as int) =~= q0);
    }

    /// The attribute that governs the room's clear attempt.
    pub fn base_stat(&self) -> (r: Stats)
        ensures
            r == spec_base_stat(*self),
    {
        match self {
            RoomType::Arcane => arcane_ward::base_stat(),
            RoomType::Trapped => trapped::base_stat(),
            RoomType::BossFight => bossfight::base_stat(),
            RoomType::Fight { .. } => fight::base_stat(),
            RoomType::Empty => Stats::Exploriness,
        }
    }
}

pub open spec fn spec_base_stat(rt: RoomType) -> Stats {
    match rt {
        RoomType::Arcane => Stats::Magiciness,
        RoomType::Empty => Stats::Exploriness,
        _ => Stats::Fightiness,
    }
}

/// A grid position.
#[derive(Clone, Copy, Debug, PartialEq, Eq, Structural)]
pub struct Coordinate(pub i8, pub i8);

impl Coordinate {
    /// Component-wise sum.
    pub fn add(self, other: Coordinate) -> (r: Coordinate)
        requires
            i8::MIN <= self.0 + other.0 <= i8::MAX,
            i8::MIN <= self.1 + other.1 <= i8::MAX,
        ensures
            r.0 == self.0 + other.0,
            r.1 == self.1 + other.1,
    {
        Coordinate(self.0 + other.0, self.1 + other.1)
    }
}

} // verus!
