use vstd::prelude::*;
use crate::entities::{Entity, Stats};
use crate::events::{Event, EventType, EventQueue, Outcomes, event_ok, entity_ok, character_ok};
use crate::messaging::Message;
use crate::room_types::pushed_hazard;
use crate::sim::Game;

verus! {

/// Difficulty of disarming a trap, in thousandths.
pub const DIFFICULTY: u32 = 800;
/// Damage a triggered trap deals.
pub const DAMAGE: i8 = 1;

/// Schedules a fighting roll to disarm the trap; failure hurts the game's random victim.
pub fn attempt_clear(game: &Game, room: Entity, delver: Entity, queue: &mut EventQueue)
    requires
        game.wf(),
        delver is Delver,
        character_ok(delver, game.defender_count()),
        entity_ok(room, game.defender_count()),
    ensures
        pushed_hazard(old(queue).events@, final(queue).events@, *game, room, delver, DIFFICULTY,
            Stats::Fightiness, DAMAGE, " attempts to disarm a trap."@, " disarms the traps"@,
            " triggers a trap room, hurting themselves"@),
        event_ok(final(queue).events@.last(), game.defender_count()),
{
    let ghost q0 = queue.events@;
    let trigger_delver = Entity::Delver { index: game.rand_target };
    let message = Message::Custom(delver.to_string(game).concat(" disarms the traps"));
    let mut success: Vec<Event> = Vec::new();
    success.push(Event { event_type: EventType::ClearRoom, source: delver, target: room, message });
    let message = Message::Custom(trigger_delver.to_string(game).concat(" triggers a trap room, hurting themselves"));
    let mut fail: Vec<Event> = Vec::new();
    fail.push(Event { event_type: EventType::Damage(DAMAGE), source: room, target: trigger_delver, message });
    assert(event_ok(success@[0], game.defender_count()));
    assert(event_ok(fail@[0], game.defender_count()));
    let outcomes = Outcomes { success, fail };
    let message = Message::Custom(delver.to_string(game).concat(" attempts to disarm a trap."));
    let event = Event::type_and_message(EventType::Roll { difficulty: DIFFICULTY, stat: base_stat(), outcomes }, message);
    queue.push(event);
    assert(queue.events@.drop_last() =~= q0);
}

pub fn base_stat() -> (r: Stats)
    ensures
        r == Stats::Fightiness,
{
    Stats::Fightiness
}

} // verus!
