use vstd::prelude::*;
use crate::entities::{Entity, Stats};
use crate::events::{Event, EventType, EventQueue, Outcomes, event_ok, entity_ok, character_ok};
use crate::messaging::Message;
use crate::room_types::pushed_hazard;
use crate::sim::Game;

verus! {

/// Difficulty of clearing an arcane ward, in thousandths.
pub const DIFFICULTY: u32 = 900;
/// Damage a failed ward attempt deals.
pub const DAMAGE: i8 = 2;

/// Schedules a magic roll to clear the ward; failure hurts the game's random victim.
pub fn attempt_clear(game: &Game, room: Entity, delver: Entity, queue: &mut EventQueue)
    requires
        game.wf(),
        delver is Delver,
        character_ok(delver, game.defender_count()),
        entity_ok(room, game.defender_count()),
    ensures
        pushed_hazard(old(queue).events@, final(queue).events@, *game, room, delver, DIFFICULTY,
            Stats::Magiciness, DAMAGE, " attempts to clear an arcane ward."@, " clears the arcane ward"@,
            " is exploded by a magical ward."@),
        event_ok(final(queue).events@.last(), game.defender_count()),
{
    let ghost q0 = queue.events@;
    let trigger_delver = Entity::Delver { index: game.rand_target };
    let message = Message::Custom(delver.to_string(game).concat(" clears the arcane ward"));
    let mut success: Vec<Event> = Vec::new();
    success.push(Event { event_type: EventType::ClearRoom, source: delver, target: room, message });
    let message = Message::Custom(trigger_delver.to_string(game).concat(" is exploded by a magical ward."));
    let mut fail: Vec<Event> = Vec::new();
    fail.push(Event { event_type: EventType::Damage(DAMAGE), source: room, target: trigger_delver, message });
    assert(event_ok(success@[0], game.defender_count()));
    assert(event_ok(fail@[0], game.defender_count()));
    let outcomes = Outcomes { success, fail };
    let message = Message::Custom(delver.to_string(game).concat(" attempts to clear an arcane ward."));
    let event = Event::type_and_message(EventType::Roll { difficulty: DIFFICULTY, stat: base_stat(), outcomes }, message);
    queue.push(event);
    assert(queue.events@.drop_last() =~= q0);
}

pub fn base_stat() -> (r: Stats)
    ensures
        r == Stats::Magiciness,
{
    Stats::Magiciness
}

} // verus!
