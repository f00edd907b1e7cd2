use vstd::prelude::*;
use crate::entities::{Entity, Stats};
use crate::events::{Event, EventType, EventQueue, event_ok, entity_ok, character_ok};
use crate::messaging::Message;
use crate::room_types::clear_event;
use crate::sim::Game;

verus! {

/// Schedules the boss fight and the room's clearing; no roll.
pub fn attempt_clear(game: &Game, room: Entity, delver: Entity, queue: &mut EventQueue)
    requires
        game.wf(),
        character_ok(delver, game.defender_count()),
        entity_ok(room, game.defender_count()),
    ensures
        final(queue).events@ == old(queue).events@.push(
            Event { event_type: EventType::StartBossFight, source: room, target: Entity::Nothing, message: Message::Nothing },
        ).push(clear_event(delver, room)),
        event_ok(final(queue).events@.last(), game.defender_count()),
        event_ok(final(queue).events@.drop_last().last(), game.defender_count()),
{
    queue.push(Event { event_type: EventType::StartBossFight, source: room, target: Entity::Nothing, message: Message::Nothing });
    queue.push(Event { event_type: EventType::ClearRoom, source: delver, target: room, message: Message::Nothing });
}

pub fn base_stat() -> (r: Stats)
    ensures
        r == Stats::Fightiness,
{
    Stats::Fightiness
}

} // verus!
