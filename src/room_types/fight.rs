use vstd::prelude::*;
use crate::combat::Monster;
use crate::entities::{Entity, Stats};
use crate::events::{Event, EventType, EventQueue, event_ok, entity_ok, character_ok};
use crate::messaging::Message;
use crate::room_types::{pushed_party, clear_event};
use crate::sim::Game;

verus! {

/// Clears the room at once and spawns its monster party; the first monster's
/// spawn, which resolves last, narrates the encounter.
pub fn attempt_clear(
    game: &Game,
    room: Entity,
    delver: Entity,
    queue: &mut EventQueue,
    monsters: &Vec<Monster>,
    partyname: String,
)
    requires
        game.wf(),
        character_ok(delver, game.defender_count()),
        entity_ok(room, game.defender_count()),
    ensures
        pushed_party(old(queue).events@, final(queue).events@, room, delver, monsters@, partyname@),
        forall|i: int| old(queue).events@.len() <= i < final(queue).events@.len()
            ==> event_ok(#[trigger] final(queue).events@[i], game.defender_count()),
{
    let ghost q0 = queue.events@;
    let ghost nf = game.defender_count();
    queue.push(Event { event_type: EventType::ClearRoom, source: delver, target: room, message: Message::Nothing });
    let ghost party = partyname@;
    let mut pending_name = Some(partyname);
    let mut k: usize = 0;
    while k < monsters.len()
        invariant
            queue.events@.len() == q0.len() + 1 + k,
            k <= monsters.len(),
            queue.events@.subrange(0, q0.len() as int) == q0,
            queue.events@[q0.len() as int] == clear_event(delver, room),
            k == 0 ==> pending_name is Some && pending_name->0@ == party,
            party == partyname@,
            entity_ok(room, nf),
            nf == game.defender_count(),
            character_ok(delver, nf),
            forall|j: int| 0 <= j < k ==> {
                let e = #[trigger] queue.events@[q0.len() + 1 + j];
                &&& e.event_type is SpawnDefender
                &&& monsters@[j].spawns_as(e.event_type->SpawnDefender_0)
                &&& e.source == room
                &&& e.target is Nothing
                &&& j == 0 ==> (e.message is Encounters && e.message->Encounters_0@ == partyname@)
                &&& j > 0 ==> e.message is Nothing
            },
            forall|i: int| q0.len() <= i < queue.events@.len() ==> event_ok(#[trigger] queue.events@[i], nf),
        decreases monsters.len() - k,
    {
        let defender = monsters[k].duplicate().to_game_defender();
        let message = if k == 0 {
            match pending_name.take() {
                Some(name) => Message::Encounters(name),
                None => Message::Nothing,
            }
        } else {
            Message::Nothing
        };
        let ghost before = queue.events@;
        queue.push(Event { event_type: EventType::SpawnDefender(defender), source: room, target: Entity::Nothing, message });
        assert(queue.events@.subrange(0, q0.len() as int) =~= before.subrange(0, q0.len() as int));
        k = k + 1;
    }
}

pub fn base_stat() -> (r: Stats)
    ensures
        r == Stats::Fightiness,
{
    Stats::Fightiness
}

} // verus!
