use vstd::prelude::*;
use crate::entities::Entity;
use crate::events::{Event, EventType, character_ok};
use crate::messaging::Message;
use crate::modifiers::ReplaceOutcomes;
use crate::sim::Game;

verus! {

/// An entity named relative to the event that triggers a modifier.
#[derive(Clone, Copy, Debug, PartialEq, Eq, Structural)]
pub enum GenericEntity {
    Source,
    Target,
    Nothing,
}

/// A piece of narration: a literal phrase or the name of an entity.
pub enum GenericString {
    Phrase(String),
    EntityName(GenericEntity),
}

/// A fixed message, or pieces assembled against the triggering event.
pub enum GenericMessage {
    Default(Message),
    Custom(Vec<GenericString>),
}

/// An event described relative to the event that triggers a modifier.
pub struct GenericEvent {
    pub target: GenericEntity,
    pub source: GenericEntity,
    pub message: GenericMessage,
    pub event_type: EventType,
}

/// A replace rule of a data-described modifier, for events of the kind of `event_type`.
pub enum GenericReplace {
    AlwaysReplace { event_type: EventType, replace_with: GenericEvent },
    ChanceReplace { event_type: EventType, replace_with: GenericEvent, else_message: GenericMessage, chance: u32 },
}

/// A pre rule of a data-described modifier.
pub enum GenericPre {
    AlwaysEvent(GenericEvent),
    ChanceEvent(GenericEvent, GenericEvent, u32),
}

/// A modifier described by data rather than code.
pub struct GenericModifier {
    pub replaces: Vec<GenericReplace>,
    pub pres: Vec<GenericPre>,
}

/// The variant of an event type, ignoring its payload.
pub open spec fn kind_of(t: EventType) -> int {
    match t {
        EventType::Damage(_) => 0,
        EventType::Heal(_) => 1,
        EventType::Delve => 2,
        EventType::Death => 3,
        EventType::EndGame => 4,
        EventType::Log => 5,
        EventType::Roll { .. } => 6,
        EventType::Chance { .. } => 7,
        EventType::ClearRoom => 8,
        EventType::StartBossFight => 9,
        EventType::SpawnDefender(_) => 10,
        EventType::Tick => 11,
        EventType::Cancelled => 12,
    }
}

impl EventType {
    pub fn kind(&self) -> (r: u8)
        ensures
            r == kind_of(*self),
    {
        match self {
            EventType::Damage(_) => 0,
            EventType::Heal(_) => 1,
            EventType::Delve => 2,
            EventType::Death => 3,
            EventType::EndGame => 4,
            EventType::Log => 5,
            EventType::Roll { .. } => 6,
            EventType::Chance { .. } => 7,
            EventType::ClearRoom => 8,
            EventType::StartBossFight => 9,
            EventType::SpawnDefender(_) => 10,
            EventType::Tick => 11,
            EventType::Cancelled => 12,
        }
    }
}

pub open spec fn spec_to_entity(g: GenericEntity, ev: Event) -> Entity {
    match g {
        GenericEntity::Target => ev.target,
        GenericEntity::Source => ev.source,
        GenericEntity::Nothing => Entity::Nothing,
    }
}

impl GenericEntity {
    pub fn to_entity(&self, triggering_event: &Event) -> (r: Entity)
        ensures
            r == spec_to_entity(*self, *triggering_event),
    {
        match self {
            GenericEntity::Target => triggering_event.target,
            GenericEntity::Source => triggering_event.source,
            GenericEntity::Nothing => Entity::Nothing,
        }
    }
}

/// Every entity the piece names is a character in range.
pub open spec fn piece_ok(s: GenericString, ev: Event, nf: nat) -> bool {
    match s {
        GenericString::EntityName(g) => character_ok(spec_to_entity(g, ev), nf),
        _ => true,
    }
}

pub open spec fn piece_text(s: GenericString, ev: Event, game: Game) -> Seq<char> {
    match s {
        GenericString::Phrase(p) => p@,
        GenericString::EntityName(g) => game.name_of(spec_to_entity(g, ev)),
    }
}

/// The pieces' texts, concatenated in order.
pub open spec fn pieces_text(ps: Seq<GenericString>, ev: Event, game: Game) -> Seq<char>
    decreases ps.len(),
{
    if ps.len() == 0 {
        Seq::empty()
    } else {
        pieces_text(ps.drop_last(), ev, game) + piece_text(ps.last(), ev, game)
    }
}

pub open spec fn generic_message_ok(m: GenericMessage, ev: Event, nf: nat) -> bool {
    match m {
        GenericMessage::Custom(ps) => forall|i: int| 0 <= i < ps.len() ==> piece_ok(#[trigger] ps@[i], ev, nf),
        _ => true,
    }
}

impl GenericString {
    pub fn to_string(&self, triggering_event: &Event, game: &Game) -> (r: String)
        requires
            game.wf(),
            piece_ok(*self, *triggering_event, game.defender_count()),
        ensures
            r@ == piece_text(*self, *triggering_event, *game),
    {
        match self {
            GenericString::Phrase(p) => p.clone(),
            GenericString::EntityName(entity) => entity.to_entity(triggering_event).to_string(game),
        }
    }
}

impl GenericMessage {
    pub fn to_message(self, triggering_event: &Event, game: &Game) -> (r: Message)
        requires
            game.wf(),
            generic_message_ok(self, *triggering_event, game.defender_count()),
        ensures
            self is Default ==> r == self->Default_0,
            self is Custom ==> r is Custom && r->Custom_0@ == pieces_text(self->Custom_0@, *triggering_event, *game),
    {
        match self {
            GenericMessage::Default(message) => message,
            GenericMessage::Custom(strings) => {
                let mut base = String::new();
                let mut i: usize = 0;
                while i < strings.len()
                    invariant
                        i <= strings.len(),
                        game.wf(),
                        forall|j: int| 0 <= j < strings.len() ==> piece_ok(#[trigger] strings@[j], *triggering_event, game.defender_count()),
                        base@ == pieces_text(strings@.subrange(0, i as int), *triggering_event, *game),
                    decreases strings.len() - i,
                {
                    assert(strings@.subrange(0, i + 1).drop_last() =~= strings@.subrange(0, i as int));
                    let piece = strings[i].to_string(triggering_event, game);
                    base.append(piece.as_str());
                    i = i + 1;
                }
                assert(strings@.subrange(0, strings.len() as int) =~= strings@);
                Message::Custom(base)
            },
        }
    }
}

impl GenericEvent {
    pub fn to_event(self, triggering_event: &Event, game: &Game) -> (r: Event)
        requires
            game.wf(),
            generic_message_ok(self.message, *triggering_event, game.defender_count()),
        ensures
            r.target == spec_to_entity(self.target, *triggering_event),
            r.source == spec_to_entity(self.source, *triggering_event),
            r.event_type == self.event_type,
            self.message is Default ==> r.message == self.message->Default_0,
            self.message is Custom ==> r.message is Custom && r.message->Custom_0@ == pieces_text(
                self.message->Custom_0@,
                *triggering_event,
                *game,
            ),
    {
        Event {
            target: self.target.to_entity(triggering_event),
            source: self.source.to_entity(triggering_event),
            message: self.message.to_message(triggering_event, game),
            event_type: self.event_type,
        }
    }
}

/// The rule's event and messages name only characters in range.
pub open spec fn generic_replace_ok(modifier: GenericReplace, ev: Event, nf: nat) -> bool {
    match modifier {
        GenericReplace::AlwaysReplace { replace_with, .. } => generic_message_ok(replace_with.message, ev, nf),
        GenericReplace::ChanceReplace { replace_with, else_message, .. } => generic_message_ok(
            replace_with.message,
            ev,
            nf,
        ) && generic_message_ok(else_message, ev, nf),
    }
}

/// The event a rule's description makes of the triggering event, up to its message.
pub open spec fn made_from(e: Event, g: GenericEvent, ev: Event) -> bool {
    &&& e.event_type == g.event_type
    &&& e.target == spec_to_entity(g.target, ev)
    &&& e.source == spec_to_entity(g.source, ev)
}

/// What applying a replace rule gives.
pub open spec fn generic_replace_spec(ev: Event, modifier: GenericReplace, r: ReplaceOutcomes) -> bool {
    match modifier {
        GenericReplace::AlwaysReplace { event_type, replace_with } => if kind_of(event_type) == kind_of(
            ev.event_type,
        ) {
            r is Event && made_from(r->Event_event, replace_with, ev)
        } else {
            r == ReplaceOutcomes::Event { event: ev }
        },
        GenericReplace::ChanceReplace { event_type, replace_with, chance, .. } => if kind_of(event_type)
            == kind_of(ev.event_type) {
            &&& r is Chance
            &&& r->Chance_chance == chance
            &&& made_from(r->Chance_success, replace_with, ev)
            &&& r->Chance_fail.event_type == ev.event_type
            &&& r->Chance_fail.target == ev.target
            &&& r->Chance_fail.source == ev.source
        } else {
            r == ReplaceOutcomes::Event { event: ev }
        },
    }
}

/// Applies one replace rule: it fires on an event of the rule's kind. An
/// always-rule substitutes its event; a chance-rule branches between its
/// event and the triggering one with its message rewritten.
pub fn apply_generic_replace(triggering_event: Event, modifier: GenericReplace, game: &Game) -> (r: ReplaceOutcomes)
    requires
        game.wf(),
        generic_replace_ok(modifier, triggering_event, game.defender_count()),
    ensures
        generic_replace_spec(triggering_event, modifier, r),
{
    match modifier {
        GenericReplace::AlwaysReplace { event_type, replace_with } => {
            if event_type.kind() == triggering_event.event_type.kind() {
                let event = replace_with.to_event(&triggering_event, game);
                return ReplaceOutcomes::Event { event };
            }
        },
        GenericReplace::ChanceReplace { event_type, replace_with, else_message, chance } => {
            if event_type.kind() == triggering_event.event_type.kind() {
                let success = replace_with.to_event(&triggering_event, game);
                let message = else_message.to_message(&triggering_event, game);
                let mut fail = triggering_event;
                fail.message = message;
                return ReplaceOutcomes::Chance { chance, success, fail };
            }
        },
    }
    ReplaceOutcomes::Event { event: triggering_event }
}

/// The phoenix described as data: on a death, a one-in-four chance to heal
/// the target instead.
pub fn example_event() -> (r: GenericModifier)
    ensures
        r.replaces@.len() == 1,
        (r.replaces@[0] is ChanceReplace),
        (r.replaces@[0]->ChanceReplace_event_type is Death),
        r.replaces@[0]->ChanceReplace_chance == crate::modifiers::PHOENIX_CHANCE,
        r.replaces@[0]->ChanceReplace_replace_with.event_type == EventType::Heal(5),
        r.pres@.len() == 0,
{
    let mut replaces: Vec<GenericReplace> = Vec::new();
    let mut pieces: Vec<GenericString> = Vec::new();
    pieces.push(GenericString::EntityName(GenericEntity::Source));
    pieces.push(GenericString::Phrase(String::from_str("'s Pheonix activates. They are reborn from their ashes!")));
    let replace_with = GenericEvent {
        event_type: EventType::Heal(5),
        target: GenericEntity::Target,
        source: GenericEntity::Target,
        message: GenericMessage::Custom(pieces),
    };
    let mut pieces: Vec<GenericString> = Vec::new();
    pieces.push(GenericString::EntityName(GenericEntity::Source));
    pieces.push(GenericString::Phrase(String::from_str("'s Pheonix fails. Their ashes scatter to the wind.")));
    let else_message = GenericMessage::Custom(pieces);
    replaces.push(GenericReplace::ChanceReplace {
        event_type: EventType::Death,
        chance: crate::modifiers::PHOENIX_CHANCE,
        replace_with,
        else_message,
    });
    GenericModifier { replaces, pres: Vec::new() }
}

} // verus!
