use vstd::prelude::*;
use crate::entities::{Entity, Stats};
use crate::events::{Event, EventType, EventQueue, event_ok};
use crate::messaging::Message;
use crate::sim::Game;

verus! {

/// Flat bonus, in thousandths, that a trail blazer adds to exploration reads.
pub const TRAIL_BLAZER_BONUS: u32 = 300;

/// Chance, in thousandths, that a phoenix is reborn.
pub const PHOENIX_CHANCE: u32 = 250;
/// Healing a reborn phoenix receives; far above any maximum, so it refills.
pub const PHOENIX_HEAL: i8 = 100;
/// Self-heal of a cheese-thirsty killer.
pub const CHEESE_HEAL: i8 = 2;
/// Chance, in thousandths, that a trail blazer escapes its burns.
pub const TRAIL_BLAZER_SAFE_CHANCE: u32 = 500;

/// How a modifier's holder relates to the event being resolved.
#[derive(Clone, Copy, Debug, PartialEq, Eq, Structural)]
pub enum ModRelation {
    Target,
    Source,
    Team,
}

/// The closed catalogue of modifiers a character can carry.
#[derive(Clone, Copy, Debug, PartialEq, Eq, Structural)]
pub enum BaseModifier {
    /// On its holder's death: a one-in-four chance of rebirth at full health.
    Pheonix,
    /// When its holder lands a killing blow: a small self-heal.
    CheeseThirst,
    /// When its holder leads a delve: flavour and a coin-flip of minor burns;
    /// exploration reads get a flat bonus.
    TrailBlazer,
    /// Damage taken by its holder is one point higher.
    DoubleOrNothing,
}

/// `v + d`, held at `u32::MAX`.
pub open spec fn saturating_sum(v: u32, d: u32) -> u32 {
    if v + d > u32::MAX {
        u32::MAX
    } else {
        (v + d) as u32
    }
}

impl BaseModifier {
    pub open spec fn spec_get_stat(self, stat: Stats, value: u32) -> u32 {
        match self {
            BaseModifier::TrailBlazer => if stat is Exploriness {
                saturating_sum(value, TRAIL_BLAZER_BONUS)
            } else {
                value
            },
            _ => value,
        }
    }

    /// The stat-read hook: transforms a raw stat value.
    pub fn get_stat(&self, stat: Stats, statvalue: u32) -> (r: u32)
        ensures
            r == self.spec_get_stat(stat, statvalue),
    {
        match self {
            BaseModifier::TrailBlazer => match stat {
                Stats::Exploriness => statvalue.saturating_add(TRAIL_BLAZER_BONUS),
                _ => statvalue,
            },
            _ => statvalue,
        }
    }
}

/// Folds every modifier's stat-read hook over `value`, in attachment order.
pub open spec fn fold_mods(mods: Seq<BaseModifier>, stat: Stats, value: u32) -> u32
    decreases mods.len(),
{
    if mods.len() == 0 {
        value
    } else {
        mods.last().spec_get_stat(stat, fold_mods(mods.drop_last(), stat, value))
    }
}

/// Reads a stat through a list of modifiers.
pub fn apply_stat_mods(mods: &Vec<BaseModifier>, stat: Stats, value: u32) -> (r: u32)
    ensures
        r == fold_mods(mods@, stat, value),
{
    let mut v = value;
    let mut i: usize = 0;
    while i < mods.len()
        invariant
            i <= mods.len(),
            v == fold_mods(mods@.subrange(0, i as int), stat, value),
        decreases mods.len() - i,
    {
        assert(mods@.subrange(0, i + 1).drop_last() =~= mods@.subrange(0, i as int));
        v = mods[i].get_stat(stat, v);
        i = i + 1;
    }
    assert(mods@.subrange(0, mods.len() as int) =~= mods@);
    v
}

/// An element-by-element copy of a modifier list.
pub fn copy_mods(mods: &Vec<BaseModifier>) -> (r: Vec<BaseModifier>)
    ensures
        r@ == mods@,
{
    let mut r: Vec<BaseModifier> = Vec::new();
    let mut i: usize = 0;
    while i < mods.len()
        invariant
            i <= mods.len(),
            r@ == mods@.subrange(0, i as int),
        decreases mods.len() - i,
    {
        r.push(mods[i]);
        i = i + 1;
    }
    assert(mods@.subrange(0, mods.len() as int) =~= mods@);
    r
}


/// A modifier gathered for one event, with its holder's role in it.
#[derive(Clone, Copy, Debug, PartialEq, Eq, Structural)]
pub struct ModToApply {
    pub modifier: BaseModifier,
    pub relation: ModRelation,
}

/// What a modifier's replace hook makes of an event.
pub enum ReplaceOutcomes {
    /// Cancel the event.
    Stop,
    /// Go on with this event (possibly the one given).
    Event { event: Event },
    /// Go on with `success` with probability `chance / SCALE`, else with `fail`.
    Chance { chance: u32, success: Event, fail: Event },
}

/// A literal line of narration.
pub open spec fn says(m: Message, text: Seq<char>) -> bool {
    m is Custom && m->Custom_0@ == text
}

/// A delver or a defender.
pub open spec fn is_character(e: Entity) -> bool {
    e is Delver || e is Defender
}

/// What each modifier's replace hook does.
pub open spec fn replace_spec(m: BaseModifier, event: Event, relation: ModRelation, game: Game, r: ReplaceOutcomes) -> bool {
    match m {
        BaseModifier::Pheonix => if relation is Target && event.event_type is Death && is_character(event.target) {
            &&& r is Chance
            &&& r->Chance_chance == PHOENIX_CHANCE
            &&& r->Chance_success.event_type == EventType::Heal(PHOENIX_HEAL)
            &&& r->Chance_success.target == event.target
            &&& r->Chance_success.source == event.target
            &&& says(r->Chance_success.message,
                game.name_of(event.target) + "'s Pheonix activates. They are reborn from their ashes!"@)
            &&& r->Chance_fail.event_type == event.event_type
            &&& r->Chance_fail.target == event.target
            &&& r->Chance_fail.source == event.source
            &&& says(r->Chance_fail.message,
                game.name_of(event.target) + "'s Pheonix fails. Their ashes scatter to the wind."@)
        } else {
            r == ReplaceOutcomes::Event { event }
        },
        BaseModifier::TrailBlazer => if relation is Source && event.event_type is Delve && is_character(event.source) {
            &&& r is Event
            &&& r->Event_event.event_type == event.event_type
            &&& r->Event_event.target == event.target
            &&& r->Event_event.source == event.source
            &&& says(r->Event_event.message, game.name_of(event.source) + " burns a trail forward."@)
        } else {
            r == ReplaceOutcomes::Event { event }
        },
        BaseModifier::DoubleOrNothing => if relation is Target && event.event_type is Damage {
            &&& r is Event
            &&& r->Event_event.event_type == EventType::Damage(
                if event.event_type->Damage_0 == i8::MAX { i8::MAX } else { (event.event_type->Damage_0 + 1) as i8 },
            )
            &&& r->Event_event.target == event.target
            &&& r->Event_event.source == event.source
            &&& r->Event_event.message == event.message
        } else {
            r == ReplaceOutcomes::Event { event }
        },
        BaseModifier::CheeseThirst => r == ReplaceOutcomes::Event { event },
    }
}

/// What each modifier's pre hook schedules: `added` is pushed, in order, before the event applies.
pub open spec fn pre_spec(m: BaseModifier, event: Event, relation: ModRelation, game: Game, added: Seq<Event>) -> bool {
    if m is CheeseThirst && relation is Source && event.event_type is Death && is_character(event.source) {
        &&& added.len() == 1
        &&& added[0].event_type == EventType::Heal(CHEESE_HEAL)
        &&& added[0].target == event.source
        &&& added[0].source == event.source
        &&& says(added[0].message, game.name_of(event.source) + " devours their cheese"@)
    } else if m is TrailBlazer && relation is Source && event.event_type is Delve && is_character(event.source) {
        &&& added.len() == 1
        &&& added[0].target is Nothing && added[0].source is Nothing && added[0].message is Nothing
        &&& added[0].event_type is Chance
        &&& added[0].event_type->Chance_chance == TRAIL_BLAZER_SAFE_CHANCE
        &&& added[0].event_type->Chance_success.event_type is Cancelled
        &&& added[0].event_type->Chance_fail.event_type == EventType::Damage(1)
        &&& added[0].event_type->Chance_fail.target == event.source
        &&& added[0].event_type->Chance_fail.source == event.source
        &&& says(added[0].event_type->Chance_fail.message, game.name_of(event.source) + " burns up slightly."@)
    } else {
        added.len() == 0
    }
}

/// Every event a replace hook can continue with.
pub open spec fn outcome_events_ok(r: ReplaceOutcomes, nf: nat) -> bool {
    match r {
        ReplaceOutcomes::Stop => true,
        ReplaceOutcomes::Event { event } => event_ok(event, nf),
        ReplaceOutcomes::Chance { success, fail, .. } => event_ok(success, nf) && event_ok(fail, nf),
    }
}

impl BaseModifier {
    /// The replace hook: may substitute, cancel or branch the event.
    pub fn replace_event(&self, event: Event, relation: ModRelation, game: &Game) -> (r: ReplaceOutcomes)
        requires
            game.wf(),
            event_ok(event, game.defender_count()),
        ensures
            replace_spec(*self, event, relation, *game, r),
            outcome_events_ok(r, game.defender_count()),
    {
        match self {
            BaseModifier::Pheonix => {
                if relation == ModRelation::Target && event.target.is_character() {
                    if let EventType::Death = event.event_type {
                        let target_name = event.target.to_string(game);
                        let message = Message::Custom(
                            target_name.clone().concat("'s Pheonix activates. They are reborn from their ashes!"),
                        );
                        let success = Event {
                            event_type: EventType::Heal(PHOENIX_HEAL),
                            target: event.target,
                            source: event.target,
                            message,
                        };
                        let message = Message::Custom(
                            target_name.concat("'s Pheonix fails. Their ashes scatter to the wind."),
                        );
                        let mut fail = event;
                        fail.message = message;
                        return ReplaceOutcomes::Chance { chance: PHOENIX_CHANCE, success, fail };
                    }
                }
                ReplaceOutcomes::Event { event }
            },
            BaseModifier::TrailBlazer => {
                if relation == ModRelation::Source && event.source.is_character() {
                    if let EventType::Delve = event.event_type {
                        let message = Message::Custom(event.source.to_string(game).concat(" burns a trail forward."));
                        let mut event = event;
                        event.message = message;
                        return ReplaceOutcomes::Event { event };
                    }
                }
                ReplaceOutcomes::Event { event }
            },
            BaseModifier::DoubleOrNothing => {
                if relation == ModRelation::Target {
                    if let EventType::Damage(amount) = event.event_type {
                        let amount = if amount == i8::MAX { i8::MAX } else { amount + 1 };
                        let mut event = event;
                        event.event_type = EventType::Damage(amount);
                        return ReplaceOutcomes::Event { event };
                    }
                }
                ReplaceOutcomes::Event { event }
            },
            BaseModifier::CheeseThirst => ReplaceOutcomes::Event { event },
        }
    }

    /// The pre hook: schedules side-effect events without altering the event.
    pub fn pre_event(&self, event: &Event, relation: ModRelation, game: &Game, queue: &mut EventQueue)
        requires
            game.wf(),
            event_ok(*event, game.defender_count()),
        ensures
            final(queue).events@.subrange(0, old(queue).events@.len() as int) == old(queue).events@,
            final(queue).events@.len() >= old(queue).events@.len(),
            pre_spec(*self, *event, relation, *game,
                final(queue).events@.subrange(old(queue).events@.len() as int, final(queue).events@.len() as int)),
            forall|i: int| old(queue).events@.len() <= i < final(queue).events@.len()
                ==> event_ok(#[trigger] final(queue).events@[i], game.defender_count()),
    {
        let ghost q0 = queue.events@;
        match self {
            BaseModifier::CheeseThirst => {
                if relation == ModRelation::Source && event.source.is_character() {
                    if let EventType::Death = event.event_type {
                        let message = Message::Custom(event.source.to_string(game).concat(" devours their cheese"));
                        let heal = Event {
                            event_type: EventType::Heal(CHEESE_HEAL),
                            target: event.source,
                            source: event.source,
                            message,
                        };
                        queue.push(heal);
                    }
                }
            },
            BaseModifier::TrailBlazer => {
                if relation == ModRelation::Source && event.source.is_character() {
                    if let EventType::Delve = event.event_type {
                        let success = Event::cancelled();
                        let message = Message::Custom(event.source.to_string(game).concat(" burns up slightly."));
                        let fail = Event {
                            event_type: EventType::Damage(1),
                            target: event.source,
                            source: event.source,
                            message,
                        };
                        assert(event_ok(success, game.defender_count()));
                        assert(event_ok(fail, game.defender_count()));
                        let branch = Event::type_only(
                            EventType::Chance { chance: TRAIL_BLAZER_SAFE_CHANCE, success: Box::new(success), fail: Box::new(fail) },
                        );
                        assert(event_ok(branch, game.defender_count()));
                        queue.push(branch);
                    }
                }
            },
            _ => {},
        }
        assert(queue.events@.subrange(0, q0.len() as int) =~= q0);
    }
}

} // verus!
