use vstd::prelude::*;
use crate::dice::{RandomSource, SCALE};
use crate::entities::{Entity, Stats, chosen_delver};
use crate::events::{Event, EventType, Outcomes, event_ok, events_ok};
use crate::messaging::Message;
use crate::modifiers::says;
use crate::room_types::{clear_spec, spec_base_stat};
use crate::sim::{Game, Sim, roll, log_event, scaled};

verus! {

/// The step of the per-turn state machine the next tick runs.
#[derive(Clone, Copy, Debug, PartialEq, Eq, Structural)]
pub enum GamePhase {
    NotStarted,
    TurnStart,
    Encounter,
    Delve,
    Finished,
    Combat { source: Entity, target: Entity },
}

/// Damage every combat exchange and every failed navigation deals.
pub const HIT_DAMAGE: i8 = 1;
/// Chance, in thousandths, that the defenders strike first in a turn.
pub const DEFENDERS_STRIKE_CHANCE: u32 = 500;

/// The navigation roll a delve phase schedules: exploration against the
/// dungeon's length; success delves deeper, failure hurts the navigator.
pub open spec fn is_navigation_roll(e: Event, nav: Entity, lengthiness: u32) -> bool {
    &&& e.target is Nothing && e.source is Nothing
    &&& e.message == Message::BeginNavigation(nav)
    &&& e.event_type is Roll
    &&& e.event_type->Roll_difficulty == lengthiness
    &&& e.event_type->Roll_stat == Stats::Exploriness
    &&& e.event_type->Roll_outcomes.success@ == seq![
        Event { event_type: EventType::Delve, source: nav, target: Entity::Nothing, message: Message::Delve(nav) },
    ]
    &&& e.event_type->Roll_outcomes.fail@ == seq![
        Event {
            event_type: EventType::Damage(HIT_DAMAGE),
            source: Entity::Dungeon,
            target: nav,
            message: Message::FailedNavigation(nav),
        },
    ]
}

/// Whether the attacker wins an exchange: its team stat scaled by its draw
/// beats the defender's scaled by theirs (a tie goes to the defender).
pub open spec fn attack_lands(source_stat: int, target_stat: int, x1: u32, x2: u32) -> bool {
    x1 * source_stat > x2 * target_stat
}

/// The blow a combat exchange schedules: the winner hurts the loser.
pub open spec fn attack_event(winner: Entity, loser: Entity) -> Event {
    Event {
        event_type: EventType::Damage(HIT_DAMAGE),
        source: winner,
        target: loser,
        message: Message::Attack(winner, loser, HIT_DAMAGE as u8),
    }
}

/// A pairing of combatants the turn-start phase may choose: a living
/// defender against a living delver, or the party's fighter against a living
/// defender.
pub open spec fn combat_pairing(g: Game, source: Entity, target: Entity) -> bool {
    ||| {
        &&& source is Defender
        &&& source->Defender_index < g.defender_count()
        &&& g.defenderteam.is_active(source->Defender_index)
        &&& target is Delver
        &&& target->Delver_index < 4
        &&& g.delverteam.is_active(target->Delver_index)
    }
    ||| {
        &&& source == Entity::Delver { index: chosen_delver(&g.delverteam, Stats::Fightiness) }
        &&& target is Defender
        &&& target->Defender_index < g.defender_count()
        &&& g.defenderteam.is_active(target->Defender_index)
    }
}

/// What one tick of the phase machine does.
pub open spec fn tick_spec(s0: Sim, s1: Sim, rng0: RandomSource) -> bool {
    let g0 = s0.game;
    let g1 = s1.game;
    let q0 = s0.eventqueue.events@;
    let q1 = s1.eventqueue.events@;
    match g0.phase {
        GamePhase::NotStarted => g1 == (Game { phase: GamePhase::Encounter, ..g0 }) && q1 == q0.push(
            log_event(Message::Delving),
        ),
        GamePhase::TurnStart => if g0.defenderteam.any_active() {
            &&& g1 == (Game { phase: g1.phase, ..g0 })
            &&& q1 == q0
            &&& g1.phase is Combat
            &&& combat_pairing(g0, g1.phase->Combat_source, g1.phase->Combat_target)
            &&& rng0 is Fixed ==> (g1.phase->Combat_source is Defender <==> rng0.fixed_draw(SCALE as u64)
                < DEFENDERS_STRIKE_CHANCE)
        } else {
            g1 == (Game { phase: GamePhase::Encounter, ..g0 }) && q1 == q0
        },
        GamePhase::Encounter => if g0.current_room.complete {
            g1 == (Game { phase: GamePhase::Delve, ..g0 }) && q1 == q0
        } else {
            &&& g1 == (Game { phase: GamePhase::TurnStart, ..g0 })
            &&& clear_spec(g0.current_room.room_type, g1, Entity::Room, Entity::Delver {
                index: chosen_delver(&g0.delverteam, spec_base_stat(g0.current_room.room_type)),
            }, q0, q1)
        },
        GamePhase::Delve => {
            &&& g1 == (Game { phase: GamePhase::TurnStart, ..g0 })
            &&& q1.len() == q0.len() + 1
            &&& q1.drop_last() == q0
            &&& is_navigation_roll(q1.last(), Entity::Delver {
                index: chosen_delver(&g0.delverteam, Stats::Exploriness),
            }, g0.defenderteam.dungeon.lengthiness)
        },
        GamePhase::Finished => g1 == g0 && q1 == q0,
        GamePhase::Combat { source, target } => {
            &&& g1 == (Game { phase: GamePhase::TurnStart, ..g0 })
            &&& q1.len() == q0.len() + 2
            &&& q1.subrange(0, q0.len() as int) == q0
            &&& exists|x1: u32, x2: u32| {
                &&& x1 < SCALE && x2 < SCALE
                &&& rng0 is Fixed ==> x1 == rng0.fixed_draw(SCALE as u64) && x2 == rng0.fixed_draw(SCALE as u64)
                &&& q1[q0.len() as int] == if #[trigger] attack_lands(
                    g0.team_stat_of(source, Stats::Fightiness),
                    g0.team_stat_of(target, Stats::Fightiness),
                    x1,
                    x2,
                ) {
                    attack_event(source, target)
                } else {
                    attack_event(target, source)
                }
            }
            &&& q1.last().event_type is Log
            &&& says(q1.last().message, g0.name_of(source) + " attacks "@ + g0.name_of(target))
        },
    }
}

/// Runs one step of the phase machine: changes the phase and schedules the
/// events of that step.
pub fn tick(sim: &mut Sim, rng: &mut RandomSource)
    requires
        old(sim).game.wf(),
        old(sim).game.delverteam.any_active() || old(sim).game.phase is Finished,
        events_ok(old(sim).eventqueue.events@, old(sim).game.defender_count()),
    ensures
        tick_spec(*old(sim), *final(sim), *old(rng)),
        final(sim).game.wf(),
        events_ok(final(sim).eventqueue.events@, final(sim).game.defender_count()),
        final(sim).eventqueue.events@.len() >= old(sim).eventqueue.events@.len(),
        final(sim).eventqueue.events@.subrange(0, old(sim).eventqueue.events@.len() as int)
            == old(sim).eventqueue.events@,
        *old(rng) is Seeded ==> *final(rng) is Seeded,
        *old(rng) is Fixed ==> *final(rng) == *old(rng),
{
    let ghost nf = sim.game.defender_count();
    let ghost q0 = sim.eventqueue.events@;
    let ghost s0 = *sim;
    let ghost rng0 = *rng;
    match sim.game.phase {
        GamePhase::NotStarted => {
            sim.game.phase = GamePhase::Encounter;
            sim.eventqueue.log(Message::Delving);
            assert(tick_spec(s0, *sim, rng0));
        },
        GamePhase::TurnStart => {
            if sim.game.defenderteam.has_active() {
                let defenders_strike = rng.chance(DEFENDERS_STRIKE_CHANCE);
                let (source, target) = if defenders_strike {
                    let active_delvers = sim.game.delverteam.active_delvers();
                    proof {
                        sim.game.delverteam.lemma_active_delvers();
                    }
                    let k = rng.below(active_delvers.len() as u64);
                    let target = Entity::Delver { index: active_delvers[k as usize] };
                    let living = sim.game.defenderteam.living_defenders();
                    proof {
                        crate::entities::lemma_active_indices(
                            sim.game.defenderteam.active_defenders@,
                            sim.game.defenderteam.active_defenders@.len() as int,
                        );
                    }
                    let j = rng.below(living.len() as u64);
                    let source = Entity::Defender { index: living[j as usize] };
                    (source, target)
                } else {
                    let source = sim.game.delverteam.choose_delver(Stats::Fightiness);
                    let living = sim.game.defenderteam.living_defenders();
                    proof {
                        crate::entities::lemma_active_indices(
                            sim.game.defenderteam.active_defenders@,
                            sim.game.defenderteam.active_defenders@.len() as int,
                        );
                    }
                    let k = rng.below(living.len() as u64);
                    let target = Entity::Defender { index: living[k as usize] };
                    (source, target)
                };
                sim.game.phase = GamePhase::Combat { source, target };
                assert(tick_spec(s0, *sim, rng0));
            } else {
                sim.game.phase = GamePhase::Encounter;
                assert(tick_spec(s0, *sim, rng0));
            }
        },
        GamePhase::Encounter => {
            if sim.game.current_room.complete {
                sim.game.phase = GamePhase::Delve;
            } else {
                sim.game.phase = GamePhase::TurnStart;
                let base_stat = sim.game.current_room.room_type.base_stat();
                let active_delver = sim.game.delverteam.choose_delver(base_stat);
                sim.game.current_room.room_type.attempt_clear(&sim.game, Entity::Room, active_delver, &mut sim.eventqueue);
                assert(tick_spec(s0, *sim, rng0));
            }
        },
        GamePhase::Delve => {
            sim.game.phase = GamePhase::TurnStart;
            let nav = sim.game.delverteam.choose_delver(Stats::Exploriness);
            let mut success: Vec<Event> = Vec::new();
            success.push(Event { event_type: EventType::Delve, source: nav, target: Entity::Nothing, message: Message::Delve(nav) });
            let mut fail: Vec<Event> = Vec::new();
            fail.push(Event {
                event_type: EventType::Damage(HIT_DAMAGE),
                target: nav,
                source: Entity::Dungeon,
                message: Message::FailedNavigation(nav),
            });
            assert(event_ok(success@[0], nf));
            assert(event_ok(fail@[0], nf));
            assert(success@ =~= seq![
                Event { event_type: EventType::Delve, source: nav, target: Entity::Nothing, message: Message::Delve(nav) },
            ]);
            assert(fail@ =~= seq![
                Event {
                    event_type: EventType::Damage(HIT_DAMAGE),
                    source: Entity::Dungeon,
                    target: nav,
                    message: Message::FailedNavigation(nav),
                },
            ]);
            let outcomes = Outcomes { success, fail };
            let event = Event::type_and_message(
                EventType::Roll { difficulty: sim.game.defenderteam.dungeon.lengthiness, stat: Stats::Exploriness, outcomes },
                Message::BeginNavigation(nav),
            );
            assert(event_ok(event, nf));
            sim.eventqueue.push(event);
            assert(sim.eventqueue.events@.drop_last() =~= q0);
            assert(tick_spec(s0, *sim, rng0));
        },
        GamePhase::Finished => {},
        GamePhase::Combat { source, target } => {
            sim.game.phase = GamePhase::TurnStart;
            let source_stat = source.collect_stats(&sim.game, Stats::Fightiness);
            let target_stat = target.collect_stats(&sim.game, Stats::Fightiness);
            let source_name = source.to_string(&sim.game);
            let target_name = target.to_string(&sim.game);
            let ghost r0 = *rng;
            let a = roll(rng, source_stat);
            let ghost r1 = *rng;
            let b = roll(rng, target_stat);
            let ghost x1 = choose|x: u32| x < SCALE && a == #[trigger] scaled(x, source_stat as int) && (r0 is Fixed ==> x == r0.fixed_draw(SCALE as u64));
            let ghost x2 = choose|x: u32| x < SCALE && b == #[trigger] scaled(x, target_stat as int) && (r1 is Fixed ==> x == r1.fixed_draw(SCALE as u64));
            if a > b {
                sim.eventqueue.push(Event {
                    event_type: EventType::Damage(HIT_DAMAGE),
                    source,
                    target,
                    message: Message::Attack(source, target, HIT_DAMAGE as u8),
                });
            } else {
                sim.eventqueue.push(Event {
                    event_type: EventType::Damage(HIT_DAMAGE),
                    source: target,
                    target: source,
                    message: Message::Attack(target, source, HIT_DAMAGE as u8),
                });
            }
            let ghost q_mid = sim.eventqueue.events@;
            sim.eventqueue.log(Message::Custom(source_name.concat(" attacks ").concat(target_name.as_str())));
            assert(sim.eventqueue.events@.subrange(0, q0.len() as int) =~= q0);
            assert(sim.eventqueue.events@[q0.len() as int] == q_mid[q0.len() as int]);
            assert(x1 < SCALE && x2 < SCALE);
            assert(source_stat as int == s0.game.team_stat_of(source, Stats::Fightiness));
            assert(target_stat as int == s0.game.team_stat_of(target, Stats::Fightiness));
            assert(source_name@ == s0.game.name_of(source));
            assert((a > b) == attack_lands(source_stat as int, target_stat as int, x1, x2));
            assert(rng0 is Fixed ==> x1 == rng0.fixed_draw(SCALE as u64) && x2 == rng0.fixed_draw(SCALE as u64));
            assert(sim.eventqueue.events@[q0.len() as int] == if attack_lands(
                    s0.game.team_stat_of(source, Stats::Fightiness),
                    s0.game.team_stat_of(target, Stats::Fightiness),
                    x1,
                    x2,
                ) {
                    attack_event(source, target)
                } else {
                    attack_event(target, source)
                });
            assert(tick_spec(s0, *sim, rng0));
        },
    }
    assert forall|i: int| 0 <= i < sim.eventqueue.events@.len() implies event_ok(
        #[trigger] sim.eventqueue.events@[i],
        sim.game.defender_count(),
    ) by {
        if i < q0.len() {
            assert(sim.eventqueue.events@.subrange(0, q0.len() as int)[i] == q0[i]);
        }
    }
}

} // verus!
