use vstd::prelude::*;
use crate::core_loop::{GamePhase, tick, tick_spec};
use crate::dice::{RandomSource, SCALE};
use crate::entities::{Entity, Stats, Delver, Defender, DelverTeam, DefenderTeam, BaseDefender, OWN_WEIGHT,
    MEMBER_WEIGHT, WEIGHT_DENOM, STARTING_HP, chosen_delver, delver_stat_sum, living_defender_stat_sum};
use crate::events::{character_is_ok, event_is_ok, character_ok, event_ok, events_ok, Event, EventType, EventQueue,
    lemma_events_ok_grows};
use crate::messaging::{Message, message_text};
use crate::modifiers::{BaseModifier, ModRelation, ModToApply, ReplaceOutcomes, says, replace_spec, pre_spec,
    PHOENIX_CHANCE, PHOENIX_HEAL};
use crate::room_types::{Room, RoomType, room_kind, is_zombie_party};

verus! {

/// Everything the simulation mutates but the event stack.
pub struct Game {
    pub phase: GamePhase,
    pub delverteam: DelverTeam,
    pub defenderteam: DefenderTeam,
    pub current_room: Room,
    pub depth: i8,
    pub last_log_message: String,
    /// The living delver that room hazards strike, drawn afresh at every resolution.
    pub rand_target: usize,
}

/// Both combatants of a combat phase are characters in range.
pub open spec fn phase_ok(phase: GamePhase, nf: nat) -> bool {
    match phase {
        GamePhase::Combat { source, target } => character_ok(source, nf) && character_ok(target, nf),
        _ => true,
    }
}

impl Game {
    pub open spec fn defender_count(&self) -> nat {
        self.defenderteam.active_defenders@.len()
    }

    pub open spec fn wf(&self) -> bool {
        &&& self.delverteam.wf()
        &&& self.rand_target < 4
        &&& phase_ok(self.phase, self.defender_count())
    }

    /// The name a character entity renders as.
    pub open spec fn name_of(&self, e: Entity) -> Seq<char> {
        match e {
            Entity::Delver { index } => self.delverteam.delvers@[index as int].base.name@,
            Entity::Defender { index } => self.defenderteam.active_defenders@[index as int].base.name@,
            _ => Seq::empty(),
        }
    }

    /// A character's effective stat.
    pub open spec fn stat_of(&self, e: Entity, stat: Stats) -> u32 {
        match e {
            Entity::Delver { index } => self.delverteam.delvers@[index as int].spec_stat(stat),
            Entity::Defender { index } => self.defenderteam.active_defenders@[index as int].spec_stat(stat),
            _ => 0,
        }
    }

    /// A character's team-weighted stat, in quarter-thousandths.
    pub open spec fn team_stat_of(&self, e: Entity, stat: Stats) -> int {
        match e {
            Entity::Delver { .. } => OWN_WEIGHT * self.stat_of(e, stat) + MEMBER_WEIGHT * delver_stat_sum(
                self.delverteam.delvers@,
                stat,
            ),
            Entity::Defender { .. } => OWN_WEIGHT * self.stat_of(e, stat) + MEMBER_WEIGHT
                * living_defender_stat_sum(self.defenderteam.active_defenders@, stat),
            _ => 0,
        }
    }

    pub fn new_game(delverteam: DelverTeam, defenderteam: DefenderTeam) -> (r: Game)
        requires
            delverteam.wf(),
        ensures
            r.wf(),
            r.phase == GamePhase::NotStarted,
            r.delverteam == delverteam,
            r.defenderteam == defenderteam,
            !r.current_room.complete && r.current_room.room_type is Empty,
            r.depth == 0,
            r.last_log_message@.len() == 0,
    {
        Game {
            phase: GamePhase::NotStarted,
            delverteam,
            defenderteam,
            current_room: Room { complete: false, room_type: RoomType::Empty },
            depth: 0,
            last_log_message: String::new(),
            rand_target: 0,
        }
    }
}

/// The whole simulation: game state plus pending events.
pub struct Sim {
    pub game: Game,
    pub eventqueue: EventQueue,
    pub finished: bool,
}


/// Hit points of a boss spawned by a boss fight, above the usual `STARTING_HP`.
pub const BOSS_HP: i8 = 7;
/// Depth at which the boss fight starts.
pub const BOSS_DEPTH: i8 = 5;
/// Depth at which the game ends.
pub const FINAL_DEPTH: i8 = 6;
/// Strictly below the bound of every team-weighted stat.
pub const TEAM_STAT_CEILING: u128 = 0x1_0000_0000_0000_0000_0000_0000;

/// A stat read, scaled by a uniform fraction: `x * stat` for a unit draw `x`.
pub fn roll(rng: &mut RandomSource, stat: u128) -> (r: u128)
    requires
        stat < TEAM_STAT_CEILING,
    ensures
        exists|x: u32| x < SCALE && r == #[trigger] scaled(x, stat as int) && (*old(rng) is Fixed ==> x == old(rng).fixed_draw(SCALE as u64)),
        *old(rng) is Seeded ==> *final(rng) is Seeded,
        *old(rng) is Fixed ==> *final(rng) == *old(rng),
{
    let x = rng.unit();
    assert((x as u128) * stat < 1000 * TEAM_STAT_CEILING) by (nonlinear_arith)
        requires
            x < 1000,
            stat < TEAM_STAT_CEILING,
    ;
    assert(scaled(x, stat as int) == (x as u128) * stat);
    (x as u128) * stat
}

/// A draw `x` in thousandths applied to `v`.
pub open spec fn scaled(x: u32, v: int) -> int {
    x * v
}

/// Whether a stat check succeeds: the team stat scaled by the first draw
/// beats the difficulty scaled by the second (a tie fails).
pub open spec fn roll_succeeds(team_stat: int, difficulty: u32, x1: u32, x2: u32) -> bool {
    x1 * team_stat > x2 * difficulty * WEIGHT_DENOM
}

/// A unit draw `x` falls under a chance in thousandths.
pub open spec fn draw_hits(x: u32, chance: u32) -> bool {
    x < chance
}

/// `v` held to the range of `i8`.
pub open spec fn clamp_i8(v: int) -> i8 {
    if v < i8::MIN {
        i8::MIN
    } else if v > i8::MAX {
        i8::MAX
    } else {
        v as i8
    }
}

pub open spec fn damaged_hp(hp: i8, amount: i8) -> i8 {
    clamp_i8(hp - amount)
}

/// Healing never raises hit points above the maximum.
pub open spec fn healed_hp(hp: i8, maxhp: i8, amount: i8) -> i8 {
    let v = clamp_i8(hp + amount);
    if v > maxhp {
        maxhp
    } else {
        v
    }
}

pub open spec fn log_event(message: Message) -> Event {
    Event { event_type: EventType::Log, target: Entity::Nothing, source: Entity::Nothing, message }
}

pub open spec fn death_event(source: Entity, target: Entity) -> Event {
    Event { event_type: EventType::Death, source, target, message: Message::Death(target) }
}

pub open spec fn bare_event(t: EventType) -> Event {
    Event { event_type: t, target: Entity::Nothing, source: Entity::Nothing, message: Message::Nothing }
}

/// Only delver `i` may differ between the two games, and only in hit points
/// and the active flag.
pub open spec fn delver_changed(g0: Game, g1: Game, i: usize) -> bool {
    &&& g1 == (Game { delverteam: DelverTeam { delvers: g1.delverteam.delvers, ..g0.delverteam }, ..g0 })
    &&& g1.delverteam.delvers@.len() == g0.delverteam.delvers@.len()
    &&& forall|j: int| 0 <= j < g0.delverteam.delvers@.len() && j != i
        ==> #[trigger] g1.delverteam.delvers@[j] == g0.delverteam.delvers@[j]
    &&& g1.delverteam.delvers@[i as int] == (Delver {
        hp: g1.delverteam.delvers@[i as int].hp,
        active: g1.delverteam.delvers@[i as int].active,
        ..g0.delverteam.delvers@[i as int]
    })
}

/// Only defender `i` may differ between the two games, and only in hit
/// points and the active flag.
pub open spec fn defender_changed(g0: Game, g1: Game, i: usize) -> bool {
    &&& g1 == (Game {
        defenderteam: DefenderTeam { active_defenders: g1.defenderteam.active_defenders, ..g0.defenderteam },
        ..g0
    })
    &&& g1.defenderteam.active_defenders@.len() == g0.defenderteam.active_defenders@.len()
    &&& forall|j: int| 0 <= j < g0.defenderteam.active_defenders@.len() && j != i
        ==> #[trigger] g1.defenderteam.active_defenders@[j] == g0.defenderteam.active_defenders@[j]
    &&& g1.defenderteam.active_defenders@[i as int] == (Defender {
        hp: g1.defenderteam.active_defenders@[i as int].hp,
        active: g1.defenderteam.active_defenders@[i as int].active,
        ..g0.defenderteam.active_defenders@[i as int]
    })
}

/// `g1` is `g0` with `d` appended to the defenders.
pub open spec fn defender_added(g0: Game, g1: Game, d: Defender) -> bool {
    &&& g1 == (Game {
        defenderteam: DefenderTeam { active_defenders: g1.defenderteam.active_defenders, ..g0.defenderteam },
        ..g0
    })
    &&& g1.defenderteam.active_defenders@ == g0.defenderteam.active_defenders@.push(d)
}

/// A boss as a boss fight spawns it from the team's template.
pub open spec fn is_boss_of(d: Defender, template: BaseDefender) -> bool {
    &&& d.base.agrees(&template)
    &&& d.hp == BOSS_HP
    &&& d.maxhp == BOSS_HP
    &&& d.active
    &&& d.modifiers@ == template.perm_mods@
}

/// What dispatching one (already modified) event does to the simulation.
pub open spec fn dispatch_spec(s0: Sim, e: Event, s1: Sim, rng0: RandomSource) -> bool {
    let g0 = s0.game;
    let g1 = s1.game;
    let q0 = s0.eventqueue.events@;
    let q1 = s1.eventqueue.events@;
    match e.event_type {
        EventType::Damage(n) => match e.target {
            Entity::Delver { index } => {
                &&& delver_changed(g0, g1, index)
                &&& g1.delverteam.delvers@[index as int].hp == damaged_hp(g0.delverteam.delvers@[index as int].hp, n)
                &&& g1.delverteam.delvers@[index as int].active == g0.delverteam.delvers@[index as int].active
                &&& q1 == if g1.delverteam.delvers@[index as int].hp <= 0 {
                    q0.push(death_event(e.source, e.target))
                } else {
                    q0
                }
            },
            Entity::Defender { index } => {
                &&& defender_changed(g0, g1, index)
                &&& g1.defenderteam.active_defenders@[index as int].hp == damaged_hp(
                    g0.defenderteam.active_defenders@[index as int].hp,
                    n,
                )
                &&& g1.defenderteam.active_defenders@[index as int].active
                    == g0.defenderteam.active_defenders@[index as int].active
                &&& q1 == if g1.defenderteam.active_defenders@[index as int].hp <= 0 {
                    q0.push(death_event(e.source, e.target))
                } else {
                    q0
                }
            },
            _ => g1 == g0 && q1 == q0,
        },
        EventType::Heal(n) => q1 == q0 && match e.target {
            Entity::Delver { index } => {
                &&& delver_changed(g0, g1, index)
                &&& g1.delverteam.delvers@[index as int].hp == healed_hp(
                    g0.delverteam.delvers@[index as int].hp,
                    g0.delverteam.delvers@[index as int].maxhp,
                    n,
                )
                &&& g1.delverteam.delvers@[index as int].active == g0.delverteam.delvers@[index as int].active
            },
            Entity::Defender { index } => {
                &&& defender_changed(g0, g1, index)
                &&& g1.defenderteam.active_defenders@[index as int].hp == healed_hp(
                    g0.defenderteam.active_defenders@[index as int].hp,
                    g0.defenderteam.active_defenders@[index as int].maxhp,
                    n,
                )
                &&& g1.defenderteam.active_defenders@[index as int].active
                    == g0.defenderteam.active_defenders@[index as int].active
            },
            _ => g1 == g0,
        },
        EventType::Death => match e.target {
            Entity::Delver { index } => {
                &&& delver_changed(g0, g1, index)
                &&& g1.delverteam.delvers@[index as int].hp == g0.delverteam.delvers@[index as int].hp
                &&& !g1.delverteam.delvers@[index as int].active
                &&& q1 == if g1.delverteam.any_active() {
                    q0
                } else {
                    q0.push(bare_event(EventType::EndGame))
                }
            },
            Entity::Defender { index } => {
                &&& defender_changed(Game { phase: g1.phase, ..g0 }, g1, index)
                &&& g1.defenderteam.active_defenders@[index as int].hp == g0.defenderteam.active_defenders@[index as int].hp
                &&& !g1.defenderteam.active_defenders@[index as int].active
                &&& g1.phase == if g1.defenderteam.any_active() {
                    g0.phase
                } else {
                    GamePhase::TurnStart
                }
                &&& q1 == q0
            },
            _ => g1 == g0 && q1 == q0,
        },
        EventType::Delve => {
            let depth = if g0.depth == i8::MAX { i8::MAX } else { (g0.depth + 1) as i8 };
            &&& g1 == (Game { depth, current_room: g1.current_room, ..g0 })
            &&& if depth == BOSS_DEPTH {
                g1.current_room == g0.current_room && q1 == q0.push(bare_event(EventType::StartBossFight))
            } else if depth >= FINAL_DEPTH {
                g1.current_room == g0.current_room && q1 == q0.push(bare_event(EventType::EndGame))
            } else {
                &&& q1 == q0
                &&& !g1.current_room.complete
                &&& room_kind(g1.current_room.room_type) <= 2
                &&& g1.current_room.room_type is Fight ==> is_zombie_party(g1.current_room.room_type)
            }
        },
        EventType::StartBossFight => {
            &&& g1 == (Game {
                defenderteam: DefenderTeam { active_defenders: g1.defenderteam.active_defenders, ..g0.defenderteam },
                ..g0
            })
            &&& g1.defenderteam.active_defenders@.len() == g0.defenderteam.active_defenders@.len() + 1
            &&& g1.defenderteam.active_defenders@.drop_last() == g0.defenderteam.active_defenders@
            &&& is_boss_of(g1.defenderteam.active_defenders@.last(), g0.defenderteam.defender)
            &&& q1.len() == q0.len() + 1
            &&& q1.drop_last() == q0
            &&& q1.last().event_type is Log
            &&& says(q1.last().message, g0.delverteam.name@ + " challenge "@ + g0.defenderteam.name@
                + "'s defender "@ + g0.defenderteam.defender.name@)
        },
        EventType::ClearRoom => g1 == (Game { current_room: Room { complete: true, ..g0.current_room }, ..g0 })
            && q1 == q0,
        EventType::SpawnDefender(d) => defender_added(g0, g1, d) && q1 == q0,
        EventType::Roll { difficulty, stat, outcomes } => {
            &&& g1 == g0
            &&& exists|x1: u32, x2: u32| {
                &&& x1 < SCALE && x2 < SCALE
                &&& rng0 is Fixed ==> x1 == rng0.fixed_draw(SCALE as u64) && x2 == rng0.fixed_draw(SCALE as u64)
                &&& q1 == q0 + if #[trigger] roll_succeeds(
                    g0.team_stat_of(Entity::Delver { index: chosen_delver(&g0.delverteam, stat) }, stat),
                    difficulty,
                    x1,
                    x2,
                ) {
                    outcomes.success@
                } else {
                    outcomes.fail@
                }
            }
        },
        EventType::Chance { chance, success, fail } => {
            &&& g1 == g0
            &&& exists|x: u32| {
                &&& x < SCALE
                &&& rng0 is Fixed ==> x == rng0.fixed_draw(SCALE as u64)
                &&& q1 == q0.push(if #[trigger] draw_hits(x, chance) { *success } else { *fail })
            }
        },
        EventType::EndGame => {
            &&& g1 == (Game { phase: GamePhase::Finished, last_log_message: g1.last_log_message, ..g0 })
            &&& g1.last_log_message@ == "Game Ended"@
            &&& q1.len() == q0.len() + 1
            &&& q1.drop_last() == q0
            &&& q1.last().event_type is Log
            &&& q1.last().target is Nothing && q1.last().source is Nothing
            &&& says(q1.last().message, "Game Ended"@)
        },
        EventType::Tick => tick_spec(s0, s1, rng0),
        EventType::Log | EventType::Cancelled => g1 == g0 && q1 == q0,
    }
}


/// `v` held to the range of `i8`.
pub fn clamp_to_i8(v: i16) -> (r: i8)
    ensures
        r == clamp_i8(v as int),
{
    if v < i8::MIN as i16 {
        i8::MIN
    } else if v > i8::MAX as i16 {
        i8::MAX
    } else {
        v as i8
    }
}

impl Sim {
    /// The game is well formed, every pending event is in range, and once no
    /// delver lives the game is over or about to end.
    pub open spec fn wf(&self) -> bool {
        &&& self.game.wf()
        &&& events_ok(self.eventqueue.events@, self.game.defender_count())
        &&& !self.game.delverteam.any_active() ==> (self.game.phase is Finished || (
        self.eventqueue.events@.len() > 0 && self.eventqueue.events@.last().event_type is EndGame))
    }

    /// Applies an event's own effect (modifiers already applied).
    pub fn apply_event(&mut self, rng: &mut RandomSource, event: Event)
        requires
            old(self).game.wf(),
            events_ok(old(self).eventqueue.events@, old(self).game.defender_count()),
            event_ok(event, old(self).game.defender_count()),
            old(self).game.delverteam.any_active() || !(event.event_type is Roll || event.event_type is Tick)
                || (event.event_type is Tick && old(self).game.phase is Finished),
        ensures
            dispatch_spec(*old(self), event, *final(self), *old(rng)),
            final(self).game.wf(),
            events_ok(final(self).eventqueue.events@, final(self).game.defender_count()),
            final(self).game.defender_count() >= old(self).game.defender_count(),
            old(self).game.delverteam.any_active() && !final(self).game.delverteam.any_active() ==> (
            final(self).eventqueue.events@.len() > 0 && final(self).eventqueue.events@.last().event_type is EndGame),
            !old(self).game.delverteam.any_active() ==> !final(self).game.delverteam.any_active(),
            final(self).eventqueue.events@.len() >= old(self).eventqueue.events@.len(),
            final(self).eventqueue.events@.subrange(0, old(self).eventqueue.events@.len() as int)
                == old(self).eventqueue.events@,
            *old(rng) is Seeded ==> *final(rng) is Seeded,
            *old(rng) is Fixed ==> *final(rng) == *old(rng),
    {
        let ghost s0 = *self;
        let ghost rng0 = *rng;
        let ghost nf = self.game.defender_count();
        let ghost q0 = self.eventqueue.events@;
        match event.event_type {
            EventType::Damage(amount) => {
                match event.target {
                    Entity::Delver { index } => {
                        let hp = self.game.delverteam.delvers[index].hp;
                        let new_hp = clamp_to_i8(hp as i16 - amount as i16);
                        self.game.delverteam.delvers[index].hp = new_hp;
                        if new_hp <= 0 {
                            self.eventqueue.push(Event {
                                event_type: EventType::Death,
                                source: event.source,
                                target: event.target,
                                message: Message::Death(event.target),
                            });
                        }
                        assert(self.game.delverteam.delvers@ =~= s0.game.delverteam.delvers@.update(
                            index as int, self.game.delverteam.delvers@[index as int]));
                        proof { self.lemma_same_life(s0); }
                    },
                    Entity::Defender { index } => {
                        let hp = self.game.defenderteam.active_defenders[index].hp;
                        let new_hp = clamp_to_i8(hp as i16 - amount as i16);
                        self.game.defenderteam.active_defenders[index].hp = new_hp;
                        if new_hp <= 0 {
                            self.eventqueue.push(Event {
                                event_type: EventType::Death,
                                source: event.source,
                                target: event.target,
                                message: Message::Death(event.target),
                            });
                        }
                    },
                    _ => {},
                }
            },
            EventType::Heal(amount) => {
                match event.target {
                    Entity::Delver { index } => {
                        let d = &self.game.delverteam.delvers[index];
                        let mut new_hp = clamp_to_i8(d.hp as i16 + amount as i16);
                        if new_hp > d.maxhp {
                            new_hp = d.maxhp;
                        }
                        self.game.delverteam.delvers[index].hp = new_hp;
                        proof { self.lemma_same_life(s0); }
                    },
                    Entity::Defender { index } => {
                        let d = &self.game.defenderteam.active_defenders[index];
                        let mut new_hp = clamp_to_i8(d.hp as i16 + amount as i16);
                        if new_hp > d.maxhp {
                            new_hp = d.maxhp;
                        }
                        self.game.defenderteam.active_defenders[index].hp = new_hp;
                    },
                    _ => {},
                }
            },
            EventType::Death => {
                match event.target {
                    Entity::Delver { index } => {
                        self.game.delverteam.delvers[index].active = false;
                        if !self.game.delverteam.has_active() {
                            self.eventqueue.push(Event::type_only(EventType::EndGame));
                        }
                        proof {
                            if !s0.game.delverteam.any_active() {
                                if self.game.delverteam.any_active() {
                                    let w = choose|i: int| 0 <= i < self.game.delverteam.delvers.len()
                                        && #[trigger] self.game.delverteam.delvers@[i].active;
                                    assert(s0.game.delverteam.delvers@[w].active);
                                }
                            }
                        }
                    },
                    Entity::Defender { index } => {
                        self.game.defenderteam.active_defenders[index].active = false;
                        if !self.game.defenderteam.has_active() {
                            self.game.phase = GamePhase::TurnStart;
                        }
                    },
                    _ => {},
                }
            },
            EventType::Delve => {
                let depth = if self.game.depth == i8::MAX { i8::MAX } else { self.game.depth + 1 };
                self.game.depth = depth;
                if depth == BOSS_DEPTH {
                    self.eventqueue.push(Event::type_only(EventType::StartBossFight));
                } else if depth >= FINAL_DEPTH {
                    self.eventqueue.push(Event::type_only(EventType::EndGame));
                } else {
                    self.game.current_room = Room::new_room(rng);
                }
            },
            EventType::StartBossFight => {
                let mut boss = self.game.defenderteam.defender.duplicate().to_game_defender();
                boss.maxhp = BOSS_HP;
                boss.hp = BOSS_HP;
                let message = Message::Custom(
                    self.game.delverteam.name.clone().concat(" challenge ").concat(
                        self.game.defenderteam.name.as_str(),
                    ).concat("'s defender ").concat(boss.base.name.as_str()),
                );
                self.eventqueue.log(message);
                self.game.defenderteam.active_defenders.push(boss);
                proof {
                    lemma_events_ok_grows(self.eventqueue.events@, nf, self.game.defender_count());
                }
                assert(self.eventqueue.events@.drop_last() =~= q0);
                assert(self.game.defenderteam.active_defenders@.drop_last() =~= s0.game.defenderteam.active_defenders@);
            },
            EventType::ClearRoom => {
                self.game.current_room.complete = true;
            },
            EventType::SpawnDefender(defender) => {
                self.game.defenderteam.active_defenders.push(defender);
                proof {
                    lemma_events_ok_grows(self.eventqueue.events@, nf, self.game.defender_count());
                }
            },
            EventType::Roll { difficulty, stat, outcomes } => {
                let actor = self.game.delverteam.choose_delver(stat);
                let total = actor.collect_stats(&self.game, stat);
                let ghost r0 = *rng;
                let a = roll(rng, total);
                let ghost r1 = *rng;
                let x2 = rng.unit();
                let ghost x1 = choose|x: u32| x < SCALE && a == #[trigger] scaled(x, total as int) && (r0 is Fixed ==> x == r0.fixed_draw(SCALE as u64));
                assert((x2 as u128) * (difficulty as u128) * WEIGHT_DENOM < 0x1_0000_0000_0000) by (nonlinear_arith)
                    requires
                        x2 < 1000,
                        difficulty <= 0xffff_ffff,
                        WEIGHT_DENOM == 4,
                ;
                let success = a > (x2 as u128) * (difficulty as u128) * WEIGHT_DENOM;
                assert(success == roll_succeeds(total as int, difficulty, x1, x2));
                let pushes = outcomes.get(success);
                self.eventqueue.push_all(pushes);
                assert forall|i: int| 0 <= i < self.eventqueue.events@.len() implies event_ok(
                    #[trigger] self.eventqueue.events@[i], nf) by {
                    if i >= q0.len() {
                        assert(self.eventqueue.events@[i] == pushes@[i - q0.len()]);
                    }
                }
            },
            EventType::Chance { chance, success, fail } => {
                let x = rng.unit();
                assert(draw_hits(x, chance) == (x < chance));
                if x < chance {
                    self.eventqueue.push(*success);
                } else {
                    self.eventqueue.push(*fail);
                }
            },
            EventType::EndGame => {
                self.game.phase = GamePhase::Finished;
                self.game.last_log_message = String::from_str("Game Ended");
                self.eventqueue.log(Message::Custom(String::from_str("Game Ended")));
                assert(self.eventqueue.events@.drop_last() =~= q0);
            },
            EventType::Tick => {
                tick(self, rng);
            },
            EventType::Log => {},
            EventType::Cancelled => {},
        }
    }

    /// Every delver's active flag is as in `s0`.
    proof fn lemma_same_life(&self, s0: Sim)
        requires
            self.game.delverteam.delvers@.len() == s0.game.delverteam.delvers@.len(),
            forall|j: int| 0 <= j < s0.game.delverteam.delvers@.len() ==>
                (#[trigger] self.game.delverteam.delvers@[j]).active == s0.game.delverteam.delvers@[j].active,
        ensures
            self.game.delverteam.any_active() == s0.game.delverteam.any_active(),
    {
        if self.game.delverteam.any_active() {
            let w = choose|i: int| 0 <= i < self.game.delverteam.delvers.len() && #[trigger] self.game.delverteam.delvers@[i].active;
            assert(s0.game.delverteam.delvers@[w].active);
        }
        if s0.game.delverteam.any_active() {
            let w = choose|i: int| 0 <= i < s0.game.delverteam.delvers.len() && #[trigger] s0.game.delverteam.delvers@[i].active;
            assert(self.game.delverteam.delvers@[w].active);
        }
    }
}


/// The modifiers a character carries; none for other entities.
pub open spec fn carried_mods(g: Game, e: Entity) -> Seq<BaseModifier> {
    match e {
        Entity::Delver { index } => g.delverteam.delvers@[index as int].modifiers@,
        Entity::Defender { index } => g.defenderteam.active_defenders@[index as int].modifiers@,
        _ => Seq::empty(),
    }
}

/// Neither side of the event carries a modifier.
pub open spec fn unmodified(g: Game, e: Event) -> bool {
    carried_mods(g, e.target).len() == 0 && carried_mods(g, e.source).len() == 0
}

/// `g1` is `g0` with the event's line narrated and a fresh random victim drawn.
pub open spec fn narrated(g0: Game, g1: Game, m: Message) -> bool {
    &&& g1 == (Game { last_log_message: g1.last_log_message, rand_target: g1.rand_target, ..g0 })
    &&& g1.last_log_message@ == message_text(m, g0)
}

/// The hazard victim of `g1` is drawn among the living delvers of `g0` (the
/// one a fixed stub's draw picks), or kept when none lives.
pub open spec fn victim_drawn(g0: Game, g1: Game, rng0: RandomSource) -> bool {
    let living = g0.delverteam.spec_active_delvers();
    &&& g0.delverteam.any_active() ==> g0.delverteam.is_active(g1.rand_target)
    &&& g0.delverteam.any_active() && rng0 is Fixed ==> g1.rand_target == living[rng0.fixed_draw(living.len() as u64) as int]
    &&& !g0.delverteam.any_active() ==> g1.rand_target == g0.rand_target
}

/// A modifier list with every entry given its holder's role.
pub open spec fn with_relation(ms: Seq<BaseModifier>, relation: ModRelation) -> Seq<ModToApply> {
    ms.map_values(|m: BaseModifier| ModToApply { modifier: m, relation })
}

/// The modifiers run over an event: the target's, as target, then the
/// source's, as source, each in attachment order.
pub open spec fn gathered_mods(g: Game, e: Event) -> Seq<ModToApply> {
    with_relation(carried_mods(g, e.target), ModRelation::Target) + with_relation(
        carried_mods(g, e.source),
        ModRelation::Source,
    )
}

/// The event a replace hook's outcome goes on with: a cancelled event for a
/// stop, the given event, or one branch of a chance (with a fixed stub, the
/// branch its draw picks).
pub open spec fn continues_with(o: ReplaceOutcomes, next: Event, rng0: RandomSource) -> bool {
    match o {
        ReplaceOutcomes::Stop => next == bare_event(EventType::Cancelled),
        ReplaceOutcomes::Event { event } => next == event,
        ReplaceOutcomes::Chance { chance, success, fail } => if rng0 is Fixed {
            next == if rng0.fixed_draw(SCALE as u64) < chance {
                success
            } else {
                fail
            }
        } else {
            next == success || next == fail
        },
    }
}

/// One modifier's replace hook turns `e` into `next`.
pub open spec fn replace_step(m: ModToApply, e: Event, next: Event, game: Game, rng0: RandomSource) -> bool {
    exists|o: ReplaceOutcomes| #[trigger] replace_spec(m.modifier, e, m.relation, game, o) && continues_with(o, next, rng0)
}

/// `es` lists the versions of an event as each modifier's replace hook runs
/// on the previous one.
pub open spec fn replace_chain(mods: Seq<ModToApply>, es: Seq<Event>, game: Game, rng0: RandomSource) -> bool {
    &&& es.len() == mods.len() + 1
    &&& forall|k: int| 0 <= k < mods.len() ==> #[trigger] replace_step(mods[k], es[k], es[k + 1], game, rng0)
}

/// The lists, concatenated in order.
pub open spec fn concat_all(parts: Seq<Seq<Event>>) -> Seq<Event>
    decreases parts.len(),
{
    if parts.len() == 0 {
        Seq::empty()
    } else {
        concat_all(parts.drop_last()) + parts.last()
    }
}

/// `parts[k]` is what the pre hook of modifier `k` schedules for `e`.
pub open spec fn pre_chain(mods: Seq<ModToApply>, e: Event, game: Game, parts: Seq<Seq<Event>>) -> bool {
    &&& parts.len() == mods.len()
    &&& forall|k: int| 0 <= k < mods.len() ==> #[trigger] pre_spec(mods[k].modifier, e, mods[k].relation, game, parts[k])
}

/// The modifiers of `e` turn it, version by version along `es`, into
/// `es.last()`; then their pre hooks schedule `parts`, in order, on top of
/// `q0`, which gives `q1`.
pub open spec fn modifiers_applied(
    g: Game,
    e: Event,
    es: Seq<Event>,
    parts: Seq<Seq<Event>>,
    q0: Seq<Event>,
    q1: Seq<Event>,
    rng0: RandomSource,
) -> bool {
    &&& replace_chain(gathered_mods(g, e), es, g, rng0)
    &&& es[0] == e
    &&& pre_chain(gathered_mods(g, e), es.last(), g, parts)
    &&& q1 == q0 + concat_all(parts)
}

/// What resolving an event does: a random victim is drawn, the modifiers
/// make their version of the event and schedule their side effects, its line
/// is narrated and its effect applies.
pub open spec fn resolve_full(s0: Sim, e: Event, s1: Sim, rng0: RandomSource) -> bool {
    exists|gt: Game, es: Seq<Event>, parts: Seq<Seq<Event>>, mid: Sim, r: RandomSource|
        #![trigger modifiers_applied(gt, e, es, parts, s0.eventqueue.events@, mid.eventqueue.events@, rng0), dispatch_spec(mid, es.last(), s1, r)]
    {
        &&& gt == (Game { rand_target: gt.rand_target, ..s0.game })
        &&& modifiers_applied(gt, e, es, parts, s0.eventqueue.events@, mid.eventqueue.events@, rng0)
        &&& narrated(s0.game, mid.game, es.last().message)
        &&& victim_drawn(s0.game, mid.game, rng0)
        &&& dispatch_spec(mid, es.last(), s1, r)
        &&& rng0 is Fixed ==> r == rng0
    }
}

/// A chain does not depend on the state of a seeded source.
pub proof fn lemma_chain_any_seed(mods: Seq<ModToApply>, es: Seq<Event>, game: Game, r1: RandomSource, r2: RandomSource)
    requires
        replace_chain(mods, es, game, r1),
        r1 is Seeded,
        r2 is Seeded,
    ensures
        replace_chain(mods, es, game, r2),
{
    assert forall|k: int| 0 <= k < mods.len() implies #[trigger] replace_step(mods[k], es[k], es[k + 1], game, r2) by {
        assert(replace_step(mods[k], es[k], es[k + 1], game, r1));
        let o = choose|o: ReplaceOutcomes| #[trigger] replace_spec(mods[k].modifier, es[k], mods[k].relation, game, o)
            && continues_with(o, es[k + 1], r1);
        assert(continues_with(o, es[k + 1], r2));
    }
}

/// What resolving an event does when no modifier intervenes: the line is
/// narrated, then the event's own effect applies.
pub open spec fn resolve_spec(s0: Sim, e: Event, s1: Sim, rng0: RandomSource) -> bool {
    unmodified(s0.game, e) ==> exists|mid: Sim, r: RandomSource| {
        &&& #[trigger] dispatch_spec(mid, e, s1, r)
        &&& narrated(s0.game, mid.game, e.message)
        &&& victim_drawn(s0.game, mid.game, rng0)
        &&& mid.eventqueue.events@ == s0.eventqueue.events@
        &&& rng0 is Fixed ==> r == rng0
    }
}

/// The event the resolver takes next: the most recently scheduled one, or a
/// tick when none is pending.
pub open spec fn next_event(q: Seq<Event>) -> Event {
    if q.len() == 0 {
        bare_event(EventType::Tick)
    } else {
        q.last()
    }
}

/// What stays pending once the next event is taken.
pub open spec fn pending_after(q: Seq<Event>) -> Seq<Event> {
    if q.len() == 0 {
        q
    } else {
        q.drop_last()
    }
}

/// One step of the resolver: nothing once the game has finished; else the
/// next event is taken off the stack and resolved, and every event beneath it
/// stays pending, in order, under whatever the step schedules.
pub open spec fn last_resolved(s0: Sim, s1: Sim, rng0: RandomSource) -> bool {
    if s0.game.phase is Finished {
        s1 == s0
    } else {
        &&& exists|popped: Sim| {
            &&& popped.game == s0.game
            &&& popped.eventqueue.events@ == pending_after(s0.eventqueue.events@)
            &&& #[trigger] resolve_full(popped, next_event(s0.eventqueue.events@), s1, rng0)
            &&& resolve_spec(popped, next_event(s0.eventqueue.events@), s1, rng0)
        }
        &&& s1.eventqueue.events@.len() >= pending_after(s0.eventqueue.events@).len()
        &&& s1.eventqueue.events@.subrange(0, pending_after(s0.eventqueue.events@).len() as int)
            == pending_after(s0.eventqueue.events@)
    }
}

/// `s1` is reached from `s0` by `n` steps of the resolver, drawing from a
/// source of the same kind as `rng0` (the very same, if it is a fixed stub).
pub open spec fn steps_to(s0: Sim, s1: Sim, n: nat, rng0: RandomSource) -> bool
    decreases n,
{
    if n == 0 {
        s1 == s0
    } else {
        exists|m: Sim, r: RandomSource| {
            &&& steps_to(s0, m, (n - 1) as nat, rng0)
            &&& #[trigger] last_resolved(m, s1, r)
            &&& rng0 is Fixed ==> r == rng0
            &&& rng0 is Seeded ==> r is Seeded
        }
    }
}

/// Appends every modifier of `from`, with its holder's role, to `mods`.
fn gather(mods: &mut Vec<ModToApply>, from: &Vec<BaseModifier>, relation: ModRelation)
    ensures
        final(mods)@ == old(mods)@ + with_relation(from@, relation),
{
    let mut k: usize = 0;
    while k < from.len()
        invariant
            k <= from.len(),
            mods@ == old(mods)@ + with_relation(from@.subrange(0, k as int), relation),
        decreases from.len() - k,
    {
        assert(with_relation(from@.subrange(0, k + 1), relation) =~= with_relation(from@.subrange(0, k as int), relation).push(
            ModToApply { modifier: from@[k as int], relation },
        ));
        mods.push(ModToApply { modifier: from[k], relation });
        k = k + 1;
    }
    assert(from@.subrange(0, from.len() as int) =~= from@);
}

impl Sim {
    /// Runs the modifiers of the event's target, then of its source, over
    /// the event: every replace hook in turn on the current version (a branch
    /// is settled at once), then every pre hook on the final version.
    pub fn apply_modifiers(&mut self, rng: &mut RandomSource, event: Event) -> (r: Event)
        requires
            old(self).game.wf(),
            events_ok(old(self).eventqueue.events@, old(self).game.defender_count()),
            event_ok(event, old(self).game.defender_count()),
        ensures
            final(self).game == old(self).game,
            events_ok(final(self).eventqueue.events@, final(self).game.defender_count()),
            event_ok(r, final(self).game.defender_count()),
            final(self).eventqueue.events@.len() >= old(self).eventqueue.events@.len(),
            final(self).eventqueue.events@.subrange(0, old(self).eventqueue.events@.len() as int)
                == old(self).eventqueue.events@,
            unmodified(old(self).game, event) ==> r == event && final(self).eventqueue.events@ == old(self).eventqueue.events@,
            event.event_type is EndGame ==> r == event && final(self).eventqueue.events@ == old(self).eventqueue.events@,
            exists|es: Seq<Event>, parts: Seq<Seq<Event>>| {
                &&& #[trigger] modifiers_applied(old(self).game, event, es, parts, old(self).eventqueue.events@,
                    final(self).eventqueue.events@, *old(rng))
                &&& es.last() == r
            },
            *old(rng) is Seeded ==> *final(rng) is Seeded,
            *old(rng) is Fixed ==> *final(rng) == *old(rng),
    {
        let ghost rng0 = *rng;
        let ghost g0 = self.game;
        let ghost nf = self.game.defender_count();
        let ghost e0 = event;
        let ghost q0 = self.eventqueue;
        let mut mods: Vec<ModToApply> = Vec::new();
        match event.target {
            Entity::Delver { index } => gather(&mut mods, &self.game.delverteam.delvers[index].modifiers, ModRelation::Target),
            Entity::Defender { index } => gather(
                &mut mods,
                &self.game.defenderteam.active_defenders[index].modifiers,
                ModRelation::Target,
            ),
            _ => {},
        }
        match event.source {
            Entity::Delver { index } => gather(&mut mods, &self.game.delverteam.delvers[index].modifiers, ModRelation::Source),
            Entity::Defender { index } => gather(
                &mut mods,
                &self.game.defenderteam.active_defenders[index].modifiers,
                ModRelation::Source,
            ),
            _ => {},
        }
        assert(mods@ =~= gathered_mods(g0, e0));
        let ghost mut es: Seq<Event> = seq![e0];
        let mut event = event;
        let mut i: usize = 0;
        while i < mods.len()
            invariant
                i <= mods.len(),
                self.game == g0,
                self.eventqueue == q0,
                self.game.wf(),
                nf == self.game.defender_count(),
                event_ok(event, nf),
                e0.event_type is EndGame ==> event == e0,
                mods@.len() == 0 ==> event == e0,
                mods@ == gathered_mods(g0, e0),
                es.len() == i + 1,
                es[0] == e0,
                es.last() == event,
                forall|k: int| 0 <= k < i ==> #[trigger] replace_step(mods@[k], es[k], es[k + 1], g0, rng0),
                rng0 == *old(rng),
                *old(rng) is Seeded ==> *rng is Seeded,
                *old(rng) is Fixed ==> *rng == *old(rng),
            decreases mods.len() - i,
        {
            let m = mods[i];
            let ghost before = event;
            let out = m.modifier.replace_event(event, m.relation, &self.game);
            let ghost o = out;
            event = match out {
                ReplaceOutcomes::Stop => Event::cancelled(),
                ReplaceOutcomes::Event { event } => event,
                ReplaceOutcomes::Chance { chance, success, fail } => {
                    if rng.chance(chance) {
                        success
                    } else {
                        fail
                    }
                },
            };
            proof {
                assert(continues_with(o, event, rng0));
                assert(replace_step(mods@[i as int], before, event, g0, rng0));
                let es2 = es.push(event);
                assert forall|k: int| 0 <= k < i + 1 implies #[trigger] replace_step(mods@[k], es2[k], es2[k + 1], g0, rng0) by {
                    if k < i {
                        assert(es2[k] == es[k] && es2[k + 1] == es[k + 1]);
                    }
                }
                es = es2;
            }
            i = i + 1;
        }
        assert(replace_chain(mods@, es, g0, rng0));
        let ghost mut parts: Seq<Seq<Event>> = Seq::empty();
        let mut i: usize = 0;
        while i < mods.len()
            invariant
                i <= mods.len(),
                self.game == g0,
                self.game.wf(),
                nf == self.game.defender_count(),
                event_ok(event, nf),
                events_ok(self.eventqueue.events@, nf),
                self.eventqueue.events@.len() >= q0.events@.len(),
                self.eventqueue.events@.subrange(0, q0.events@.len() as int) == q0.events@,
                e0.event_type is EndGame ==> event == e0 && self.eventqueue.events@ == q0.events@,
                mods@.len() == 0 ==> self.eventqueue == q0,
                mods@ == gathered_mods(g0, e0),
                parts.len() == i,
                forall|k: int| 0 <= k < i ==> #[trigger] pre_spec(mods@[k].modifier, event, mods@[k].relation, g0, parts[k]),
                self.eventqueue.events@ == q0.events@ + concat_all(parts),
            decreases mods.len() - i,
        {
            let m = mods[i];
            let ghost before = self.eventqueue.events@;
            m.modifier.pre_event(&event, m.relation, &self.game, &mut self.eventqueue);
            proof {
                let added = self.eventqueue.events@.subrange(before.len() as int, self.eventqueue.events@.len() as int);
                let parts2 = parts.push(added);
                assert(parts2.drop_last() =~= parts);
                assert(self.eventqueue.events@ =~= before + added);
                assert forall|k: int| 0 <= k < i + 1 implies #[trigger] pre_spec(mods@[k].modifier, event, mods@[k].relation, g0, parts2[k]) by {
                    if k < i {
                        assert(parts2[k] == parts[k]);
                    }
                }
                parts = parts2;
            }
            assert forall|j: int| 0 <= j < self.eventqueue.events@.len() implies event_ok(
                #[trigger] self.eventqueue.events@[j], nf) by {
                if j < before.len() {
                    assert(self.eventqueue.events@.subrange(0, before.len() as int)[j] == before[j]);
                }
            }
            proof {
                if e0.event_type is EndGame {
                    assert(self.eventqueue.events@ =~= before);
                }
                assert(self.eventqueue.events@.subrange(0, q0.events@.len() as int) =~= before.subrange(
                    0,
                    q0.events@.len() as int,
                ));
            }
            i = i + 1;
        }
        assert(modifiers_applied(g0, e0, es, parts, q0.events@, self.eventqueue.events@, rng0));
        event
    }

    /// Resolves one event: draws the random victim for room hazards among
    /// the living delvers, runs the modifiers, narrates the resulting line and
    /// applies the event.
    pub fn resolve_event(&mut self, rng: &mut RandomSource, event: Event)
        requires
            old(self).game.wf(),
            events_ok(old(self).eventqueue.events@, old(self).game.defender_count()),
            event_ok(event, old(self).game.defender_count()),
            old(self).game.delverteam.any_active() || event.event_type is EndGame,
        ensures
            final(self).wf(),
            resolve_spec(*old(self), event, *final(self), *old(rng)),
            resolve_full(*old(self), event, *final(self), *old(rng)),
            final(self).eventqueue.events@.len() >= old(self).eventqueue.events@.len(),
            final(self).eventqueue.events@.subrange(0, old(self).eventqueue.events@.len() as int)
                == old(self).eventqueue.events@,
            *old(rng) is Seeded ==> *final(rng) is Seeded,
            *old(rng) is Fixed ==> *final(rng) == *old(rng),
    {
        let ghost s0 = *self;
        let ghost s0_rng = *rng;
        let living = self.game.delverteam.active_delvers();
        proof {
            self.game.delverteam.lemma_active_delvers();
        }
        if living.len() > 0 {
            let k = rng.below(living.len() as u64);
            self.game.rand_target = living[k as usize];
        }
        let ghost s_target = *self;
        let ghost rng_t = *rng;
        let applied = self.apply_modifiers(rng, event);
        let ghost s_mods = *self;
        let ghost rng_mid = *rng;
        self.game.last_log_message = applied.message.to_string(&self.game);
        let ghost mid = *self;
        assert(message_text(applied.message, s_mods.game) == message_text(applied.message, s0.game));
        self.apply_event(rng, applied);
        proof {
            let gt = s_target.game;
            let (es, parts) = choose|es: Seq<Event>, parts: Seq<Seq<Event>>| {
                &&& #[trigger] modifiers_applied(gt, event, es, parts, s0.eventqueue.events@,
                    s_mods.eventqueue.events@, rng_t)
                &&& es.last() == applied
            };
            if rng_t is Seeded {
                lemma_chain_any_seed(gathered_mods(gt, event), es, gt, rng_t, s0_rng);
            }
            assert(modifiers_applied(gt, event, es, parts, s0.eventqueue.events@, mid.eventqueue.events@, s0_rng));
            assert(dispatch_spec(mid, es.last(), *self, rng_mid));
            assert(self.eventqueue.events@.subrange(0, mid.eventqueue.events@.len() as int) == mid.eventqueue.events@);
            assert(mid.eventqueue.events@.subrange(0, s0.eventqueue.events@.len() as int) =~= s0.eventqueue.events@);
            assert(self.eventqueue.events@.subrange(0, s0.eventqueue.events@.len() as int) =~= mid.eventqueue.events@.subrange(
                0,
                s0.eventqueue.events@.len() as int,
            ));
        }
    }

    /// Resolves the most recently scheduled event, or a tick when none is
    /// pending; does nothing once the game has finished.
    pub fn resolve_last_event(&mut self, rng: &mut RandomSource)
        requires
            old(self).wf(),
        ensures
            final(self).wf(),
            last_resolved(*old(self), *final(self), *old(rng)),
            old(self).game.phase is Finished ==> *final(rng) == *old(rng),
            *old(rng) is Seeded ==> *final(rng) is Seeded,
            *old(rng) is Fixed ==> *final(rng) == *old(rng),
    {
        if self.game.phase == GamePhase::Finished {
            return;
        }
        let ghost q0 = self.eventqueue.events@;
        let event = match self.eventqueue.events.pop() {
            Some(e) => e,
            None => Event::type_only(EventType::Tick),
        };
        let ghost popped = *self;
        proof {
            if q0.len() > 0 {
                assert(popped.eventqueue.events@ =~= q0.drop_last());
                assert(event == q0.last());
            } else {
                assert(popped.eventqueue.events@ =~= q0);
            }
            assert forall|i: int| 0 <= i < self.eventqueue.events@.len() implies event_ok(
                #[trigger] self.eventqueue.events@[i], self.game.defender_count()) by {
                assert(self.eventqueue.events@[i] == q0[i]);
            }
        }
        self.resolve_event(rng, event);
    }

    /// Resolves events until a line of narration is pending, the game has
    /// finished, or `max_steps` resolutions were made; hands the pending line
    /// over (empty if there is none) and clears it.
    pub fn next_frame(&mut self, rng: &mut RandomSource, max_steps: usize) -> (line: String)
        requires
            old(self).wf(),
        ensures
            final(self).wf(),
            final(self).game.last_log_message@.len() == 0,
            exists|n: nat, pre: Sim| {
                &&& #[trigger] steps_to(*old(self), pre, n, *old(rng))
                &&& n <= max_steps
                &&& n == 0 <==> (old(self).game.last_log_message@.len() > 0 || old(self).game.phase is Finished
                    || max_steps == 0)
                &&& line@.len() > 0 || pre.game.phase is Finished || n == max_steps
                &&& line@ == pre.game.last_log_message@
                &&& final(self).game == (Game { last_log_message: final(self).game.last_log_message, ..pre.game })
                &&& final(self).eventqueue == pre.eventqueue
            },
            *old(rng) is Seeded ==> *final(rng) is Seeded,
            *old(rng) is Fixed ==> *final(rng) == *old(rng),
    {
        let ghost s0 = *self;
        let ghost rng0 = *rng;
        let mut steps: usize = 0;
        while steps < max_steps && self.game.phase != GamePhase::Finished && self.game.last_log_message.as_str().is_empty()
            invariant
                self.wf(),
                steps == 0 ==> *self == s0,
                steps > 0 ==> s0.game.last_log_message@.len() == 0 && !(s0.game.phase is Finished) && max_steps > 0,
                steps <= max_steps,
                steps_to(s0, *self, steps as nat, rng0),
                rng0 == *old(rng),
                *old(rng) is Seeded ==> *rng is Seeded,
                *old(rng) is Fixed ==> *rng == *old(rng),
            decreases max_steps - steps,
        {
            let ghost prev = *self;
            let ghost rprev = *rng;
            self.resolve_last_event(rng);
            assert(last_resolved(prev, *self, rprev));
            assert(steps_to(s0, *self, (steps + 1) as nat, rng0));
            steps = steps + 1;
        }
        let ghost pre = *self;
        let line = self.game.last_log_message.clone();
        self.game.last_log_message = String::new();
        line
    }
}


/// Hit points of a character.
pub open spec fn hp_of(g: Game, e: Entity) -> i8 {
    match e {
        Entity::Delver { index } => g.delverteam.delvers@[index as int].hp,
        Entity::Defender { index } => g.defenderteam.active_defenders@[index as int].hp,
        _ => 0,
    }
}

/// Maximum hit points of a character.
pub open spec fn maxhp_of(g: Game, e: Entity) -> i8 {
    match e {
        Entity::Delver { index } => g.delverteam.delvers@[index as int].maxhp,
        Entity::Defender { index } => g.defenderteam.active_defenders@[index as int].maxhp,
        _ => 0,
    }
}

/// Whether a character is still active.
pub open spec fn active_of(g: Game, e: Entity) -> bool {
    match e {
        Entity::Delver { index } => g.delverteam.delvers@[index as int].active,
        Entity::Defender { index } => g.defenderteam.active_defenders@[index as int].active,
        _ => false,
    }
}

/// Damage that leaves its target at zero hit points or below schedules the
/// target's death on top of the stack: it resolves next, before every event
/// that was already pending, which all stay pending beneath it.
pub proof fn lemma_lethal_damage_dies_next(s0: Sim, e: Event, s1: Sim, rng0: RandomSource)
    requires
        dispatch_spec(s0, e, s1, rng0),
        e.event_type is Damage,
        e.target is Delver || e.target is Defender,
        hp_of(s1.game, e.target) <= 0,
    ensures
        next_event(s1.eventqueue.events@) == death_event(e.source, e.target),
        pending_after(s1.eventqueue.events@) == s0.eventqueue.events@,
{
    assert(s1.eventqueue.events@.drop_last() =~= s0.eventqueue.events@);
}

/// Healing never lifts its target above its maximum hit points, and healing
/// a target already at its maximum leaves its hit points as they were.
pub proof fn lemma_heal_stays_within_max(s0: Sim, e: Event, s1: Sim, rng0: RandomSource)
    requires
        dispatch_spec(s0, e, s1, rng0),
        e.event_type is Heal,
        e.target is Delver || e.target is Defender,
    ensures
        hp_of(s1.game, e.target) <= maxhp_of(s0.game, e.target),
        maxhp_of(s1.game, e.target) == maxhp_of(s0.game, e.target),
        hp_of(s0.game, e.target) == maxhp_of(s0.game, e.target) && e.event_type->Heal_0 >= 0
            ==> hp_of(s1.game, e.target) == hp_of(s0.game, e.target),
{
}

/// A phoenix's holder reborn by the heal branch stays active, its hit points
/// healed by the phoenix's amount up to its maximum.
pub proof fn lemma_phoenix_rebirth_keeps_holder(
    g: Game,
    death: Event,
    out: ReplaceOutcomes,
    s0: Sim,
    s1: Sim,
    rng0: RandomSource,
)
    requires
        death.event_type is Death,
        death.target is Delver || death.target is Defender,
        replace_spec(BaseModifier::Pheonix, death, ModRelation::Target, g, out),
        s0.game == g,
        dispatch_spec(s0, out->Chance_success, s1, rng0),
    ensures
        out is Chance,
        out->Chance_chance == PHOENIX_CHANCE,
        active_of(s1.game, death.target) == active_of(g, death.target),
        hp_of(s1.game, death.target) == healed_hp(hp_of(g, death.target), maxhp_of(g, death.target), PHOENIX_HEAL),
        hp_of(g, death.target) + PHOENIX_HEAL >= maxhp_of(g, death.target) ==> hp_of(s1.game, death.target)
            == maxhp_of(g, death.target),
{
}

/// When a phoenix fails, the death goes ahead: its holder becomes inactive.
pub proof fn lemma_phoenix_failure_kills_holder(
    g: Game,
    death: Event,
    out: ReplaceOutcomes,
    s0: Sim,
    s1: Sim,
    rng0: RandomSource,
)
    requires
        death.event_type is Death,
        death.target is Delver || death.target is Defender,
        replace_spec(BaseModifier::Pheonix, death, ModRelation::Target, g, out),
        s0.game == g,
        dispatch_spec(s0, out->Chance_fail, s1, rng0),
    ensures
        out->Chance_fail.event_type is Death,
        out->Chance_fail.target == death.target,
        out->Chance_fail.source == death.source,
        !active_of(s1.game, death.target),
{
}

/// When the last active delver dies the game's end resolves next, and
/// resolving it finishes the game; from then on the resolver changes
/// nothing (see `Sim::resolve_last_event`).
pub proof fn lemma_last_death_finishes(
    s0: Sim,
    death: Event,
    s1: Sim,
    s2: Sim,
    r0: RandomSource,
    r1: RandomSource,
)
    requires
        death.event_type is Death,
        death.target is Delver,
        dispatch_spec(s0, death, s1, r0),
        !s1.game.delverteam.any_active(),
        dispatch_spec(s1, next_event(s1.eventqueue.events@), s2, r1),
    ensures
        next_event(s1.eventqueue.events@).event_type is EndGame,
        s2.game.phase is Finished,
{
}

/// A boss fight spawns exactly one defender, the boss, at `BOSS_HP` hit
/// points and maximum, which differs from the usual `STARTING_HP`.
pub proof fn lemma_boss_fight_spawns_one_boss(s0: Sim, e: Event, s1: Sim, rng0: RandomSource)
    requires
        dispatch_spec(s0, e, s1, rng0),
        e.event_type is StartBossFight,
    ensures
        s1.game.defender_count() == s0.game.defender_count() + 1,
        s1.game.defenderteam.active_defenders@.last().hp == BOSS_HP,
        s1.game.defenderteam.active_defenders@.last().maxhp == BOSS_HP,
        s1.game.defenderteam.active_defenders@.last().active,
        BOSS_HP != STARTING_HP,
{
}


impl Sim {
    /// Whether the simulation is well formed, as a restored snapshot must be
    /// before it is resumed.
    pub fn is_valid(&self) -> (r: bool)
        ensures
            r == self.wf(),
    {
        let team = &self.game.delverteam;
        if team.delvers.len() != 4 || team.fighter >= 4 || team.nimble >= 4 || team.magic >= 4 || team.support >= 4 {
            return false;
        }
        if team.fighter == team.nimble || team.fighter == team.magic || team.fighter == team.support
            || team.nimble == team.magic || team.nimble == team.support || team.magic == team.support {
            return false;
        }
        if self.game.rand_target >= 4 {
            return false;
        }
        let nf = self.game.defenderteam.active_defenders.len();
        if let GamePhase::Combat { source, target } = self.game.phase {
            if !character_is_ok(source, nf) || !character_is_ok(target, nf) {
                return false;
            }
        }
        let es = &self.eventqueue.events;
        let mut i: usize = 0;
        while i < es.len()
            invariant
                i <= es.len(),
                nf == self.game.defender_count(),
                es@ == self.eventqueue.events@,
                forall|j: int| 0 <= j < i ==> event_ok(#[trigger] es@[j], nf as nat),
            decreases es.len() - i,
        {
            if !event_is_ok(&es[i], nf) {
                assert(!event_ok(es@[i as int], nf as nat));
                return false;
            }
            i = i + 1;
        }
        if !team.has_active() {
            let ends = match es.last() {
                Some(e) => e.event_type.kind() == 4,
                None => false,
            };
            return self.game.phase == GamePhase::Finished || ends;
        }
        true
    }
}


/// Resolving the death of a living delver whose only modifier is a phoenix
/// (its killer carrying none): the delver is either reborn, still active and
/// healed by the phoenix, or dead; with a fixed stub, reborn exactly when the
/// draw falls under the phoenix's chance.
pub proof fn lemma_phoenix_death_resolves(s0: Sim, e: Event, s1: Sim, rng0: RandomSource)
    requires
        resolve_full(s0, e, s1, rng0),
        e.event_type is Death,
        e.target is Delver,
        e.target->Delver_index < s0.game.delverteam.delvers@.len(),
        carried_mods(s0.game, e.target) == seq![BaseModifier::Pheonix],
        carried_mods(s0.game, e.source).len() == 0,
        active_of(s0.game, e.target),
    ensures
        (active_of(s1.game, e.target) && hp_of(s1.game, e.target) == healed_hp(
            hp_of(s0.game, e.target),
            maxhp_of(s0.game, e.target),
            PHOENIX_HEAL,
        )) || !active_of(s1.game, e.target),
        rng0 is Fixed ==> (active_of(s1.game, e.target) <==> rng0.fixed_draw(SCALE as u64) < PHOENIX_CHANCE),
{
    let (gt, es, parts, mid, r) = choose|gt: Game, es: Seq<Event>, parts: Seq<Seq<Event>>, mid: Sim, r: RandomSource|
        #![trigger modifiers_applied(gt, e, es, parts, s0.eventqueue.events@, mid.eventqueue.events@, rng0), dispatch_spec(mid, es.last(), s1, r)]
    {
        &&& gt == (Game { rand_target: gt.rand_target, ..s0.game })
        &&& modifiers_applied(gt, e, es, parts, s0.eventqueue.events@, mid.eventqueue.events@, rng0)
        &&& narrated(s0.game, mid.game, es.last().message)
        &&& victim_drawn(s0.game, mid.game, rng0)
        &&& dispatch_spec(mid, es.last(), s1, r)
        &&& rng0 is Fixed ==> r == rng0
    };
    let m0 = ModToApply { modifier: BaseModifier::Pheonix, relation: ModRelation::Target };
    assert(carried_mods(gt, e.target) == carried_mods(s0.game, e.target));
    assert(carried_mods(gt, e.source) == carried_mods(s0.game, e.source));
    assert(with_relation(seq![BaseModifier::Pheonix], ModRelation::Target) =~= seq![m0]);
    assert(gathered_mods(gt, e) =~= seq![m0]);
    let mods = gathered_mods(gt, e);
    assert(replace_chain(mods, es, gt, rng0));
    assert(mods.len() == 1 && mods[0] == m0);
    assert(replace_step(mods[0], es[0], es[0int + 1], gt, rng0));
    let o = choose|o: ReplaceOutcomes| #[trigger] replace_spec(m0.modifier, es[0], m0.relation, gt, o)
        && continues_with(o, es[1], rng0);
    assert(o is Chance);
    assert(es.last() == es[1]);
    let i = e.target->Delver_index;
    assert(mid.game.delverteam.delvers@[i as int] == s0.game.delverteam.delvers@[i as int]);
}


/// The state a resolution narrated into before applying an unmodified event.
pub open spec fn narrated_mid(s0: Sim, e: Event, s1: Sim, rng0: RandomSource) -> Sim
    recommends
        resolve_spec(s0, e, s1, rng0),
        unmodified(s0.game, e),
{
    (choose|mid: Sim, r: RandomSource| {
        &&& #[trigger] dispatch_spec(mid, e, s1, r)
        &&& narrated(s0.game, mid.game, e.message)
        &&& victim_drawn(s0.game, mid.game, rng0)
        &&& mid.eventqueue.events@ == s0.eventqueue.events@
        &&& rng0 is Fixed ==> r == rng0
    }).0
}

/// Resolving unmodified damage that leaves its target at zero hit points or
/// below lowers its hit points and puts its death on top of every event that
/// was pending, to resolve next.
pub proof fn lemma_resolved_lethal_damage(s0: Sim, e: Event, s1: Sim, rng0: RandomSource)
    requires
        resolve_spec(s0, e, s1, rng0),
        unmodified(s0.game, e),
        e.event_type is Damage,
        e.target is Delver || e.target is Defender,
        damaged_hp(hp_of(s0.game, e.target), e.event_type->Damage_0) <= 0,
    ensures
        hp_of(s1.game, e.target) == damaged_hp(hp_of(s0.game, e.target), e.event_type->Damage_0),
        s1.eventqueue.events@ == s0.eventqueue.events@.push(death_event(e.source, e.target)),
{
    let mid = narrated_mid(s0, e, s1, rng0);
    assert(hp_of(mid.game, e.target) == hp_of(s0.game, e.target));
}

/// Resolving an unmodified heal gives hit points healed by its amount and
/// held to the maximum, whatever the amount: at full health they stay.
pub proof fn lemma_resolved_heal(s0: Sim, e: Event, s1: Sim, rng0: RandomSource)
    requires
        resolve_spec(s0, e, s1, rng0),
        unmodified(s0.game, e),
        e.event_type is Heal,
        e.target is Delver || e.target is Defender,
    ensures
        hp_of(s1.game, e.target) == healed_hp(hp_of(s0.game, e.target), maxhp_of(s0.game, e.target), e.event_type->Heal_0),
        hp_of(s1.game, e.target) <= maxhp_of(s0.game, e.target),
        hp_of(s0.game, e.target) == maxhp_of(s0.game, e.target) && e.event_type->Heal_0 >= 0 ==> hp_of(s1.game, e.target)
            == hp_of(s0.game, e.target),
        s1.game.last_log_message@ == message_text(e.message, s0.game),
        s1.eventqueue.events@ == s0.eventqueue.events@,
{
    let mid = narrated_mid(s0, e, s1, rng0);
    assert(hp_of(mid.game, e.target) == hp_of(s0.game, e.target));
    assert(maxhp_of(mid.game, e.target) == maxhp_of(s0.game, e.target));
}

/// Resolving an unmodified boss fight appends exactly one defender, the boss
/// at `BOSS_HP` hit points and maximum, leaves the others as they were and
/// schedules the challenge line.
pub proof fn lemma_resolved_boss_fight(s0: Sim, e: Event, s1: Sim, rng0: RandomSource)
    requires
        resolve_spec(s0, e, s1, rng0),
        unmodified(s0.game, e),
        e.event_type is StartBossFight,
    ensures
        s1.game.defenderteam.active_defenders@.drop_last() == s0.game.defenderteam.active_defenders@,
        s1.game.defender_count() == s0.game.defender_count() + 1,
        is_boss_of(s1.game.defenderteam.active_defenders@.last(), s0.game.defenderteam.defender),
        s1.eventqueue.events@.len() == s0.eventqueue.events@.len() + 1,
        s1.eventqueue.events@.last().event_type is Log,
{
    let mid = narrated_mid(s0, e, s1, rng0);
    assert(mid.game.defenderteam == s0.game.defenderteam);
}


/// Resolving unmodified damage that leaves its target above zero hit points
/// lowers them and schedules nothing; no other character changes.
pub proof fn lemma_resolved_survivable_damage(s0: Sim, e: Event, s1: Sim, rng0: RandomSource)
    requires
        resolve_spec(s0, e, s1, rng0),
        unmodified(s0.game, e),
        e.event_type is Damage,
        e.target is Delver || e.target is Defender,
        damaged_hp(hp_of(s0.game, e.target), e.event_type->Damage_0) > 0,
    ensures
        hp_of(s1.game, e.target) == damaged_hp(hp_of(s0.game, e.target), e.event_type->Damage_0),
        active_of(s1.game, e.target) == active_of(s0.game, e.target),
        s1.eventqueue.events@ == s0.eventqueue.events@,
        forall|c: Entity| #![trigger hp_of(s1.game, c)] in_range(s0.game, c) && c != e.target ==> hp_of(s1.game, c)
            == hp_of(s0.game, c) && active_of(s1.game, c) == active_of(s0.game, c),
{
    let mid = narrated_mid(s0, e, s1, rng0);
    assert(mid.game.delverteam.delvers == s0.game.delverteam.delvers);
    assert(mid.game.defenderteam == s0.game.defenderteam);
    assert forall|c: Entity| #![trigger hp_of(s1.game, c)] in_range(s0.game, c) && c != e.target implies hp_of(s1.game, c)
        == hp_of(s0.game, c) && active_of(s1.game, c) == active_of(s0.game, c) by {
        match c {
            Entity::Delver { index } => {
                if e.target is Delver {
                    assert(index != e.target->Delver_index);
                }
                assert(s1.game.delverteam.delvers@[index as int] == s0.game.delverteam.delvers@[index as int]);
            },
            Entity::Defender { index } => {
                if e.target is Defender {
                    assert(index != e.target->Defender_index);
                }
                assert(s1.game.defenderteam.active_defenders@[index as int]
                    == s0.game.defenderteam.active_defenders@[index as int]);
            },
            _ => {},
        }
    }
}

/// A character whose index lies within its team's list.
pub open spec fn in_range(g: Game, c: Entity) -> bool {
    match c {
        Entity::Delver { index } => index < g.delverteam.delvers@.len(),
        Entity::Defender { index } => index < g.defender_count(),
        _ => false,
    }
}

} // verus!
