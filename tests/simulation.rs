use dlungeon::core_loop::GamePhase;
use dlungeon::dice::RandomSource;
use dlungeon::entities::{BaseDefender, BaseDelver, BaseTeam, DefenderTeam, DelverTeam, Dungeon, Entity, Stats};
use dlungeon::events::{Event, EventQueue, EventType, Outcomes};
use dlungeon::messaging::Message;
use dlungeon::modifiers::BaseModifier;
use dlungeon::room_types::{Room, RoomType};
use dlungeon::sim::{Game, Sim};

fn base_team(name: &str) -> BaseTeam {
    let names = ["Brute", "Sneak", "Mage", "Medic"];
    BaseTeam {
        team_name: name.to_string(),
        delvers: names.iter().map(|n| BaseDelver::new_delver(n.to_string())).collect(),
        dungeon: Dungeon::new_dungeon("The Pit".to_string()),
        defenders: vec![BaseDefender::new_delver("Warden".to_string())],
        color: [1, 2, 3],
    }
}

fn new_sim() -> Sim {
    let delvers = DelverTeam::load_team(&base_team("Heroes"));
    let defenders = DefenderTeam::load_team(&base_team("Keepers"));
    Sim { game: Game::new_game(delvers, defenders), eventqueue: EventQueue::new_queue(), finished: false }
}

fn delver(i: usize) -> Entity {
    Entity::Delver { index: i }
}

fn event(event_type: EventType, source: Entity, target: Entity) -> Event {
    Event { event_type, source, target, message: Message::Nothing }
}

fn is_kind(e: &Event, kind: u8) -> bool {
    e.event_type.kind() == kind
}

#[test]
fn trapped_room_with_high_fixed_roll_is_cleared_without_damage() {
    let mut sim = new_sim();
    sim.game.phase = GamePhase::Encounter;
    sim.game.current_room = Room { complete: false, room_type: RoomType::Trapped };
    let mut rng = RandomSource::fixed(900);
    sim.resolve_last_event(&mut rng);
    assert_eq!(sim.eventqueue.events.len(), 1);
    assert!(is_kind(&sim.eventqueue.events[0], 6));
    sim.resolve_last_event(&mut rng);
    assert_eq!(sim.eventqueue.events.len(), 1);
    assert!(is_kind(&sim.eventqueue.events[0], 8));
    sim.resolve_last_event(&mut rng);
    assert!(sim.game.current_room.complete);
    assert!(sim.eventqueue.events.is_empty());
    assert!(sim.game.delverteam.delvers.iter().all(|d| d.hp == 5));
}

#[test]
fn trapped_room_with_low_fixed_roll_hurts_the_victim() {
    let mut sim = new_sim();
    sim.game.phase = GamePhase::Encounter;
    sim.game.current_room = Room { complete: false, room_type: RoomType::Trapped };
    let mut rng = RandomSource::fixed(0);
    sim.resolve_last_event(&mut rng);
    sim.resolve_last_event(&mut rng);
    assert!(is_kind(&sim.eventqueue.events[0], 0));
    sim.resolve_last_event(&mut rng);
    assert!(!sim.game.current_room.complete);
    assert_eq!(sim.game.delverteam.delvers[0].hp, 4);
}

#[test]
fn last_delver_death_finishes_the_game_and_stops_the_resolver() {
    let mut sim = new_sim();
    sim.game.phase = GamePhase::TurnStart;
    for i in 1..4 {
        sim.game.delverteam.delvers[i].active = false;
    }
    sim.game.delverteam.delvers[0].hp = 1;
    let mut rng = RandomSource::fixed(0);
    sim.resolve_event(&mut rng, event(EventType::Damage(1), Entity::Dungeon, delver(0)));
    assert!(is_kind(sim.eventqueue.events.last().unwrap(), 3));
    sim.resolve_last_event(&mut rng);
    assert!(!sim.game.delverteam.delvers[0].active);
    assert!(is_kind(sim.eventqueue.events.last().unwrap(), 4));
    sim.resolve_last_event(&mut rng);
    assert_eq!(sim.game.phase, GamePhase::Finished);
    assert_eq!(sim.game.last_log_message, "Game Ended");
    let pending = sim.eventqueue.events.len();
    for _ in 0..5 {
        sim.resolve_last_event(&mut rng);
    }
    assert_eq!(sim.eventqueue.events.len(), pending);
    assert_eq!(sim.game.phase, GamePhase::Finished);
}

#[test]
fn boss_fight_spawns_one_boss_with_boosted_hp() {
    let mut sim = new_sim();
    let mut rng = RandomSource::fixed(0);
    sim.resolve_event(&mut rng, Event::type_only(EventType::StartBossFight));
    assert_eq!(sim.game.defenderteam.active_defenders.len(), 1);
    let boss = &sim.game.defenderteam.active_defenders[0];
    assert_eq!(boss.hp, 7);
    assert_eq!(boss.maxhp, 7);
    assert_ne!(boss.maxhp, 5);
    assert_eq!(boss.base.name, "Warden");
    match &sim.eventqueue.events[0].message {
        Message::Custom(s) => assert_eq!(s, "Heroes challenge Keepers's defender Warden"),
        _ => panic!("expected a narration"),
    }
}

#[test]
fn lethal_damage_schedules_death_before_pending_events() {
    let mut sim = new_sim();
    sim.game.phase = GamePhase::TurnStart;
    sim.eventqueue.log(Message::Custom("later".to_string()));
    sim.game.delverteam.delvers[2].hp = 1;
    let mut rng = RandomSource::fixed(0);
    sim.resolve_event(&mut rng, event(EventType::Damage(3), Entity::Dungeon, delver(2)));
    assert_eq!(sim.game.delverteam.delvers[2].hp, -2);
    assert_eq!(sim.eventqueue.events.len(), 2);
    let top = sim.eventqueue.events.last().unwrap();
    assert!(is_kind(top, 3));
    assert_eq!(top.target, delver(2));
    assert!(is_kind(&sim.eventqueue.events[0], 5));
}

#[test]
fn non_lethal_damage_schedules_nothing() {
    let mut sim = new_sim();
    let mut rng = RandomSource::fixed(0);
    sim.resolve_event(&mut rng, event(EventType::Damage(2), Entity::Dungeon, delver(1)));
    assert_eq!(sim.game.delverteam.delvers[1].hp, 3);
    assert!(sim.eventqueue.events.is_empty());
}

#[test]
fn heal_is_clamped_to_max_hp() {
    let mut sim = new_sim();
    let mut rng = RandomSource::fixed(0);
    sim.game.delverteam.delvers[0].hp = 2;
    sim.resolve_event(&mut rng, event(EventType::Heal(100), delver(0), delver(0)));
    assert_eq!(sim.game.delverteam.delvers[0].hp, 5);
    sim.resolve_event(&mut rng, event(EventType::Heal(1), delver(0), delver(0)));
    assert_eq!(sim.game.delverteam.delvers[0].hp, 5);
    sim.game.delverteam.delvers[0].hp = 3;
    sim.resolve_event(&mut rng, event(EventType::Heal(1), delver(0), delver(0)));
    assert_eq!(sim.game.delverteam.delvers[0].hp, 4);
}

fn phoenix_trial(seed: u64) -> (bool, bool, String) {
    let mut sim = new_sim();
    sim.game.phase = GamePhase::TurnStart;
    sim.game.delverteam.delvers[1].modifiers.push(BaseModifier::Pheonix);
    sim.game.delverteam.delvers[1].hp = 0;
    let mut rng = RandomSource::seeded(seed);
    sim.resolve_event(&mut rng, event(EventType::Death, Entity::Dungeon, delver(1)));
    let d = &sim.game.delverteam.delvers[1];
    (d.active, d.hp == d.maxhp, sim.game.last_log_message.clone())
}

#[test]
fn phoenix_is_reborn_about_a_quarter_of_the_time() {
    let trials = 4000;
    let mut reborn = 0;
    for seed in 0..trials {
        let (active, full, line) = phoenix_trial(seed);
        if active {
            reborn += 1;
            assert!(full);
            assert_eq!(line, "Sneak's Pheonix activates. They are reborn from their ashes!");
        } else {
            assert_eq!(line, "Sneak's Pheonix fails. Their ashes scatter to the wind.");
        }
    }
    let rate = reborn as f64 / trials as f64;
    assert!((rate - 0.25).abs() < 0.03, "rate {}", rate);
}

fn roll_trial(seed: u64, difficulty: u32) -> bool {
    let mut sim = new_sim();
    sim.game.phase = GamePhase::TurnStart;
    let outcomes = Outcomes {
        success: vec![Event::type_only(EventType::ClearRoom)],
        fail: vec![Event::type_only(EventType::Cancelled)],
    };
    let mut rng = RandomSource::seeded(seed);
    sim.resolve_event(&mut rng, Event::type_only(EventType::Roll { difficulty, stat: Stats::Magiciness, outcomes }));
    is_kind(&sim.eventqueue.events[0], 8)
}

#[test]
fn roll_success_rate_matches_the_comparison_of_scaled_draws() {
    // Team stat 0.75 * 0.5 + 0.25 * (4 * 0.5) = 0.875 against a difficulty of 0.8.
    let (stat, difficulty) = (3500u64, 800u64 * 4);
    let mut wins = 0u64;
    for x1 in 0..1000u64 {
        for x2 in 0..1000u64 {
            if x1 * stat > x2 * difficulty {
                wins += 1;
            }
        }
    }
    let expected = wins as f64 / 1_000_000.0;
    let trials = 4000;
    let hits = (0..trials).filter(|s| roll_trial(*s, 800)).count();
    let rate = hits as f64 / trials as f64;
    assert!((rate - expected).abs() < 0.03, "rate {} expected {}", rate, expected);
}

#[test]
fn same_seed_replays_the_same_narration() {
    let run = |seed: u64| {
        let mut sim = new_sim();
        let mut rng = RandomSource::seeded(seed);
        let mut lines = Vec::new();
        for _ in 0..60 {
            lines.push(sim.next_frame(&mut rng, 1000));
            if sim.game.phase == GamePhase::Finished {
                break;
            }
        }
        lines
    };
    let a = run(7);
    assert_eq!(a, run(7));
    assert!(a.len() > 1);
    assert_eq!(a[0], "The Heroes are delving into the Keepers's dungeon, The Pit");
}

#[test]
fn next_frame_clears_the_pending_line() {
    let mut sim = new_sim();
    let mut rng = RandomSource::fixed(0);
    let line = sim.next_frame(&mut rng, 100);
    assert_eq!(line, "The Heroes are delving into the Keepers's dungeon, The Pit");
    assert_eq!(sim.game.last_log_message, "");
    assert_eq!(sim.game.phase, GamePhase::Encounter);
}

#[test]
fn delve_to_depth_five_starts_the_boss_fight_and_six_ends_the_game() {
    let mut sim = new_sim();
    sim.game.depth = 4;
    let mut rng = RandomSource::fixed(0);
    sim.resolve_event(&mut rng, event(EventType::Delve, delver(1), Entity::Nothing));
    assert_eq!(sim.game.depth, 5);
    assert!(is_kind(sim.eventqueue.events.last().unwrap(), 9));
    sim.eventqueue.events.clear();
    sim.resolve_event(&mut rng, event(EventType::Delve, delver(1), Entity::Nothing));
    assert_eq!(sim.game.depth, 6);
    assert!(is_kind(sim.eventqueue.events.last().unwrap(), 4));
}

#[test]
fn delve_below_boss_depth_draws_a_fresh_room() {
    let mut sim = new_sim();
    sim.game.current_room.complete = true;
    let mut rng = RandomSource::fixed(5);
    sim.resolve_event(&mut rng, event(EventType::Delve, delver(1), Entity::Nothing));
    assert_eq!(sim.game.depth, 1);
    assert!(!sim.game.current_room.complete);
    match &sim.game.current_room.room_type {
        RoomType::Fight { monsters, partyname } => {
            assert_eq!(monsters.len(), 3);
            assert_eq!(partyname, "a horde of zombie pirates!");
        }
        _ => panic!("expected a monster party"),
    }
}

#[test]
fn new_room_theme_follows_the_draw() {
    assert!(matches!(Room::new_room(&mut RandomSource::fixed(1)).room_type, RoomType::Arcane));
    assert!(matches!(Room::new_room(&mut RandomSource::fixed(4)).room_type, RoomType::Trapped));
    assert!(matches!(Room::new_room(&mut RandomSource::fixed(11)).room_type, RoomType::Fight { .. }));
}

#[test]
fn trail_blazer_boosts_exploration_only() {
    let mut sim = new_sim();
    sim.game.delverteam.delvers[1].modifiers.push(BaseModifier::TrailBlazer);
    assert_eq!(delver(1).get_stat(&sim.game, Stats::Exploriness), 800);
    assert_eq!(delver(1).get_stat(&sim.game, Stats::Fightiness), 500);
    assert_eq!(delver(0).collect_stats(&sim.game, Stats::Exploriness), 3 * 500 + 500 * 3 + 800);
}

#[test]
fn team_stat_weights_own_stat_and_every_member() {
    let sim = new_sim();
    assert_eq!(delver(0).collect_stats(&sim.game, Stats::Fightiness), 3500);
}

#[test]
fn trail_blazer_rewrites_delve_and_risks_burns() {
    let mut sim = new_sim();
    sim.game.delverteam.delvers[1].modifiers.push(BaseModifier::TrailBlazer);
    let mut rng = RandomSource::fixed(0);
    sim.resolve_event(&mut rng, event(EventType::Delve, delver(1), Entity::Nothing));
    assert_eq!(sim.game.last_log_message, "Sneak burns a trail forward.");
    assert_eq!(sim.eventqueue.events.len(), 1);
    assert!(is_kind(&sim.eventqueue.events[0], 7));
    sim.resolve_last_event(&mut rng);
    assert!(is_kind(&sim.eventqueue.events[0], 12));
}

#[test]
fn double_or_nothing_adds_one_damage() {
    let mut sim = new_sim();
    sim.game.delverteam.delvers[3].modifiers.push(BaseModifier::DoubleOrNothing);
    let mut rng = RandomSource::fixed(0);
    sim.resolve_event(&mut rng, event(EventType::Damage(1), Entity::Dungeon, delver(3)));
    assert_eq!(sim.game.delverteam.delvers[3].hp, 3);
}

#[test]
fn cheese_thirst_heals_the_killer() {
    let mut sim = new_sim();
    sim.game.phase = GamePhase::TurnStart;
    sim.game.delverteam.delvers[0].modifiers.push(BaseModifier::CheeseThirst);
    sim.game.delverteam.delvers[0].hp = 1;
    let mut rng = RandomSource::fixed(0);
    sim.resolve_event(&mut rng, Event::type_only(EventType::StartBossFight));
    sim.eventqueue.events.clear();
    sim.resolve_event(&mut rng, event(EventType::Death, delver(0), Entity::Defender { index: 0 }));
    assert!(!sim.game.defenderteam.active_defenders[0].active);
    assert_eq!(sim.game.phase, GamePhase::TurnStart);
    assert_eq!(sim.eventqueue.events.len(), 1);
    sim.resolve_last_event(&mut rng);
    assert_eq!(sim.game.last_log_message, "Brute devours their cheese");
    assert_eq!(sim.game.delverteam.delvers[0].hp, 3);
}

#[test]
fn choose_delver_falls_back_to_first_living() {
    let mut sim = new_sim();
    assert_eq!(sim.game.delverteam.choose_delver(Stats::Magiciness), delver(2));
    sim.game.delverteam.delvers[2].active = false;
    sim.game.delverteam.delvers[0].active = false;
    assert_eq!(sim.game.delverteam.choose_delver(Stats::Magiciness), delver(1));
    assert_eq!(sim.game.delverteam.active_delvers(), vec![1, 3]);
}

#[test]
fn choose_defender_takes_the_strongest_living_first_on_tie() {
    let mut sim = new_sim();
    let mut rng = RandomSource::fixed(0);
    for _ in 0..3 {
        sim.resolve_event(&mut rng, Event::type_only(EventType::StartBossFight));
    }
    sim.game.defenderteam.active_defenders[0].active = false;
    assert_eq!(sim.game.defenderteam.choose_defender(Stats::Fightiness), Entity::Defender { index: 1 });
    sim.game.defenderteam.active_defenders[2].base.fightiness = 900;
    assert_eq!(sim.game.defenderteam.choose_defender(Stats::Fightiness), Entity::Defender { index: 2 });
}

#[test]
fn combat_tie_goes_to_the_defending_side() {
    let mut sim = new_sim();
    let mut rng = RandomSource::fixed(0);
    sim.resolve_event(&mut rng, Event::type_only(EventType::StartBossFight));
    sim.eventqueue.events.clear();
    sim.game.phase = GamePhase::Combat { source: delver(0), target: Entity::Defender { index: 0 } };
    sim.resolve_last_event(&mut rng);
    assert_eq!(sim.game.phase, GamePhase::TurnStart);
    assert_eq!(sim.eventqueue.events.len(), 2);
    assert_eq!(sim.eventqueue.events[0].target, delver(0));
    assert_eq!(sim.game.last_log_message, "");
    sim.resolve_last_event(&mut rng);
    assert_eq!(sim.game.last_log_message, "Brute attacks Warden");
    sim.resolve_last_event(&mut rng);
    assert_eq!(sim.game.last_log_message, "Warden injures Brute");
    assert_eq!(sim.game.delverteam.delvers[0].hp, 4);
}

#[test]
fn seeded_draws_stay_below_the_bound_and_vary() {
    let mut rng = RandomSource::seeded(3);
    let draws: Vec<u64> = (0..200).map(|_| rng.below(10)).collect();
    assert!(draws.iter().all(|d| *d < 10));
    assert!(draws.iter().any(|d| *d != draws[0]));
    assert_eq!(RandomSource::fixed(23).below(10), 3);
}

#[test]
fn monster_party_room_clears_and_spawns_each_monster() {
    let mut sim = new_sim();
    sim.game.phase = GamePhase::Encounter;
    sim.game.current_room = Room::new_room(&mut RandomSource::fixed(5));
    let mut rng = RandomSource::fixed(0);
    sim.resolve_last_event(&mut rng);
    assert_eq!(sim.eventqueue.events.len(), 4);
    assert!(is_kind(&sim.eventqueue.events[0], 8));
    assert!(matches!(sim.eventqueue.events[1].message, Message::Encounters(_)));
    for _ in 0..4 {
        sim.resolve_last_event(&mut rng);
    }
    assert_eq!(sim.game.defenderteam.active_defenders.len(), 3);
    assert_eq!(sim.game.defenderteam.active_defenders[0].hp, 3);
    assert_eq!(sim.game.defenderteam.active_defenders[0].base.fightiness, 200);
    assert!(sim.game.current_room.complete);
    assert_eq!(sim.game.last_log_message, "The party encounters a a horde of zombie pirates!");
}
