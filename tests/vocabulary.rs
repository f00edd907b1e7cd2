use dlungeon::combat::Monster;
use dlungeon::core_loop::GamePhase;
use dlungeon::dice::RandomSource;
use dlungeon::entities::{BaseDefender, BaseDelver, BaseTeam, DefenderTeam, DelverTeam, Dungeon, Entity, Stats};
use dlungeon::events::{Event, EventQueue, EventType, Outcomes, OutcomesWithImmediate};
use dlungeon::generic_modifiers::{
    apply_generic_replace, example_event, GenericEntity, GenericEvent, GenericMessage, GenericReplace, GenericString,
};
use dlungeon::messaging::Message;
use dlungeon::modifiers::{BaseModifier, ReplaceOutcomes};
use dlungeon::room_types::{arcane_ward, bossfight, fight, trapped, Coordinate, RoomType};
use dlungeon::sim::{Game, Sim};

fn game() -> Game {
    let names = ["Brute", "Sneak", "Mage", "Medic"];
    let base = BaseTeam {
        team_name: "Heroes".to_string(),
        delvers: names.iter().map(|n| BaseDelver::new_delver(n.to_string())).collect(),
        dungeon: Dungeon::new_dungeon("The Pit".to_string()),
        defenders: vec![BaseDefender::new_delver("Warden".to_string())],
        color: [0, 0, 0],
    };
    let mut other = BaseTeam {
        team_name: "Keepers".to_string(),
        delvers: Vec::new(),
        dungeon: Dungeon::new_dungeon("The Pit".to_string()),
        defenders: vec![BaseDefender::new_delver("Warden".to_string())],
        color: [0, 0, 0],
    };
    other.dungeon.lengthiness = 700;
    Game::new_game(DelverTeam::load_team(&base), DefenderTeam::load_team(&other))
}

fn death_of(i: usize) -> Event {
    Event { event_type: EventType::Death, source: Entity::Dungeon, target: Entity::Delver { index: i }, message: Message::Nothing }
}

#[test]
fn messages_render_with_names() {
    let g = game();
    let a = Entity::Delver { index: 0 };
    let b = Entity::Delver { index: 3 };
    assert_eq!(Message::Attack(a, b, 1).to_string(&g), "Brute injures Medic");
    assert_eq!(Message::Heal(b, a, 1).to_string(&g), "Medic heals Brute");
    assert_eq!(Message::Death(b).to_string(&g), "Medic dies.");
    assert_eq!(Message::BeginNavigation(a).to_string(&g), "Brute begins trying to navigate to the next room.");
    assert_eq!(Message::FailedNavigation(a).to_string(&g), "Brute hurts themselves while navigating.");
    assert_eq!(Message::Encounters("horde".to_string()).to_string(&g), "The party encounters a horde");
    assert_eq!(Message::Nothing.to_string(&g), "");
    assert_eq!(Message::Delving.to_string(&g), "The Heroes are delving into the Keepers's dungeon, The Pit");
}

#[test]
fn outcomes_pick_a_branch() {
    let o = Outcomes { success: vec![Event::cancelled()], fail: vec![] };
    assert_eq!(o.get(true).len(), 1);
    let o = Outcomes { success: vec![Event::cancelled()], fail: vec![] };
    assert_eq!(o.get(false).len(), 0);
    let o = OutcomesWithImmediate {
        immediate_success: Event::type_only(EventType::Tick),
        success: vec![],
        immediate_fail: Event::type_only(EventType::Log),
        fail: vec![Event::cancelled(), Event::cancelled()],
    };
    let (first, rest) = o.get(false);
    assert_eq!(first.event_type.kind(), 5);
    assert_eq!(rest.len(), 2);
}

#[test]
fn coordinates_add_componentwise() {
    assert_eq!(Coordinate(1, -2).add(Coordinate(3, 4)), Coordinate(4, 2));
}

#[test]
fn delver_index_is_read_back() {
    assert_eq!(Entity::Delver { index: 3 }.get_delver_index(), 3);
}

#[test]
fn room_types_declare_their_governing_stat() {
    assert_eq!(trapped::base_stat(), Stats::Fightiness);
    assert_eq!(arcane_ward::base_stat(), Stats::Magiciness);
    assert_eq!(bossfight::base_stat(), Stats::Fightiness);
    assert_eq!(fight::base_stat(), Stats::Fightiness);
    assert_eq!(RoomType::Arcane.base_stat(), Stats::Magiciness);
    assert_eq!(RoomType::Empty.base_stat(), Stats::Exploriness);
}

#[test]
fn arcane_ward_is_harder_and_hurts_more_than_a_trap() {
    let g = game();
    let mut q = EventQueue::new_queue();
    RoomType::Arcane.attempt_clear(&g, Entity::Room, Entity::Delver { index: 2 }, &mut q);
    match &q.events[0].event_type {
        EventType::Roll { difficulty, stat, outcomes } => {
            assert_eq!(*difficulty, 900);
            assert_eq!(*stat, Stats::Magiciness);
            assert!(matches!(outcomes.fail[0].event_type, EventType::Damage(2)));
        }
        _ => panic!("expected a roll"),
    }
    match &q.events[0].message {
        Message::Custom(s) => assert_eq!(s, "Mage attempts to clear an arcane ward."),
        _ => panic!("expected a narration"),
    }
}

#[test]
fn boss_room_schedules_fight_then_clear() {
    let g = game();
    let mut q = EventQueue::new_queue();
    RoomType::BossFight.attempt_clear(&g, Entity::Room, Entity::Delver { index: 0 }, &mut q);
    assert_eq!(q.events.len(), 2);
    assert_eq!(q.events[0].event_type.kind(), 9);
    assert_eq!(q.events[1].event_type.kind(), 8);
}

#[test]
fn navigation_roll_uses_dungeon_length() {
    let mut sim = Sim { game: game(), eventqueue: EventQueue::new_queue(), finished: false };
    sim.game.phase = GamePhase::Delve;
    sim.resolve_last_event(&mut RandomSource::fixed(0));
    assert_eq!(sim.game.phase, GamePhase::TurnStart);
    match &sim.eventqueue.events[0].event_type {
        EventType::Roll { difficulty, stat, .. } => {
            assert_eq!(*difficulty, 700);
            assert_eq!(*stat, Stats::Exploriness);
        }
        _ => panic!("expected a roll"),
    }
}

#[test]
fn monster_spawns_with_its_own_hp() {
    let d = Monster { name: "Rat".to_string(), difficulty: 150, hp: 2, maxhp: 4 }.to_game_defender();
    assert_eq!((d.hp, d.maxhp, d.base.fightiness, d.base.exploriness), (2, 4, 150, 500));
}

#[test]
fn phoenix_replace_branches_on_death_only() {
    let g = game();
    let m = BaseModifier::Pheonix;
    match m.replace_event(death_of(1), dlungeon::modifiers::ModRelation::Target, &g) {
        ReplaceOutcomes::Chance { chance, success, fail } => {
            assert_eq!(chance, 250);
            assert!(matches!(success.event_type, EventType::Heal(100)));
            assert_eq!(fail.event_type.kind(), 3);
        }
        _ => panic!("expected a branch"),
    }
    let heal = Event { event_type: EventType::Heal(1), ..death_of(1) };
    assert!(matches!(
        m.replace_event(heal, dlungeon::modifiers::ModRelation::Target, &g),
        ReplaceOutcomes::Event { .. }
    ));
}

#[test]
fn generic_phoenix_builds_its_messages_from_the_event() {
    let g = game();
    let mut modifier = example_event();
    assert_eq!(modifier.replaces.len(), 1);
    let rule = modifier.replaces.remove(0);
    let trigger = Event { source: Entity::Delver { index: 1 }, ..death_of(1) };
    match apply_generic_replace(trigger, rule, &g) {
        ReplaceOutcomes::Chance { chance, success, fail } => {
            assert_eq!(chance, 250);
            assert!(matches!(success.event_type, EventType::Heal(5)));
            match (&success.message, &fail.message) {
                (Message::Custom(a), Message::Custom(b)) => {
                    assert_eq!(a, "Sneak's Pheonix activates. They are reborn from their ashes!");
                    assert_eq!(b, "Sneak's Pheonix fails. Their ashes scatter to the wind.");
                }
                _ => panic!("expected narrations"),
            }
        }
        _ => panic!("expected a branch"),
    }
}

#[test]
fn generic_rule_ignores_other_kinds() {
    let g = game();
    let rule = GenericReplace::AlwaysReplace {
        event_type: EventType::Damage(0),
        replace_with: GenericEvent {
            target: GenericEntity::Target,
            source: GenericEntity::Nothing,
            message: GenericMessage::Custom(vec![
                GenericString::Phrase("ouch, ".to_string()),
                GenericString::EntityName(GenericEntity::Target),
            ]),
            event_type: EventType::Heal(1),
        },
    };
    assert!(matches!(apply_generic_replace(death_of(2), rule, &g), ReplaceOutcomes::Event { event } if event.event_type.kind() == 3));
    let rule = GenericReplace::AlwaysReplace {
        event_type: EventType::Damage(0),
        replace_with: GenericEvent {
            target: GenericEntity::Target,
            source: GenericEntity::Nothing,
            message: GenericMessage::Custom(vec![
                GenericString::Phrase("ouch, ".to_string()),
                GenericString::EntityName(GenericEntity::Target),
            ]),
            event_type: EventType::Heal(1),
        },
    };
    let hit = Event { event_type: EventType::Damage(4), ..death_of(2) };
    match apply_generic_replace(hit, rule, &g) {
        ReplaceOutcomes::Event { event } => {
            assert!(matches!(event.event_type, EventType::Heal(1)));
            assert_eq!(event.source, Entity::Nothing);
            assert!(matches!(event.message, Message::Custom(ref s) if s == "ouch, Mage"));
        }
        _ => panic!("expected a replacement"),
    }
}

#[test]
fn restored_state_is_checked() {
    let mut sim = Sim { game: game(), eventqueue: EventQueue::new_queue(), finished: false };
    assert!(sim.is_valid());
    sim.eventqueue.push(Event::type_only(EventType::SpawnDefender(BaseDefender::new_delver("X".to_string()).to_game_defender())));
    assert!(sim.is_valid());
    sim.eventqueue.push(death_of(9));
    assert!(!sim.is_valid());
    sim.eventqueue.events.pop();
    sim.game.delverteam.magic = 0;
    assert!(!sim.is_valid());
}

#[test]
fn delve_must_be_led_by_a_delver() {
    let mut sim = Sim { game: game(), eventqueue: EventQueue::new_queue(), finished: false };
    sim.eventqueue.push(Event { event_type: EventType::Delve, source: Entity::Delver { index: 1 }, target: Entity::Nothing, message: Message::Nothing });
    assert!(sim.is_valid());
    sim.eventqueue.push(Event { event_type: EventType::Delve, source: Entity::Dungeon, target: Entity::Nothing, message: Message::Nothing });
    assert!(!sim.is_valid());
}

#[test]
fn finished_tick_does_nothing_even_with_no_living_delver() {
    let mut sim = Sim { game: game(), eventqueue: EventQueue::new_queue(), finished: false };
    for d in sim.game.delverteam.delvers.iter_mut() {
        d.active = false;
    }
    sim.game.phase = GamePhase::Finished;
    dlungeon::core_loop::tick(&mut sim, &mut RandomSource::fixed(0));
    assert_eq!(sim.game.phase, GamePhase::Finished);
    assert!(sim.eventqueue.events.is_empty());
}

#[test]
fn end_game_finishes_and_schedules_its_line() {
    let mut sim = Sim { game: game(), eventqueue: EventQueue::new_queue(), finished: false };
    sim.resolve_event(&mut RandomSource::fixed(0), Event::type_only(EventType::EndGame));
    assert_eq!(sim.game.phase, GamePhase::Finished);
    assert_eq!(sim.game.last_log_message, "Game Ended");
    assert_eq!(sim.eventqueue.events.len(), 1);
    assert!(matches!(&sim.eventqueue.events[0].message, Message::Custom(s) if s == "Game Ended"));
}

#[test]
fn hazard_victim_is_a_living_delver() {
    let mut sim = Sim { game: game(), eventqueue: EventQueue::new_queue(), finished: false };
    sim.game.delverteam.delvers[0].active = false;
    sim.game.delverteam.delvers[2].active = false;
    sim.resolve_event(&mut RandomSource::fixed(1), Event::type_only(EventType::Log));
    assert_eq!(sim.game.rand_target, 3);
}
