use vstd::prelude::*;
use crate::entities::Entity;
use crate::events::character_ok;
use crate::sim::Game;

verus! {

/// A narrated line, kept symbolic until it is rendered against a game.
pub enum Message {
    Delving,
    /// Attacker, victim, amount.
    Attack(Entity, Entity, u8),
    /// Healer, healed, amount.
    Heal(Entity, Entity, u8),
    BeginNavigation(Entity),
    Delve(Entity),
    FailedNavigation(Entity),
    Custom(String),
    Death(Entity),
    /// The name of a party spawned before its members exist.
    Encounters(String),
    /// Narrates nothing new: the last line stays.
    Nothing,
}

/// Every entity the message names is a character in range.
pub open spec fn message_ok(m: Message, nf: nat) -> bool {
    match m {
        Message::Attack(a, b, _) => character_ok(a, nf) && character_ok(b, nf),
        Message::Heal(a, b, _) => character_ok(a, nf) && character_ok(b, nf),
        Message::BeginNavigation(a) => character_ok(a, nf),
        Message::Delve(a) => character_ok(a, nf),
        Message::FailedNavigation(a) => character_ok(a, nf),
        Message::Death(a) => character_ok(a, nf),
        _ => true,
    }
}

/// The rendered text of a message.
pub open spec fn message_text(m: Message, game: Game) -> Seq<char> {
    match m {
        Message::Attack(a, b, _) => game.name_of(a) + " injures "@ + game.name_of(b),
        Message::Delving => "The "@ + game.delverteam.name@ + " are delving into the "@
            + game.defenderteam.name@ + "'s dungeon, "@ + game.defenderteam.dungeon.name@,
        Message::Heal(a, b, _) => game.name_of(a) + " heals "@ + game.name_of(b),
        Message::BeginNavigation(a) => game.name_of(a) + " begins trying to navigate to the next room."@,
        Message::Delve(a) => game.name_of(a) + " guides the delvers deeper into the dungeon."@,
        Message::FailedNavigation(a) => game.name_of(a) + " hurts themselves while navigating."@,
        Message::Custom(s) => s@,
        Message::Death(a) => game.name_of(a) + " dies."@,
        Message::Encounters(s) => "The party encounters a "@ + s@,
        Message::Nothing => game.last_log_message@,
    }
}

impl Message {
    pub fn to_string(&self, game: &Game) -> (r: String)
        requires
            game.wf(),
            message_ok(*self, game.defender_count()),
        ensures
            r@ == message_text(*self, *game),
    {
        match self {
            Message::Attack(a, b, _) => a.to_string(game).concat(" injures ").concat(b.to_string(game).as_str()),
            Message::Delving => String::from_str("The ").concat(game.delverteam.name.as_str()).concat(
                " are delving into the ",
            ).concat(game.defenderteam.name.as_str()).concat("'s dungeon, ").concat(
                game.defenderteam.dungeon.name.as_str(),
            ),
            Message::Heal(a, b, _) => a.to_string(game).concat(" heals ").concat(b.to_string(game).as_str()),
            Message::BeginNavigation(a) => a.to_string(game).concat(" begins trying to navigate to the next room."),
            Message::Delve(a) => a.to_string(game).concat(" guides the delvers deeper into the dungeon."),
            Message::FailedNavigation(a) => a.to_string(game).concat(" hurts themselves while navigating."),
            Message::Custom(s) => s.clone(),
            Message::Death(a) => a.to_string(game).concat(" dies."),
            Message::Encounters(s) => String::from_str("The party encounters a ").concat(s.as_str()),
            Message::Nothing => game.last_log_message.clone(),
        }
    }
}

} // verus!
