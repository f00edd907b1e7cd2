use vstd::prelude::*;
use crate::entities::{BaseDefender, Defender};

verus! {

/// A plain monster of a monster-party room; `difficulty` becomes its
/// fighting stat.
pub struct Monster {
    pub name: String,
    pub difficulty: u32,
    pub hp: i8,
    pub maxhp: i8,
}

impl Monster {
    pub fn duplicate(&self) -> (r: Monster)
        ensures
            r.name@ == self.name@,
            r.difficulty == self.difficulty,
            r.hp == self.hp,
            r.maxhp == self.maxhp,
    {
        Monster { name: self.name.clone(), difficulty: self.difficulty, hp: self.hp, maxhp: self.maxhp }
    }

    /// The defender this monster spawns as.
    pub open spec fn spawns_as(&self, d: Defender) -> bool {
        &&& d.base.name@ == self.name@
        &&& d.base.fightiness == self.difficulty
        &&& d.base.exploriness == crate::entities::SCALE_HALF
        &&& d.base.magiciness == crate::entities::SCALE_HALF
        &&& d.base.supportiveness == crate::entities::SCALE_HALF
        &&& d.base.perm_mods@.len() == 0
        &&& d.modifiers@.len() == 0
        &&& d.hp == self.hp
        &&& d.maxhp == self.maxhp
        &&& d.active
    }

    pub fn to_game_defender(self) -> (r: Defender)
        ensures
            self.spawns_as(r),
    {
        Defender::create_monster(self.name, self.difficulty, self.hp, self.maxhp)
    }
}

impl Defender {
    pub fn create_monster(name: String, difficulty: u32, hp: i8, maxhp: i8) -> (r: Defender)
        ensures
            r.base.name == name,
            r.base.fightiness == difficulty,
            r.base.exploriness == crate::entities::SCALE_HALF,
            r.base.magiciness == crate::entities::SCALE_HALF,
            r.base.supportiveness == crate::entities::SCALE_HALF,
            r.base.perm_mods@.len() == 0,
            r.modifiers@.len() == 0,
            r.hp == hp,
            r.maxhp == maxhp,
            r.active,
    {
        let mut monster_base = BaseDefender::new_delver(name);
        monster_base.fightiness = difficulty;
        let mut defender = monster_base.to_game_defender();
        defender.hp = hp;
        defender.maxhp = maxhp;
        defender
    }
}

} // verus!
