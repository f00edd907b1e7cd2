use vstd::prelude::*;
use crate::modifiers::{BaseModifier, fold_mods, apply_stat_mods, copy_mods};
use crate::events::character_ok;
use crate::sim::{Game, TEAM_STAT_CEILING};

verus! {

/// Hit points every character starts a game with.
pub const STARTING_HP: i8 = 5;
/// Weight of the acting character's own stat in a team-weighted stat, in quarters.
pub const OWN_WEIGHT: u128 = 3;
/// Weight of each party member's stat (the actor's included) in a team-weighted stat, in quarters.
pub const MEMBER_WEIGHT: u128 = 1;
/// Denominator of the two weights above.
pub const WEIGHT_DENOM: u128 = 4;

/// The four governing attributes.
#[derive(Clone, Copy, Debug, PartialEq, Eq, Structural)]
pub enum Stats {
    Exploriness,
    Fightiness,
    Magiciness,
    Supportiveness,
}

/// A reference to something that can be the source or target of an event:
/// characters by index into their team's list, never by pointer.
#[derive(Clone, Copy, Debug, PartialEq, Eq, Structural)]
pub enum Entity {
    Delver { index: usize },
    Defender { index: usize },
    /// The current room.
    Room,
    Dungeon,
    DelverTeam,
    DefenderTeam,
    Nothing,
}

impl Entity {
    pub fn to_string(&self, game: &Game) -> (r: String)
        requires
            game.wf(),
            character_ok(*self, game.defender_count()),
        ensures
            r@ == game.name_of(*self),
    {
        match self {
            Entity::Delver { index } => game.delverteam.delvers[*index].base.name.clone(),
            Entity::Defender { index } => game.defenderteam.active_defenders[*index].base.name.clone(),
            _ => String::new(),
        }
    }

    pub fn get_stat(&self, game: &Game, stat: Stats) -> (r: u32)
        requires
            game.wf(),
            character_ok(*self, game.defender_count()),
        ensures
            r == game.stat_of(*self, stat),
    {
        match self {
            Entity::Delver { index } => game.delverteam.delvers[*index].get_stat(stat),
            Entity::Defender { index } => game.defenderteam.active_defenders[*index].get_stat(stat),
            _ => 0,
        }
    }

    pub fn collect_stats(&self, game: &Game, stat: Stats) -> (r: u128)
        requires
            game.wf(),
            character_ok(*self, game.defender_count()),
        ensures
            r == game.team_stat_of(*self, stat),
            r < TEAM_STAT_CEILING,
    {
        match self {
            Entity::Delver { .. } => Delver::collect_stats(self, &game.delverteam.delvers, stat),
            Entity::Defender { .. } => Defender::collect_stats(self, &game.defenderteam.active_defenders, stat),
            _ => 0,
        }
    }

    pub fn is_character(&self) -> (r: bool)
        ensures
            r == crate::modifiers::is_character(*self),
    {
        match self {
            Entity::Delver { .. } | Entity::Defender { .. } => true,
            _ => false,
        }
    }

    pub fn get_delver_index(self) -> (r: usize)
        requires
            self is Delver,
        ensures
            r == self->Delver_index,
    {
        match self {
            Entity::Delver { index } => index,
            _ => 0,
        }
    }
}

/// Picks one of four values by stat.
pub open spec fn pick_stat(stat: Stats, e: u32, f: u32, m: u32, s: u32) -> u32 {
    match stat {
        Stats::Exploriness => e,
        Stats::Fightiness => f,
        Stats::Magiciness => m,
        Stats::Supportiveness => s,
    }
}

// ------------------------------ templates ------------------------------

/// A delver as stored between games; stats in thousandths.
pub struct BaseDelver {
    pub name: String,
    pub exploriness: u32,
    pub fightiness: u32,
    pub magiciness: u32,
    pub supportiveness: u32,
    pub perm_mods: Vec<BaseModifier>,
}

impl BaseDelver {
    pub open spec fn raw_stat(&self, stat: Stats) -> u32 {
        pick_stat(stat, self.exploriness, self.fightiness, self.magiciness, self.supportiveness)
    }

    /// Same name, stats and modifiers.
    pub open spec fn agrees(&self, o: &BaseDelver) -> bool {
        &&& self.name@ == o.name@
        &&& self.exploriness == o.exploriness
        &&& self.fightiness == o.fightiness
        &&& self.magiciness == o.magiciness
        &&& self.supportiveness == o.supportiveness
        &&& self.perm_mods@ == o.perm_mods@
    }

    pub fn new_delver(name: String) -> (r: BaseDelver)
        ensures
            r.name == name,
            r.exploriness == SCALE_HALF && r.fightiness == SCALE_HALF,
            r.magiciness == SCALE_HALF && r.supportiveness == SCALE_HALF,
            r.perm_mods@.len() == 0,
    {
        BaseDelver {
            name,
            exploriness: SCALE_HALF,
            fightiness: SCALE_HALF,
            magiciness: SCALE_HALF,
            supportiveness: SCALE_HALF,
            perm_mods: Vec::new(),
        }
    }

    pub fn duplicate(&self) -> (r: BaseDelver)
        ensures
            r.agrees(self),
    {
        BaseDelver {
            name: self.name.clone(),
            exploriness: self.exploriness,
            fightiness: self.fightiness,
            magiciness: self.magiciness,
            supportiveness: self.supportiveness,
            perm_mods: copy_mods(&self.perm_mods),
        }
    }

    pub fn to_game_delver(self) -> (r: Delver)
        ensures
            r.loaded_from(&self),
    {
        Delver::load_delver(self)
    }
}

/// A defender as stored between games; stats in thousandths.
pub struct BaseDefender {
    pub name: String,
    pub exploriness: u32,
    pub fightiness: u32,
    pub magiciness: u32,
    pub supportiveness: u32,
    pub perm_mods: Vec<BaseModifier>,
}

impl BaseDefender {
    pub open spec fn raw_stat(&self, stat: Stats) -> u32 {
        pick_stat(stat, self.exploriness, self.fightiness, self.magiciness, self.supportiveness)
    }

    /// Same name, stats and modifiers.
    pub open spec fn agrees(&self, o: &BaseDefender) -> bool {
        &&& self.name@ == o.name@
        &&& self.exploriness == o.exploriness
        &&& self.fightiness == o.fightiness
        &&& self.magiciness == o.magiciness
        &&& self.supportiveness == o.supportiveness
        &&& self.perm_mods@ == o.perm_mods@
    }

    pub fn new_delver(name: String) -> (r: BaseDefender)
        ensures
            r.name == name,
            r.exploriness == SCALE_HALF && r.fightiness == SCALE_HALF,
            r.magiciness == SCALE_HALF && r.supportiveness == SCALE_HALF,
            r.perm_mods@.len() == 0,
    {
        BaseDefender {
            name,
            exploriness: SCALE_HALF,
            fightiness: SCALE_HALF,
            magiciness: SCALE_HALF,
            supportiveness: SCALE_HALF,
            perm_mods: Vec::new(),
        }
    }

    pub fn duplicate(&self) -> (r: BaseDefender)
        ensures
            r.agrees(self),
    {
        BaseDefender {
            name: self.name.clone(),
            exploriness: self.exploriness,
            fightiness: self.fightiness,
            magiciness: self.magiciness,
            supportiveness: self.supportiveness,
            perm_mods: copy_mods(&self.perm_mods),
        }
    }

    pub fn to_game_defender(self) -> (r: Defender)
        ensures
            r.loaded_from(&self),
    {
        Defender::load_defender(self)
    }
}

/// Half of one, the default of every template stat.
pub const SCALE_HALF: u32 = 500;

// ------------------------------ characters ------------------------------

pub struct Delver {
    pub base: BaseDelver,
    pub hp: i8,
    pub maxhp: i8,
    pub active: bool,
    pub modifiers: Vec<BaseModifier>,
}

impl Delver {
    /// A fresh character made from `b`.
    pub open spec fn loaded_from(&self, b: &BaseDelver) -> bool {
        &&& self.base == *b
        &&& self.hp == STARTING_HP
        &&& self.maxhp == STARTING_HP
        &&& self.active
        &&& self.modifiers@ == b.perm_mods@
    }

    /// The base stat folded through every modifier in attachment order.
    pub open spec fn spec_stat(&self, stat: Stats) -> u32 {
        fold_mods(self.modifiers@, stat, self.base.raw_stat(stat))
    }

    pub fn load_delver(base: BaseDelver) -> (r: Delver)
        ensures
            r.loaded_from(&base),
    {
        let modifiers = copy_mods(&base.perm_mods);
        Delver { base, hp: STARTING_HP, maxhp: STARTING_HP, active: true, modifiers }
    }

    pub fn get_stat(&self, stat: Stats) -> (r: u32)
        ensures
            r == self.spec_stat(stat),
    {
        let raw = match stat {
            Stats::Exploriness => self.base.exploriness,
            Stats::Fightiness => self.base.fightiness,
            Stats::Magiciness => self.base.magiciness,
            Stats::Supportiveness => self.base.supportiveness,
        };
        apply_stat_mods(&self.modifiers, stat, raw)
    }

    /// Team-weighted stat of the delver at `active_delver`, in quarter-thousandths:
    /// its own stat at `OWN_WEIGHT` plus every party member's (its own included)
    /// at `MEMBER_WEIGHT`.
    pub fn collect_stats(active_delver: &Entity, all_delvers: &Vec<Delver>, stat: Stats) -> (r: u128)
        requires
            *active_delver is Delver,
            active_delver->Delver_index < all_delvers.len(),
        ensures
            r == OWN_WEIGHT * all_delvers@[active_delver->Delver_index as int].spec_stat(stat)
                + MEMBER_WEIGHT * delver_stat_sum(all_delvers@, stat),
            r < TEAM_STAT_CEILING,
    {
        let i = active_delver.get_delver_index();
        let own = all_delvers[i].get_stat(stat) as u128;
        let mut total: u128 = 0;
        let mut k: usize = 0;
        while k < all_delvers.len()
            invariant
                k <= all_delvers.len(),
                total == delver_stat_sum(all_delvers@.subrange(0, k as int), stat),
                total <= k * 0xffff_ffffu128,
            decreases all_delvers.len() - k,
        {
            assert(all_delvers@.subrange(0, k + 1).drop_last() =~= all_delvers@.subrange(0, k as int));
            total = total + all_delvers[k].get_stat(stat) as u128;
            k = k + 1;
        }
        assert(all_delvers@.subrange(0, all_delvers.len() as int) =~= all_delvers@);
        OWN_WEIGHT * own + MEMBER_WEIGHT * total
    }
}

/// Sum of every delver's stat.
pub open spec fn delver_stat_sum(ds: Seq<Delver>, stat: Stats) -> int
    decreases ds.len(),
{
    if ds.len() == 0 {
        0
    } else {
        delver_stat_sum(ds.drop_last(), stat) + ds.last().spec_stat(stat)
    }
}

pub struct Defender {
    pub base: BaseDefender,
    pub hp: i8,
    pub maxhp: i8,
    pub active: bool,
    pub modifiers: Vec<BaseModifier>,
}

impl Defender {
    /// A fresh character made from `b`.
    pub open spec fn loaded_from(&self, b: &BaseDefender) -> bool {
        &&& self.base == *b
        &&& self.hp == STARTING_HP
        &&& self.maxhp == STARTING_HP
        &&& self.active
        &&& self.modifiers@ == b.perm_mods@
    }

    /// The base stat folded through every modifier in attachment order.
    pub open spec fn spec_stat(&self, stat: Stats) -> u32 {
        fold_mods(self.modifiers@, stat, self.base.raw_stat(stat))
    }

    pub fn load_defender(base: BaseDefender) -> (r: Defender)
        ensures
            r.loaded_from(&base),
    {
        let modifiers = copy_mods(&base.perm_mods);
        Defender { base, hp: STARTING_HP, maxhp: STARTING_HP, active: true, modifiers }
    }

    pub fn get_stat(&self, stat: Stats) -> (r: u32)
        ensures
            r == self.spec_stat(stat),
    {
        let raw = match stat {
            Stats::Exploriness => self.base.exploriness,
            Stats::Fightiness => self.base.fightiness,
            Stats::Magiciness => self.base.magiciness,
            Stats::Supportiveness => self.base.supportiveness,
        };
        apply_stat_mods(&self.modifiers, stat, raw)
    }

    /// Team-weighted stat of the defender at `active_defender`, in
    /// quarter-thousandths: its own stat at `OWN_WEIGHT` plus every living
    /// defender's at `MEMBER_WEIGHT`.
    pub fn collect_stats(active_defender: &Entity, all_defenders: &Vec<Defender>, stat: Stats) -> (r: u128)
        requires
            *active_defender is Defender,
            active_defender->Defender_index < all_defenders.len(),
        ensures
            r == OWN_WEIGHT * all_defenders@[active_defender->Defender_index as int].spec_stat(stat)
                + MEMBER_WEIGHT * living_defender_stat_sum(all_defenders@, stat),
            r < TEAM_STAT_CEILING,
    {
        let i = match active_defender {
            Entity::Defender { index } => *index,
            _ => 0,
        };
        let own = all_defenders[i].get_stat(stat) as u128;
        let mut total: u128 = 0;
        let mut k: usize = 0;
        while k < all_defenders.len()
            invariant
                k <= all_defenders.len(),
                total == living_defender_stat_sum(all_defenders@.subrange(0, k as int), stat),
                total <= k * 0xffff_ffffu128,
            decreases all_defenders.len() - k,
        {
            assert(all_defenders@.subrange(0, k + 1).drop_last() =~= all_defenders@.subrange(0, k as int));
            if all_defenders[k].active {
                total = total + all_defenders[k].get_stat(stat) as u128;
            }
            k = k + 1;
        }
        assert(all_defenders@.subrange(0, all_defenders.len() as int) =~= all_defenders@);
        OWN_WEIGHT * own + MEMBER_WEIGHT * total
    }
}

/// Sum of the stat over the defenders still active.
pub open spec fn living_defender_stat_sum(ds: Seq<Defender>, stat: Stats) -> int
    decreases ds.len(),
{
    if ds.len() == 0 {
        0
    } else {
        living_defender_stat_sum(ds.drop_last(), stat) + if ds.last().active {
            ds.last().spec_stat(stat) as int
        } else {
            0
        }
    }
}


// ------------------------------ teams ------------------------------

/// Static flavour and difficulty of a dungeon; axes in thousandths.
pub struct Dungeon {
    pub name: String,
    pub twistiness: u32,
    pub deadliness: u32,
    pub lengthiness: u32,
}

impl Dungeon {
    pub fn new_dungeon(name: String) -> (r: Dungeon)
        ensures
            r.name == name,
            r.twistiness == SCALE_HALF && r.deadliness == SCALE_HALF && r.lengthiness == SCALE_HALF,
    {
        Dungeon { name, twistiness: SCALE_HALF, deadliness: SCALE_HALF, lengthiness: SCALE_HALF }
    }

    pub fn duplicate(&self) -> (r: Dungeon)
        ensures
            r.name@ == self.name@,
            r.twistiness == self.twistiness,
            r.deadliness == self.deadliness,
            r.lengthiness == self.lengthiness,
    {
        Dungeon {
            name: self.name.clone(),
            twistiness: self.twistiness,
            deadliness: self.deadliness,
            lengthiness: self.lengthiness,
        }
    }
}

/// A team as a roster provider hands it over: four delvers in role order
/// (fighter, nimble, magic, support), a dungeon and defender templates.
pub struct BaseTeam {
    pub team_name: String,
    pub delvers: Vec<BaseDelver>,
    pub dungeon: Dungeon,
    pub defenders: Vec<BaseDefender>,
    pub color: [u8; 3],
}

/// Role slot of the delver that leads on each stat.
pub open spec fn role_slot(team: &DelverTeam, stat: Stats) -> usize {
    match stat {
        Stats::Exploriness => team.nimble,
        Stats::Fightiness => team.fighter,
        Stats::Magiciness => team.magic,
        Stats::Supportiveness => team.support,
    }
}

/// The first living delver at or after `k`, or 4 if there is none.
pub open spec fn first_active_from(team: &DelverTeam, k: int) -> int
    decreases 4 - k,
{
    if k >= 4 {
        4
    } else if team.delvers@[k].active {
        k
    } else {
        first_active_from(team, k + 1)
    }
}

/// The delver that acts on `stat`: the role's own delver while it lives,
/// else the first living one.
pub open spec fn chosen_delver(team: &DelverTeam, stat: Stats) -> usize {
    if team.is_active(role_slot(team, stat)) {
        role_slot(team, stat)
    } else {
        first_active_from(team, 0) as usize
    }
}

/// The delver party: four delvers, each role slot an index into the list.
pub struct DelverTeam {
    pub name: String,
    pub delvers: Vec<Delver>,
    pub fighter: usize,
    pub nimble: usize,
    pub magic: usize,
    pub support: usize,
}

impl DelverTeam {
    /// Four delvers and four distinct role slots among them.
    pub open spec fn wf(&self) -> bool {
        &&& self.delvers.len() == 4
        &&& self.fighter < 4 && self.nimble < 4 && self.magic < 4 && self.support < 4
        &&& self.fighter != self.nimble && self.fighter != self.magic && self.fighter != self.support
        &&& self.nimble != self.magic && self.nimble != self.support && self.magic != self.support
    }

    pub open spec fn is_active(&self, i: usize) -> bool {
        self.delvers@[i as int].active
    }

    pub open spec fn any_active(&self) -> bool {
        exists|i: int| 0 <= i < self.delvers.len() && #[trigger] self.delvers@[i].active
    }

    /// Living role slots in the order fighter, magic, nimble, support.
    pub open spec fn spec_active_delvers(&self) -> Seq<usize> {
        (if self.is_active(self.fighter) { seq![self.fighter] } else { Seq::empty() })
            + (if self.is_active(self.magic) { seq![self.magic] } else { Seq::empty() })
            + (if self.is_active(self.nimble) { seq![self.nimble] } else { Seq::empty() })
            + (if self.is_active(self.support) { seq![self.support] } else { Seq::empty() })
    }

    /// The living role slots are in range and living, and there is one
    /// whenever some delver lives.
    pub proof fn lemma_active_delvers(&self)
        requires
            self.wf(),
        ensures
            forall|k: int| 0 <= k < self.spec_active_delvers().len() ==>
                (#[trigger] self.spec_active_delvers()[k]) < 4 && self.is_active(self.spec_active_delvers()[k]),
            self.any_active() ==> self.spec_active_delvers().len() > 0,
            self.spec_active_delvers().len() <= 4,
    {
        if self.any_active() {
            let w = choose|i: int| 0 <= i < self.delvers.len() && #[trigger] self.delvers@[i].active;
            assert(w == self.fighter || w == self.magic || w == self.nimble || w == self.support);
        }
    }

    pub fn has_active(&self) -> (r: bool)
        requires
            self.wf(),
        ensures
            r == self.any_active(),
    {
        let r = self.delvers[0].active || self.delvers[1].active || self.delvers[2].active || self.delvers[3].active;
        proof {
            if self.any_active() {
                let w = choose|i: int| 0 <= i < self.delvers.len() && #[trigger] self.delvers@[i].active;
                assert(w == 0 || w == 1 || w == 2 || w == 3);
            }
            if r {
                if self.delvers[0].active {
                    assert(self.delvers@[0].active);
                } else if self.delvers[1].active {
                    assert(self.delvers@[1].active);
                } else if self.delvers[2].active {
                    assert(self.delvers@[2].active);
                } else {
                    assert(self.delvers@[3].active);
                }
            }
        }
        r
    }

    pub fn load_team(base: &BaseTeam) -> (r: DelverTeam)
        requires
            base.delvers.len() >= 4,
        ensures
            r.wf(),
            r.name@ == base.team_name@,
            r.fighter == 0 && r.nimble == 1 && r.magic == 2 && r.support == 3,
            forall|i: int| 0 <= i < 4 ==> (#[trigger] r.delvers@[i]).base.agrees(&base.delvers@[i])
                && r.delvers@[i].loaded_from(&r.delvers@[i].base),
    {
        let mut delvers: Vec<Delver> = Vec::new();
        delvers.push(Delver::load_delver(base.delvers[0].duplicate()));
        delvers.push(Delver::load_delver(base.delvers[1].duplicate()));
        delvers.push(Delver::load_delver(base.delvers[2].duplicate()));
        delvers.push(Delver::load_delver(base.delvers[3].duplicate()));
        DelverTeam { name: base.team_name.clone(), delvers, fighter: 0, nimble: 1, magic: 2, support: 3 }
    }

    /// Indices of the living delvers, role by role.
    pub fn active_delvers(&self) -> (r: Vec<usize>)
        requires
            self.wf(),
        ensures
            r@ == self.spec_active_delvers(),
    {
        let mut results: Vec<usize> = Vec::new();
        if self.delvers[self.fighter].active {
            results.push(self.fighter);
        }
        if self.delvers[self.magic].active {
            results.push(self.magic);
        }
        if self.delvers[self.nimble].active {
            results.push(self.nimble);
        }
        if self.delvers[self.support].active {
            results.push(self.support);
        }
        assert(results@ =~= self.spec_active_delvers());
        results
    }

    /// The delver that acts on `stat`: the role's own delver while it lives,
    /// else the first living delver in the list.
    pub fn choose_delver(&self, stat: Stats) -> (r: Entity)
        requires
            self.wf(),
            self.any_active(),
        ensures
            r is Delver,
            r->Delver_index < 4,
            self.is_active(r->Delver_index),
            self.is_active(role_slot(self, stat)) ==> r->Delver_index == role_slot(self, stat),
            !self.is_active(role_slot(self, stat)) ==> forall|j: usize| j < r->Delver_index ==> !self.is_active(j),
            r->Delver_index == chosen_delver(self, stat),
    {
        let delver = match stat {
            Stats::Exploriness => self.nimble,
            Stats::Fightiness => self.fighter,
            Stats::Magiciness => self.magic,
            Stats::Supportiveness => self.support,
        };
        if self.delvers[delver].active {
            return Entity::Delver { index: delver };
        }
        let mut d: usize = 0;
        while d < self.delvers.len()
            invariant
                self.wf(),
                self.any_active(),
                !self.is_active(role_slot(self, stat)),
                d <= 4,
                forall|j: usize| j < d ==> !self.is_active(j),
                first_active_from(self, 0) == first_active_from(self, d as int),
            decreases 4 - d,
        {
            if self.delvers[d].active {
                return Entity::Delver { index: d };
            }
            d = d + 1;
        }
        proof {
            let w = choose|i: int| 0 <= i < self.delvers.len() && #[trigger] self.delvers@[i].active;
            assert(!self.is_active(w as usize));
        }
        Entity::Delver { index: 0 }
    }
}

/// Indices of the active defenders among the first `n`, in list order.
pub open spec fn active_indices(ds: Seq<Defender>, n: int) -> Seq<usize>
    decreases n,
{
    if n <= 0 {
        Seq::empty()
    } else {
        active_indices(ds, n - 1) + if ds[n - 1].active {
            seq![(n - 1) as usize]
        } else {
            Seq::empty()
        }
    }
}

/// Every listed index is below `n`, names an active defender and the list is
/// empty exactly when no defender below `n` is active.
pub proof fn lemma_active_indices(ds: Seq<Defender>, n: int)
    requires
        0 <= n <= ds.len(),
        ds.len() <= usize::MAX,
    ensures
        forall|k: int| 0 <= k < active_indices(ds, n).len() ==>
            (#[trigger] active_indices(ds, n)[k]) < n && ds[active_indices(ds, n)[k] as int].active,
        active_indices(ds, n).len() == 0 <==> (forall|j: int| 0 <= j < n ==> !(#[trigger] ds[j]).active),
    decreases n,
{
    if n > 0 {
        lemma_active_indices(ds, n - 1);
        let prev = active_indices(ds, n - 1);
        let cur = active_indices(ds, n);
        assert forall|k: int| 0 <= k < cur.len() implies (#[trigger] cur[k]) < n && ds[cur[k] as int].active by {
            if k < prev.len() {
                assert(cur[k] == prev[k]);
            } else {
                assert(ds[n - 1].active);
                assert(cur[k] == (n - 1) as usize);
            }
        }
        if cur.len() == 0 {
            assert forall|j: int| 0 <= j < n implies !(#[trigger] ds[j]).active by {
                if j == n - 1 {
                } else {
                    assert(prev.len() == 0);
                }
            }
        }
        if cur.len() != 0 {
            if prev.len() == 0 {
                assert(ds[n - 1].active);
            } else {
                let w = prev[0];
                assert(ds[w as int].active);
            }
        }
    }
}

/// The dungeon's side: its dungeon, the boss template and every defender
/// spawned so far. Defenders are never removed: a dead one is inactive, so
/// indices into the list stay valid for the whole game.
pub struct DefenderTeam {
    pub name: String,
    pub defender: BaseDefender,
    pub active_defenders: Vec<Defender>,
    pub dungeon: Dungeon,
}

impl DefenderTeam {
    pub open spec fn is_active(&self, i: usize) -> bool {
        self.active_defenders@[i as int].active
    }

    pub open spec fn any_active(&self) -> bool {
        exists|i: int| 0 <= i < self.active_defenders.len() && #[trigger] self.active_defenders@[i].active
    }

    pub fn has_active(&self) -> (r: bool)
        ensures
            r == self.any_active(),
    {
        let mut i: usize = 0;
        while i < self.active_defenders.len()
            invariant
                i <= self.active_defenders.len(),
                forall|j: int| 0 <= j < i ==> !(#[trigger] self.active_defenders@[j]).active,
            decreases self.active_defenders.len() - i,
        {
            if self.active_defenders[i].active {
                return true;
            }
            i = i + 1;
        }
        false
    }

    pub fn load_team(base: &BaseTeam) -> (r: DefenderTeam)
        requires
            base.defenders.len() >= 1,
        ensures
            r.name@ == base.team_name@,
            r.defender.agrees(&base.defenders@[0]),
            r.dungeon.name@ == base.dungeon.name@,
            r.dungeon.twistiness == base.dungeon.twistiness,
            r.dungeon.deadliness == base.dungeon.deadliness,
            r.dungeon.lengthiness == base.dungeon.lengthiness,
            r.active_defenders@.len() == 0,
    {
        DefenderTeam {
            name: base.team_name.clone(),
            defender: base.defenders[0].duplicate(),
            dungeon: base.dungeon.duplicate(),
            active_defenders: Vec::new(),
        }
    }

    /// Indices of the living defenders, in list order.
    pub fn living_defenders(&self) -> (r: Vec<usize>)
        ensures
            r@ == active_indices(self.active_defenders@, self.active_defenders@.len() as int),
    {
        let mut r: Vec<usize> = Vec::new();
        let mut i: usize = 0;
        while i < self.active_defenders.len()
            invariant
                i <= self.active_defenders.len(),
                r@ == active_indices(self.active_defenders@, i as int),
            decreases self.active_defenders.len() - i,
        {
            if self.active_defenders[i].active {
                r.push(i);
            }
            i = i + 1;
        }
        r
    }

    /// The living defender with the highest `stat`, the first one on a tie.
    pub fn choose_defender(&self, stat: Stats) -> (r: Entity)
        requires
            self.any_active(),
        ensures
            r is Defender,
            r->Defender_index < self.active_defenders.len(),
            self.is_active(r->Defender_index),
            forall|j: int| 0 <= j < self.active_defenders.len() && (#[trigger] self.active_defenders@[j]).active
                ==> self.active_defenders@[j].spec_stat(stat) <= self.active_defenders@[r->Defender_index as int].spec_stat(stat),
            forall|j: int| 0 <= j < r->Defender_index && (#[trigger] self.active_defenders@[j]).active
                ==> self.active_defenders@[j].spec_stat(stat) < self.active_defenders@[r->Defender_index as int].spec_stat(stat),
    {
        let ds = &self.active_defenders;
        let mut best: usize = 0;
        let mut found = false;
        let mut max: u32 = 0;
        let mut i: usize = 0;
        while i < ds.len()
            invariant
                i <= ds.len(),
                found ==> best < i && ds@[best as int].active && max == ds@[best as int].spec_stat(stat),
                !found ==> forall|j: int| 0 <= j < i ==> !(#[trigger] ds@[j]).active,
                forall|j: int| 0 <= j < i && (#[trigger] ds@[j]).active ==> found && ds@[j].spec_stat(stat) <= max,
                forall|j: int| 0 <= j < best && (#[trigger] ds@[j]).active ==> ds@[j].spec_stat(stat) < max,
            decreases ds.len() - i,
        {
            if ds[i].active {
                let v = ds[i].get_stat(stat);
                if !found || max < v {
                    best = i;
                    max = v;
                    found = true;
                }
            }
            i = i + 1;
        }
        Entity::Defender { index: best }
    }
}

} // verus!
