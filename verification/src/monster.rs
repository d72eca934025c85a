use vstd::prelude::*;
use crate::moves::{Effect, PokeMove};
use crate::natures::{nature_effect, nature_of_roll, Nature};
use crate::types::BattleType;

verus! {

/// A monster of the player's or of a foe's party.
///
/// Stat indices: 0 health, 1 attack, 2 defense, 3 special attack,
/// 4 special defense, 5 speed.
#[derive(Debug, Clone)]
pub struct Monster<'a> {
    /// Number of the species in the monster index.
    pub monster_id: usize,
    pub battle_type: [BattleType; 2],
    /// Individual values.
    pub iv: [u8; 6],
    /// Effort values.
    pub ev: [u8; 6],
    /// Base stats of the species.
    pub stats: [u8; 6],
    /// Current stats.
    pub curstats: [u16; 6],
    pub crit_level: u8,
    /// Accuracy in percent.
    pub accuracy: u8,
    pub lvl: u8,
    pub status: Effect<'a>,
    pub moves: [PokeMove; 4],
    /// Belongs to a foe.
    pub owned: bool,
    pub affection: i32,
    pub nature: Nature,
    pub name: String,
    /// Direction, x, y, z and animation state on the overworld map.
    pub overworld: Option<(u8, u16, u16, u16, u16)>,
}

/// The shared part of every stat: `floor((2 * base + iv + floor(ev / 4)) *
/// level / 100)`.
pub open spec fn stat_core(base: u8, iv: u8, ev: u8, level: u8) -> int {
    ((2 * base + iv + ev / 4) * level) / 100
}

/// Health: the shared part plus the level plus 10.
pub open spec fn health_stat(base: u8, iv: u8, ev: u8, level: u8) -> int {
    stat_core(base, iv, ev, level) + level + 10
}

/// The nature's factor on stat `i`, in tenths: 12 for the raised stat, 8
/// for the lowered one, 10 otherwise (and for a stat both raised and
/// lowered).
pub open spec fn nature_tenths(n: Nature, i: int) -> int {
    10 + (if nature_effect(n).0 == i { 2int } else { 0int }) - (if nature_effect(n).1 == i {
        2int
    } else {
        0int
    })
}

/// Any other stat: the shared part plus 5, times the nature's factor,
/// rounded down.
pub open spec fn battle_stat(base: u8, iv: u8, ev: u8, level: u8, n: Nature, i: int) -> int {
    ((stat_core(base, iv, ev, level) + 5) * nature_tenths(n, i)) / 10
}

/// The stat at index `i` of monster `m` as its stat formula gives it.
pub open spec fn formula_stat(m: Monster, i: int) -> int {
    if i == 0 {
        health_stat(m.stats[0], m.iv[0], m.ev[0], m.lvl)
    } else {
        battle_stat(m.stats[i], m.iv[i], m.ev[i], m.lvl, m.nature, i)
    }
}

/// `a` and `b` agree on everything but the current stats.
pub open spec fn same_but_curstats(a: Monster, b: Monster) -> bool {
    &&& a.monster_id == b.monster_id
    &&& a.battle_type == b.battle_type
    &&& a.iv == b.iv
    &&& a.ev == b.ev
    &&& a.stats == b.stats
    &&& a.crit_level == b.crit_level
    &&& a.accuracy == b.accuracy
    &&& a.lvl == b.lvl
    &&& a.status == b.status
    &&& a.moves == b.moves
    &&& a.owned == b.owned
    &&& a.affection == b.affection
    &&& a.nature == b.nature
    &&& a.name == b.name
    &&& a.overworld == b.overworld
}

/// `m` is a monster as `Monster::new` makes it: species `dex` at `level`,
/// with the given name, types and base stats, no individual or effort
/// values, current stats at zero, full accuracy, critical level 0, no
/// status, no moves, not a foe's, affection 0, no place on the map, and the
/// nature of some roll in `0..25`.
pub open spec fn is_fresh(
    m: Monster,
    dex: usize,
    level: u8,
    name: Seq<char>,
    types: Seq<BattleType>,
    base_stats: Seq<u8>,
) -> bool {
    &&& m.monster_id == dex
    &&& m.battle_type@ == types
    &&& m.iv@ == seq![0u8, 0, 0, 0, 0, 0]
    &&& m.ev@ == seq![0u8, 0, 0, 0, 0, 0]
    &&& m.stats@ == base_stats
    &&& m.curstats@ == seq![0u16, 0, 0, 0, 0, 0]
    &&& m.accuracy == 100
    &&& m.crit_level == 0
    &&& m.lvl == level
    &&& m.status == Effect::Null
    &&& m.moves@ == seq![PokeMove::Null, PokeMove::Null, PokeMove::Null, PokeMove::Null]
    &&& !m.owned
    &&& m.affection == 0
    &&& (exists|which: u8| which < 25 && m.nature == nature_of_roll(which))
    &&& m.name@ == name
    &&& m.overworld is None
}

fn stat_core_exec(base: u8, iv: u8, ev: u8, level: u8) -> (r: u32)
    ensures
        r == stat_core(base, iv, ev, level),
        r <= 2111,
{
    let sum: u32 = 2 * (base as u32) + (iv as u32) + (ev as u32) / 4;
    assert(sum * level <= 828 * 255) by (nonlinear_arith)
        requires
            sum <= 828,
            level <= 255,
    ;
    (sum * (level as u32)) / 100
}

impl<'a> Monster<'a> {
    /// A fresh monster of species number `dex` at `level`, with the
    /// species' name, types and base stats, no individual or effort values,
    /// current stats at zero until `init_stats`, full accuracy, no status,
    /// no moves, not a foe's, and a random nature.
    pub fn new(
        dex: usize,
        level: u8,
        name: String,
        types: [BattleType; 2],
        base_stats: [u8; 6],
    ) -> (m: Monster<'a>)
        ensures
            is_fresh(m, dex, level, name@, types@, base_stats@),
    {
        let iv = [0u8; 6];
        let ev = [0u8; 6];
        let curstats = [0u16; 6];
        let moves = [PokeMove::Null; 4];
        let nature = Nature::new();
        assert(iv@ =~= seq![0u8, 0, 0, 0, 0, 0]);
        assert(ev@ =~= seq![0u8, 0, 0, 0, 0, 0]);
        assert(curstats@ =~= seq![0u16, 0, 0, 0, 0, 0]);
        assert(moves@ =~= seq![PokeMove::Null, PokeMove::Null, PokeMove::Null, PokeMove::Null]);
        Monster {
            monster_id: dex,
            battle_type: types,
            iv,
            ev,
            stats: base_stats,
            curstats,
            accuracy: 100,
            crit_level: 0u8,
            lvl: level,
            status: Effect::Null,
            moves,
            owned: false,
            affection: 0i32,
            nature,
            name,
            overworld: None,
        }
    }

    /// A field-by-field copy of this monster.
    pub fn duplicate(&self) -> (m: Monster<'a>)
        ensures
            m == *self,
    {
        Monster {
            monster_id: self.monster_id,
            battle_type: self.battle_type,
            iv: self.iv,
            ev: self.ev,
            stats: self.stats,
            curstats: self.curstats,
            crit_level: self.crit_level,
            accuracy: self.accuracy,
            lvl: self.lvl,
            status: self.status,
            moves: self.moves,
            owned: self.owned,
            affection: self.affection,
            nature: self.nature,
            name: self.name.clone(),
            overworld: self.overworld,
        }
    }

    /// The stats the nature changes: the raised one with +20 percent, the
    /// lowered one with -20 percent.
    pub fn nature_modify(&self) -> (r: [(usize, i8); 2])
        ensures
            r[0].0 == nature_effect(self.nature).0,
            r[0].1 == 20,
            r[1].0 == nature_effect(self.nature).1,
            r[1].1 == -20,
    {
        let (raised, lowered) = self.nature.stat_effect();
        [(raised, 20i8), (lowered, -20i8)]
    }

    /// Sets full accuracy and computes every current stat from base stat,
    /// individual and effort value, level and nature:
    /// health is `floor(0.01 * (2 * base + iv + floor(0.25 * ev)) * level) +
    /// level + 10`, every other stat is `(floor(0.01 * (2 * base + iv +
    /// floor(0.25 * ev)) * level) + 5) * nature`, rounded down.
    pub fn init_stats(&mut self)
        ensures
            final(self).accuracy == 100,
            forall|i: int| 0 <= i < 6 ==> final(self).curstats[i] == formula_stat(*final(self), i),
            final(self).monster_id == old(self).monster_id,
            final(self).battle_type == old(self).battle_type,
            final(self).iv == old(self).iv,
            final(self).ev == old(self).ev,
            final(self).stats == old(self).stats,
            final(self).crit_level == old(self).crit_level,
            final(self).lvl == old(self).lvl,
            final(self).status == old(self).status,
            final(self).moves == old(self).moves,
            final(self).owned == old(self).owned,
            final(self).affection == old(self).affection,
            final(self).nature == old(self).nature,
            final(self).name == old(self).name,
            final(self).overworld == old(self).overworld,
    {
        self.accuracy = 100;
        let (raised, lowered) = self.nature.stat_effect();
        let mut i: usize = 0;
        while i < 6
            invariant
                0 <= i <= 6,
                raised == nature_effect(self.nature).0,
                lowered == nature_effect(self.nature).1,
                self.accuracy == 100,
                forall|j: int| 0 <= j < i ==> self.curstats[j] == formula_stat(*self, j),
                self.monster_id == old(self).monster_id,
                self.battle_type == old(self).battle_type,
                self.iv == old(self).iv,
                self.ev == old(self).ev,
                self.stats == old(self).stats,
                self.crit_level == old(self).crit_level,
                self.lvl == old(self).lvl,
                self.status == old(self).status,
                self.moves == old(self).moves,
                self.owned == old(self).owned,
                self.affection == old(self).affection,
                self.nature == old(self).nature,
                self.name == old(self).name,
                self.overworld == old(self).overworld,
            decreases 6 - i,
        {
            let core = stat_core_exec(self.stats[i], self.iv[i], self.ev[i], self.lvl);
            let value: u32 = if i == 0 {
                core + (self.lvl as u32) + 10
            } else {
                let mut tenths: u32 = 10;
                if i == raised {
                    tenths = tenths + 2;
                }
                if i == lowered {
                    tenths = tenths - 2;
                }
                assert(tenths == nature_tenths(self.nature, i as int));
                assert((core + 5) * tenths <= 2116 * 12) by (nonlinear_arith)
                    requires
                        core <= 2111,
                        tenths <= 12,
                ;
                ((core + 5) * tenths) / 10
            };
            assert(value <= 2116 * 12);
            assert(value == formula_stat(*self, i as int));
            let ghost before = *self;
            self.curstats[i] = value as u16;
            assert forall|j: int| 0 <= j <= i implies self.curstats[j] == formula_stat(*self, j) by {
                assert(formula_stat(*self, j) == formula_stat(before, j));
            }
            i = i + 1;
        }
    }

    /// Current health, for changing in place.
    pub fn health(&mut self) -> (r: &mut u16)
        ensures
            *r == old(self).curstats[0],
            final(self).curstats@ == old(self).curstats@.update(0, *final(r)),
            same_but_curstats(*final(self), *old(self)),
    {
        &mut self.curstats[0]
    }

    /// Current attack, for changing in place.
    pub fn attack(&mut self) -> (r: &mut u16)
        ensures
            *r == old(self).curstats[1],
            final(self).curstats@ == old(self).curstats@.update(1, *final(r)),
            same_but_curstats(*final(self), *old(self)),
    {
        &mut self.curstats[1]
    }

    /// Current defense, for changing in place.
    pub fn defense(&mut self) -> (r: &mut u16)
        ensures
            *r == old(self).curstats[2],
            final(self).curstats@ == old(self).curstats@.update(2, *final(r)),
            same_but_curstats(*final(self), *old(self)),
    {
        &mut self.curstats[2]
    }

    /// Current special attack, for changing in place.
    pub fn spattack(&mut self) -> (r: &mut u16)
        ensures
            *r == old(self).curstats[3],
            final(self).curstats@ == old(self).curstats@.update(3, *final(r)),
            same_but_curstats(*final(self), *old(self)),
    {
        &mut self.curstats[3]
    }

    /// Current special defense, for changing in place.
    pub fn spdefense(&mut self) -> (r: &mut u16)
        ensures
            *r == old(self).curstats[4],
            final(self).curstats@ == old(self).curstats@.update(4, *final(r)),
            same_but_curstats(*final(self), *old(self)),
    {
        &mut self.curstats[4]
    }

    /// Current speed, for changing in place.
    pub fn speed(&mut self) -> (r: &mut u16)
        ensures
            *r == old(self).curstats[5],
            final(self).curstats@ == old(self).curstats@.update(5, *final(r)),
            same_but_curstats(*final(self), *old(self)),
    {
        &mut self.curstats[5]
    }
}

/// A nature moves only the stats it names: health never depends on it, the
/// raised stat is at least the stat without nature and the lowered stat at
/// most that, and every other stat equals it.
pub proof fn lemma_nature_moves_only_its_stats(
    base: u8,
    iv: u8,
    ev: u8,
    level: u8,
    n: Nature,
    i: int,
)
    requires
        1 <= i <= 5,
    ensures
        nature_effect(n).0 == i && nature_effect(n).1 != i ==> battle_stat(base, iv, ev, level, n, i)
            >= stat_core(base, iv, ev, level) + 5,
        nature_effect(n).1 == i && nature_effect(n).0 != i ==> battle_stat(base, iv, ev, level, n, i)
            <= stat_core(base, iv, ev, level) + 5,
        (nature_effect(n).0 == i) == (nature_effect(n).1 == i) ==> battle_stat(
            base,
            iv,
            ev,
            level,
            n,
            i,
        ) == stat_core(base, iv, ev, level) + 5,
{
    let c = stat_core(base, iv, ev, level) + 5;
    assert(c >= 5) by (nonlinear_arith)
        requires
            c == ((2 * base + iv + ev / 4) * level) / 100 + 5,
    ;
    assert(c * 12 / 10 >= c) by (nonlinear_arith)
        requires
            c >= 0,
    ;
    assert(c * 8 / 10 <= c) by (nonlinear_arith)
        requires
            c >= 0,
    ;
    assert(c * 10 / 10 == c) by (nonlinear_arith);
}

} // verus!
