use vstd::prelude::*;
use crate::monster::{is_fresh, Monster};
use crate::types::BattleType;

verus! {

/// Number of monsters in a party.
pub const PARTY_SIZE: usize = 6;

/// Items a character can hold.
#[derive(Debug, Clone, Copy, PartialEq, Eq, Structural)]
pub enum Item {
    Pokeball,
}

/// How a character holds an item.
#[derive(Debug, Clone, Copy, PartialEq, Eq, Structural)]
pub enum Stance {
    Default,
}

/// What the player's character is doing on the map.
#[derive(Debug, Clone, Copy, PartialEq, Eq, Structural)]
pub enum CharacterState {
    Running,
    Walking,
    Standing,
    /// Which bike.
    Biking(u8),
    /// Which monster.
    Surfing(u16),
    Holding(Item, Stance),
}

/// A party: six monster slots, and whether it is a foe's.
#[derive(Debug, Clone)]
pub struct Party<'a> {
    pub mons: Vec<Monster<'a>>,
    pub owned: bool,
}

/// The monster that fills an empty slot: a fresh monster of species 0 at
/// level 0, with no name, no type and no base stats.
pub open spec fn is_placeholder(m: Monster) -> bool {
    is_fresh(
        m,
        0,
        0,
        Seq::<char>::empty(),
        seq![BattleType::NoType, BattleType::NoType],
        seq![0u8, 0, 0, 0, 0, 0],
    )
}

fn placeholder<'a>() -> (m: Monster<'a>)
    ensures
        is_placeholder(m),
{
    let types = [BattleType::NoType, BattleType::NoType];
    let stats = [0u8; 6];
    assert(types@ =~= seq![BattleType::NoType, BattleType::NoType]);
    assert(stats@ =~= seq![0u8, 0, 0, 0, 0, 0]);
    Monster::new(0, 0, String::new(), types, stats)
}

impl<'a> Party<'a> {
    /// A party of six placeholder monsters, not a foe's.
    pub fn new() -> (p: Party<'a>)
        ensures
            p.mons@.len() == PARTY_SIZE,
            forall|i: int| 0 <= i < PARTY_SIZE ==> is_placeholder(#[trigger] p.mons@[i]),
            !p.owned,
    {
        let mut mons: Vec<Monster<'a>> = Vec::new();
        let mut i: usize = 0;
        while i < PARTY_SIZE
            invariant
                i <= PARTY_SIZE,
                mons@.len() == i,
                forall|j: int| 0 <= j < i ==> is_placeholder(#[trigger] mons@[j]),
            decreases PARTY_SIZE - i,
        {
            mons.push(placeholder());
            i = i + 1;
        }
        Party { mons, owned: false }
    }

    /// A party whose first slots hold copies of `mons`, in order, and whose
    /// other slots hold placeholders.
    pub fn with_mons(mons: &[Monster<'a>]) -> (p: Party<'a>)
        requires
            mons@.len() <= PARTY_SIZE,
        ensures
            p.mons@.len() == PARTY_SIZE,
            p.mons@.subrange(0, mons@.len() as int) == mons@,
            forall|i: int| mons@.len() <= i < PARTY_SIZE ==> is_placeholder(#[trigger] p.mons@[i]),
            !p.owned,
    {
        let n = mons.len();
        let mut all: Vec<Monster<'a>> = Vec::new();
        let mut i: usize = 0;
        while i < n
            invariant
                i <= n,
                n == mons@.len(),
                all@ == mons@.subrange(0, i as int),
            decreases n - i,
        {
            all.push(mons[i].duplicate());
            i = i + 1;
            assert(all@ =~= mons@.subrange(0, i as int));
        }
        assert(all@ =~= mons@);
        let ghost given = mons@;
        while all.len() < PARTY_SIZE
            invariant
                given.len() <= all@.len() <= PARTY_SIZE,
                all@.subrange(0, given.len() as int) == given,
                forall|i: int| given.len() <= i < all@.len() ==> is_placeholder(#[trigger] all@[i]),
            decreases PARTY_SIZE - all@.len(),
        {
            all.push(placeholder());
            assert(all@.subrange(0, given.len() as int) =~= given);
        }
        Party { mons: all, owned: false }
    }
}

/// The player: name, party, place on the map and what the character is
/// doing.
#[derive(Debug)]
pub struct Player<'a> {
    pub name: String,
    pub party: Party<'a>,
    /// x, y, z.
    pub position: (u16, u16, u16),
    pub animation_state: u16,
    pub movement_state: CharacterState,
}

/// One step left: x decreases unless it is 0.
pub open spec fn left_of(p: (u16, u16, u16)) -> (u16, u16, u16) {
    if p.0 > 0 { ((p.0 - 1) as u16, p.1, p.2) } else { p }
}

/// One step right: x increases unless it is at its maximum.
pub open spec fn right_of(p: (u16, u16, u16)) -> (u16, u16, u16) {
    if p.0 < u16::MAX { ((p.0 + 1) as u16, p.1, p.2) } else { p }
}

/// One step up: y increases unless it is at its maximum.
pub open spec fn above(p: (u16, u16, u16)) -> (u16, u16, u16) {
    if p.1 < u16::MAX { (p.0, (p.1 + 1) as u16, p.2) } else { p }
}

/// One step down: y decreases unless it is 0.
pub open spec fn below(p: (u16, u16, u16)) -> (u16, u16, u16) {
    if p.1 > 0 { (p.0, (p.1 - 1) as u16, p.2) } else { p }
}

/// One level up: z increases unless it is at its maximum.
pub open spec fn ascended(p: (u16, u16, u16)) -> (u16, u16, u16) {
    if p.2 < u16::MAX { (p.0, p.1, (p.2 + 1) as u16) } else { p }
}

/// One level down: z decreases unless it is 0.
pub open spec fn descended(p: (u16, u16, u16)) -> (u16, u16, u16) {
    if p.2 > 0 { (p.0, p.1, (p.2 - 1) as u16) } else { p }
}

/// Everything but the position is as before.
pub open spec fn moved_only(a: Player, b: Player) -> bool {
    &&& a.name == b.name
    &&& a.party.mons == b.party.mons
    &&& a.party.owned == b.party.owned
    &&& a.animation_state == b.animation_state
    &&& a.movement_state == b.movement_state
}

impl<'a> Player<'a> {
    pub fn move_left(&mut self)
        ensures
            final(self).position == left_of(old(self).position),
            moved_only(*final(self), *old(self)),
    {
        if self.position.0 > 0 {
            self.position.0 = self.position.0 - 1;
        }
    }

    pub fn move_right(&mut self)
        ensures
            final(self).position == right_of(old(self).position),
            moved_only(*final(self), *old(self)),
    {
        if self.position.0 < u16::MAX {
            self.position.0 = self.position.0 + 1;
        }
    }

    pub fn move_up(&mut self)
        ensures
            final(self).position == above(old(self).position),
            moved_only(*final(self), *old(self)),
    {
        if self.position.1 < u16::MAX {
            self.position.1 = self.position.1 + 1;
        }
    }

    pub fn move_down(&mut self)
        ensures
            final(self).position == below(old(self).position),
            moved_only(*final(self), *old(self)),
    {
        if self.position.1 > 0 {
            self.position.1 = self.position.1 - 1;
        }
    }

    pub fn ascend(&mut self)
        ensures
            final(self).position == ascended(old(self).position),
            moved_only(*final(self), *old(self)),
    {
        if self.position.2 < u16::MAX {
            self.position.2 = self.position.2 + 1;
        }
    }

    pub fn descend(&mut self)
        ensures
            final(self).position == descended(old(self).position),
            moved_only(*final(self), *old(self)),
    {
        if self.position.2 > 0 {
            self.position.2 = self.position.2 - 1;
        }
    }

    /// Exchanges the monsters in party slots `first` and `second`.
    pub fn swap_party(&mut self, first: usize, second: usize)
        requires
            first < old(self).party.mons@.len(),
            second < old(self).party.mons@.len(),
        ensures
            final(self).party.mons@ == old(self).party.mons@.update(
                first as int,
                old(self).party.mons@[second as int],
            ).update(second as int, old(self).party.mons@[first as int]),
            final(self).party.owned == old(self).party.owned,
            final(self).name == old(self).name,
            final(self).position == old(self).position,
            final(self).animation_state == old(self).animation_state,
            final(self).movement_state == old(self).movement_state,
    {
        if first != second {
            let (low, high) = if first < second { (first, second) } else { (second, first) };
            let mut moved = self.party.mons.remove(high);
            self.party.mons.set_and_swap(low, &mut moved);
            self.party.mons.insert(high, moved);
        }
        proof {
            let o = old(self).party.mons@;
            assert(self.party.mons@ =~= o.update(first as int, o[second as int]).update(
                second as int,
                o[first as int],
            ));
        }
    }
}

/// A step in one direction and a step back return to the same place,
/// unless the first step was blocked by the edge of the map.
pub proof fn lemma_moves_undo(p: (u16, u16, u16))
    ensures
        p.0 > 0 ==> right_of(left_of(p)) == p,
        p.0 < u16::MAX ==> left_of(right_of(p)) == p,
        p.1 < u16::MAX ==> below(above(p)) == p,
        p.1 > 0 ==> above(below(p)) == p,
        p.2 < u16::MAX ==> descended(ascended(p)) == p,
        p.2 > 0 ==> ascended(descended(p)) == p,
{
}

/// Moving along one axis leaves the other two coordinates unchanged.
pub proof fn lemma_moves_keep_other_axes(p: (u16, u16, u16))
    ensures
        left_of(p).1 == p.1 && left_of(p).2 == p.2,
        right_of(p).1 == p.1 && right_of(p).2 == p.2,
        above(p).0 == p.0 && above(p).2 == p.2,
        below(p).0 == p.0 && below(p).2 == p.2,
        ascended(p).0 == p.0 && ascended(p).1 == p.1,
        descended(p).0 == p.0 && descended(p).1 == p.1,
{
}

/// Swapping party slots `i` and `j` is the same as swapping `j` and `i`,
/// and swapping the same two slots twice gives the party back.
pub proof fn lemma_swap_twice<T>(s: Seq<T>, i: int, j: int)
    requires
        0 <= i < s.len(),
        0 <= j < s.len(),
    ensures
        s.update(i, s[j]).update(j, s[i]) == s.update(j, s[i]).update(i, s[j]),
        ({
            let t = s.update(i, s[j]).update(j, s[i]);
            t.update(i, t[j]).update(j, t[i])
        }) == s,
{
    assert(s.update(i, s[j]).update(j, s[i]) =~= s.update(j, s[i]).update(i, s[j]));
    let t = s.update(i, s[j]).update(j, s[i]);
    assert(t.update(i, t[j]).update(j, t[i]) =~= s);
}

} // verus!
