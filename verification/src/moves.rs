use vstd::prelude::*;
use vstd::string::*;
use crate::monster::{same_but_curstats, Monster};

verus! {

/// A status or stat effect a move can have; the status effects carry two
/// messages.
#[derive(Debug, Clone, Copy)]
pub enum Effect<'a> {
    Null,
    ChangeAttack,
    ChangeDefense,
    ChangeSpAttack,
    ChangeSpDefense,
    ChangeSpeed,
    Damage,
    Heal,
    Burn(&'a str, &'a str),
    Paralyzed(&'a str, &'a str),
    Infatuated(&'a str, &'a str),
    Asleep(&'a str, &'a str),
    Frozen(&'a str, &'a str),
    Enraged(&'a str, &'a str),
    Confused(&'a str, &'a str),
}

/// The moves a monster can know.
#[derive(Debug, Clone, Copy, PartialEq, Eq, Structural)]
pub enum PokeMove {
    Null,
    Scratch,
    Growl,
    Ember,
    Confusion,
}

/// Whom a move is aimed at.
#[derive(Debug, Clone, Copy, PartialEq, Eq, Structural)]
pub enum Target {
    All,
    Foe,
    Foes,
    AtSelf,
    Team,
    Party,
    WholeParty,
}

/// Attack after a change by `amount`: lowered by `-amount` or raised by
/// `amount`, each taken modulo 2^16.
pub open spec fn attack_after(attack: u16, amount: i32) -> int {
    if amount < 0 {
        attack - ((-amount) as u16)
    } else {
        attack + (amount as u16)
    }
}

impl<'a> Effect<'a> {
    /// Applies the effect with strength `amount` to `target`. Only the
    /// attack change is defined: a negative amount lowers the target's
    /// attack, a non-negative one raises it.
    pub fn apply(&self, target: &mut Monster, amount: i32)
        requires
            *self is ChangeAttack,
            amount != i32::MIN,
            0 <= attack_after(old(target).curstats[1], amount) <= u16::MAX,
        ensures
            final(target).curstats@ == old(target).curstats@.update(
                1,
                attack_after(old(target).curstats[1], amount) as u16,
            ),
            same_but_curstats(*final(target), *old(target)),
    {
        if amount < 0 {
            let change = (-1i32 * amount) as u16;
            let attack = target.attack();
            *attack = *attack - change;
        } else {
            let change = amount as u16;
            let attack = target.attack();
            *attack = *attack + change;
        }
    }
}

/// How a move is written in messages.
pub open spec fn move_name(m: PokeMove) -> &'static str {
    match m {
        PokeMove::Null => "Null",
        PokeMove::Scratch => "Scratch",
        PokeMove::Growl => "Growl",
        PokeMove::Ember => "Ember",
        PokeMove::Confusion => "Confusion",
    }
}

/// The first message of a move: "<Foe ><name> used <move>!\n", with "Foe "
/// for a foe's monster.
pub open spec fn used_message(owned: bool, name: Seq<char>, m: PokeMove) -> Seq<char> {
    (if owned {
        "Foe "@
    } else {
        ""@
    }) + name + " used "@ + move_name(m)@ + "!\n"@
}

impl PokeMove {
    /// How the move is written in messages.
    pub fn name(&self) -> (r: &'static str)
        ensures
            r@ == move_name(*self)@,
    {
        match self {
            PokeMove::Null => "Null",
            PokeMove::Scratch => "Scratch",
            PokeMove::Growl => "Growl",
            PokeMove::Ember => "Ember",
            PokeMove::Confusion => "Confusion",
        }
    }

    /// `actor` uses the move on `target`; `hit` tells whether the move's
    /// accuracy roll succeeded. Returns the battle messages. Growl lowers
    /// the target's attack by 20 on a hit; Ember announces itself (its
    /// damage is defined only for a miss, where there is none).
    pub fn go(&self, actor: &Monster, target: &mut Monster, hit: bool) -> (res: Vec<String>)
        requires
            *self == PokeMove::Growl || *self == PokeMove::Ember,
            *self == PokeMove::Ember ==> !hit,
            *self == PokeMove::Growl && hit ==> old(target).curstats[1] >= 20,
        ensures
            res@.len() == (if *self == PokeMove::Growl { 2int } else { 1int }),
            res@[0]@ == used_message(actor.owned, actor.name@, *self),
            *self == PokeMove::Growl && hit ==> res@[1]@
                == "Target was disarmed!\nAttack was lowered.\n"@,
            *self == PokeMove::Growl && !hit ==> res@[1]@ == "Enemy avoided the attack!\n"@,
            *self == PokeMove::Growl && hit ==> final(target).curstats@ == old(
                target,
            ).curstats@.update(1, (old(target).curstats[1] - 20) as u16) && same_but_curstats(
                *final(target),
                *old(target),
            ),
            !(*self == PokeMove::Growl && hit) ==> *final(target) == *old(target),
    {
        let mut first = String::from_str(if actor.owned {
            "Foe "
        } else {
            ""
        });
        first.append(actor.name.as_str());
        first.append(" used ");
        first.append(self.name());
        first.append("!\n");
        let mut message: Vec<String> = Vec::new();
        message.push(first);
        match self {
            PokeMove::Growl => {
                if hit {
                    Effect::ChangeAttack.apply(target, -20i32);
                    message.push(String::from_str("Target was disarmed!\nAttack was lowered.\n"));
                } else {
                    message.push(String::from_str("Enemy avoided the attack!\n"));
                }
            },
            _ => {},
        }
        message
    }
}

/// Lowering the attack by an amount and raising it by the same amount gives
/// the attack back, and so does raising then lowering, whenever neither
/// change leaves the 16-bit range.
pub proof fn lemma_attack_change_undoes(attack: u16, amount: i32)
    requires
        0 < amount <= u16::MAX,
    ensures
        0 <= attack_after(attack, (-amount) as i32) ==> attack_after(
            attack_after(attack, (-amount) as i32) as u16,
            amount,
        ) == attack,
        attack_after(attack, amount) <= u16::MAX ==> attack_after(
            attack_after(attack, amount) as u16,
            (-amount) as i32,
        ) == attack,
{
}

} // verus!
