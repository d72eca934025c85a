use vstd::prelude::*;

verus! {

/// The elemental type of a monster or of a move.
#[derive(Debug, Clone, Copy, PartialEq, Eq, Structural)]
pub enum BattleType {
    NoType,
    Normal,
    Fighting,
    Psychic,
    Dark,
    GhostType,
    Bug,
    Grass,
    Fire,
    Water,
    Electric,
    Ground,
    Rock,
    Dragon,
    Fairy,
    Flying,
    Steel,
    Poison,
    Ice,
}

/// The attacking types that a defender of type `t` is weak to, in the order
/// the chart lists them (Grass lists Poison twice).
pub open spec fn weakness_chart(t: BattleType) -> Seq<BattleType> {
    match t {
        BattleType::Normal => seq![BattleType::Fighting],
        BattleType::Fighting => seq![BattleType::Psychic, BattleType::Flying],
        BattleType::Psychic => seq![BattleType::Dark, BattleType::Bug],
        BattleType::Dark => seq![BattleType::Fighting, BattleType::Fairy],
        BattleType::GhostType => seq![BattleType::GhostType, BattleType::Dark],
        BattleType::Bug => seq![BattleType::Flying, BattleType::Fire, BattleType::Rock],
        BattleType::Grass => seq![
            BattleType::Fire,
            BattleType::Flying,
            BattleType::Bug,
            BattleType::Poison,
            BattleType::Ice,
            BattleType::Poison,
        ],
        BattleType::Fire => seq![BattleType::Water, BattleType::Ground, BattleType::Rock],
        BattleType::Water => seq![BattleType::Electric, BattleType::Grass],
        BattleType::Electric => seq![BattleType::Ground],
        BattleType::Ground => seq![BattleType::Water, BattleType::Grass, BattleType::Ice],
        BattleType::Rock => seq![
            BattleType::Water,
            BattleType::Fighting,
            BattleType::Grass,
            BattleType::Ground,
            BattleType::Steel,
        ],
        BattleType::Dragon => seq![BattleType::Dragon, BattleType::Fairy],
        BattleType::Fairy => seq![BattleType::Poison, BattleType::Steel],
        BattleType::Steel => seq![BattleType::Fire, BattleType::Fighting, BattleType::Ground],
        BattleType::Poison => seq![BattleType::Psychic, BattleType::Ground],
        BattleType::Ice => seq![
            BattleType::Fighting,
            BattleType::Steel,
            BattleType::Rock,
            BattleType::Fire,
        ],
        _ => seq![],
    }
}

/// The attacking types that a defender of type `t` resists, in chart order.
pub open spec fn resistance_chart(t: BattleType) -> Seq<BattleType> {
    match t {
        BattleType::Fighting => seq![BattleType::Rock, BattleType::Bug, BattleType::Dark],
        BattleType::Psychic => seq![BattleType::Psychic, BattleType::Fighting],
        BattleType::Dark => seq![BattleType::Dark, BattleType::GhostType],
        BattleType::GhostType => seq![BattleType::Poison, BattleType::Bug],
        BattleType::Bug => seq![BattleType::Fighting, BattleType::Ground, BattleType::Grass],
        BattleType::Grass => seq![
            BattleType::Grass,
            BattleType::Water,
            BattleType::Ground,
            BattleType::Electric,
        ],
        BattleType::Fire => seq![
            BattleType::Fire,
            BattleType::Steel,
            BattleType::Grass,
            BattleType::Bug,
            BattleType::Ice,
            BattleType::Fairy,
        ],
        BattleType::Water => seq![
            BattleType::Water,
            BattleType::Ice,
            BattleType::Steel,
            BattleType::Fire,
        ],
        BattleType::Electric => seq![
            BattleType::Electric,
            BattleType::Steel,
            BattleType::Flying,
        ],
        BattleType::Ground => seq![BattleType::Rock, BattleType::Poison],
        BattleType::Rock => seq![
            BattleType::Rock,
            BattleType::Fire,
            BattleType::Normal,
            BattleType::Flying,
            BattleType::Poison,
        ],
        BattleType::Dragon => seq![
            BattleType::Water,
            BattleType::Fire,
            BattleType::Electric,
            BattleType::Grass,
        ],
        BattleType::Fairy => seq![BattleType::Fighting, BattleType::Bug, BattleType::Dark],
        BattleType::Steel => seq![
            BattleType::Steel,
            BattleType::Rock,
            BattleType::Normal,
            BattleType::Flying,
            BattleType::Bug,
            BattleType::Fairy,
            BattleType::Grass,
            BattleType::Psychic,
            BattleType::Ice,
            BattleType::Dragon,
        ],
        BattleType::Poison => seq![
            BattleType::Poison,
            BattleType::Fighting,
            BattleType::Bug,
            BattleType::Grass,
            BattleType::Fairy,
        ],
        _ => seq![],
    }
}

/// The attacking types that cannot hurt a defender of type `t` at all.
pub open spec fn immunity_chart(t: BattleType) -> Seq<BattleType> {
    match t {
        BattleType::Normal => seq![BattleType::GhostType],
        BattleType::Dark => seq![BattleType::Psychic],
        BattleType::GhostType => seq![BattleType::Normal, BattleType::Fighting],
        BattleType::Fairy => seq![BattleType::Dragon],
        BattleType::Flying => seq![BattleType::Ground],
        BattleType::Ground => seq![BattleType::Electric],
        BattleType::Steel => seq![BattleType::Poison],
        BattleType::Bug => seq![BattleType::Dark],
        _ => seq![],
    }
}

impl BattleType {
    /// The types this type takes super-effective damage from.
    pub fn weaknesses(&self) -> (res: Vec<BattleType>)
        ensures
            res@ == weakness_chart(*self),
    {
        match self {
            BattleType::Normal => vec![BattleType::Fighting],
            BattleType::Fighting => vec![BattleType::Psychic, BattleType::Flying],
            BattleType::Psychic => vec![BattleType::Dark, BattleType::Bug],
            BattleType::Dark => vec![BattleType::Fighting, BattleType::Fairy],
            BattleType::GhostType => vec![*self, BattleType::Dark],
            BattleType::Bug => vec![BattleType::Flying, BattleType::Fire, BattleType::Rock],
            BattleType::Grass => vec![
                BattleType::Fire,
                BattleType::Flying,
                BattleType::Bug,
                BattleType::Poison,
                BattleType::Ice,
                BattleType::Poison,
            ],
            BattleType::Fire => vec![BattleType::Water, BattleType::Ground, BattleType::Rock],
            BattleType::Water => vec![BattleType::Electric, BattleType::Grass],
            BattleType::Electric => vec![BattleType::Ground],
            BattleType::Ground => vec![BattleType::Water, BattleType::Grass, BattleType::Ice],
            BattleType::Rock => vec![
                BattleType::Water,
                BattleType::Fighting,
                BattleType::Grass,
                BattleType::Ground,
                BattleType::Steel,
            ],
            BattleType::Dragon => vec![*self, BattleType::Fairy],
            BattleType::Fairy => vec![BattleType::Poison, BattleType::Steel],
            BattleType::Steel => vec![BattleType::Fire, BattleType::Fighting, BattleType::Ground],
            BattleType::Poison => vec![BattleType::Psychic, BattleType::Ground],
            BattleType::Ice => vec![
                BattleType::Fighting,
                BattleType::Steel,
                BattleType::Rock,
                BattleType::Fire,
            ],
            _ => vec![],
        }
    }

    /// The types whose attacks this type takes reduced damage from.
    pub fn resists(&self) -> (res: Vec<BattleType>)
        ensures
            res@ == resistance_chart(*self),
    {
        match self {
            BattleType::Fighting => vec![BattleType::Rock, BattleType::Bug, BattleType::Dark],
            BattleType::Psychic => vec![*self, BattleType::Fighting],
            BattleType::Dark => vec![*self, BattleType::GhostType],
            BattleType::GhostType => vec![BattleType::Poison, BattleType::Bug],
            BattleType::Bug => vec![BattleType::Fighting, BattleType::Ground, BattleType::Grass],
            BattleType::Grass => vec![
                *self,
                BattleType::Water,
                BattleType::Ground,
                BattleType::Electric,
            ],
            BattleType::Fire => vec![
                *self,
                BattleType::Steel,
                BattleType::Grass,
                BattleType::Bug,
                BattleType::Ice,
                BattleType::Fairy,
            ],
            BattleType::Water => vec![*self, BattleType::Ice, BattleType::Steel, BattleType::Fire],
            BattleType::Electric => vec![*self, BattleType::Steel, BattleType::Flying],
            BattleType::Ground => vec![BattleType::Rock, BattleType::Poison],
            BattleType::Rock => vec![
                *self,
                BattleType::Fire,
                BattleType::Normal,
                BattleType::Flying,
                BattleType::Poison,
            ],
            BattleType::Dragon => vec![
                BattleType::Water,
                BattleType::Fire,
                BattleType::Electric,
                BattleType::Grass,
            ],
            BattleType::Fairy => vec![BattleType::Fighting, BattleType::Bug, BattleType::Dark],
            BattleType::Steel => vec![
                *self,
                BattleType::Rock,
                BattleType::Normal,
                BattleType::Flying,
                BattleType::Bug,
                BattleType::Fairy,
                BattleType::Grass,
                BattleType::Psychic,
                BattleType::Ice,
                BattleType::Dragon,
            ],
            BattleType::Poison => vec![
                *self,
                BattleType::Fighting,
                BattleType::Bug,
                BattleType::Grass,
                BattleType::Fairy,
            ],
            _ => vec![],
        }
    }

    /// The types whose attacks have no effect on this type.
    pub fn immune_against(&self) -> (res: Vec<BattleType>)
        ensures
            res@ == immunity_chart(*self),
    {
        match self {
            BattleType::Normal => vec![BattleType::GhostType],
            BattleType::Dark => vec![BattleType::Psychic],
            BattleType::GhostType => vec![BattleType::Normal, BattleType::Fighting],
            BattleType::Fairy => vec![BattleType::Dragon],
            BattleType::Flying => vec![BattleType::Ground],
            BattleType::Ground => vec![BattleType::Electric],
            BattleType::Steel => vec![BattleType::Poison],
            BattleType::Bug => vec![BattleType::Dark],
            _ => vec![],
        }
    }
}

/// For an attacking type, the defending types its attacks hit hard, in chart order of the defenders.
pub open spec fn super_effective_against(attacker: BattleType) -> Seq<BattleType> {
    match attacker {
        BattleType::Fighting => seq![BattleType::Normal, BattleType::Dark, BattleType::Rock, BattleType::Steel, BattleType::Ice],
        BattleType::Psychic => seq![BattleType::Fighting, BattleType::Poison],
        BattleType::Dark => seq![BattleType::Psychic, BattleType::GhostType],
        BattleType::GhostType => seq![BattleType::GhostType],
        BattleType::Bug => seq![BattleType::Psychic, BattleType::Grass],
        BattleType::Grass => seq![BattleType::Water, BattleType::Ground, BattleType::Rock],
        BattleType::Fire => seq![BattleType::Bug, BattleType::Grass, BattleType::Steel, BattleType::Ice],
        BattleType::Water => seq![BattleType::Fire, BattleType::Ground, BattleType::Rock],
        BattleType::Electric => seq![BattleType::Water],
        BattleType::Ground => seq![BattleType::Fire, BattleType::Electric, BattleType::Rock, BattleType::Steel, BattleType::Poison],
        BattleType::Rock => seq![BattleType::Bug, BattleType::Fire, BattleType::Ice],
        BattleType::Dragon => seq![BattleType::Dragon],
        BattleType::Fairy => seq![BattleType::Dark, BattleType::Dragon],
        BattleType::Flying => seq![BattleType::Fighting, BattleType::Bug, BattleType::Grass],
        BattleType::Steel => seq![BattleType::Rock, BattleType::Fairy, BattleType::Ice],
        BattleType::Poison => seq![BattleType::Grass, BattleType::Fairy],
        BattleType::Ice => seq![BattleType::Grass, BattleType::Ground],
        _ => seq![],
    }
}

/// For an attacking type, the defending types that resist its attacks, in chart order of the defenders.
pub open spec fn resisted_by(attacker: BattleType) -> Seq<BattleType> {
    match attacker {
        BattleType::Normal => seq![BattleType::Rock, BattleType::Steel],
        BattleType::Fighting => seq![BattleType::Psychic, BattleType::Bug, BattleType::Fairy, BattleType::Poison],
        BattleType::Psychic => seq![BattleType::Psychic, BattleType::Steel],
        BattleType::Dark => seq![BattleType::Fighting, BattleType::Dark, BattleType::Fairy],
        BattleType::GhostType => seq![BattleType::Dark],
        BattleType::Bug => seq![BattleType::Fighting, BattleType::GhostType, BattleType::Fire, BattleType::Fairy, BattleType::Steel, BattleType::Poison],
        BattleType::Grass => seq![BattleType::Bug, BattleType::Grass, BattleType::Fire, BattleType::Dragon, BattleType::Steel, BattleType::Poison],
        BattleType::Fire => seq![BattleType::Fire, BattleType::Water, BattleType::Rock, BattleType::Dragon],
        BattleType::Water => seq![BattleType::Grass, BattleType::Water, BattleType::Dragon],
        BattleType::Electric => seq![BattleType::Grass, BattleType::Electric, BattleType::Dragon],
        BattleType::Ground => seq![BattleType::Bug, BattleType::Grass],
        BattleType::Rock => seq![BattleType::Fighting, BattleType::Ground, BattleType::Rock, BattleType::Steel],
        BattleType::Dragon => seq![BattleType::Steel],
        BattleType::Fairy => seq![BattleType::Fire, BattleType::Steel, BattleType::Poison],
        BattleType::Flying => seq![BattleType::Electric, BattleType::Rock, BattleType::Steel],
        BattleType::Steel => seq![BattleType::Fire, BattleType::Water, BattleType::Electric, BattleType::Steel],
        BattleType::Poison => seq![BattleType::GhostType, BattleType::Ground, BattleType::Rock, BattleType::Poison],
        BattleType::Ice => seq![BattleType::Fire, BattleType::Water, BattleType::Steel],
        _ => seq![],
    }
}

/// For an attacking type, the defending types its attacks cannot hurt, in chart order of the defenders.
pub open spec fn no_effect_on(attacker: BattleType) -> Seq<BattleType> {
    match attacker {
        BattleType::Normal => seq![BattleType::GhostType],
        BattleType::Fighting => seq![BattleType::GhostType],
        BattleType::Psychic => seq![BattleType::Dark],
        BattleType::Dark => seq![BattleType::Bug],
        BattleType::GhostType => seq![BattleType::Normal],
        BattleType::Electric => seq![BattleType::Ground],
        BattleType::Ground => seq![BattleType::Flying],
        BattleType::Dragon => seq![BattleType::Fairy],
        BattleType::Poison => seq![BattleType::Steel],
        _ => seq![],
    }
}

/// The chart read by attackers agrees with the chart read by defenders: a
/// defender is weak to an attacker exactly when the attacker hits it hard,
/// resists it exactly when the attacker is resisted by it, and is immune to
/// it exactly when the attacker has no effect on it.
pub proof fn lemma_chart_by_attacker(attacker: BattleType, defender: BattleType)
    ensures
        weakness_chart(defender).contains(attacker) <==> super_effective_against(attacker).contains(
            defender,
        ),
        resistance_chart(defender).contains(attacker) <==> resisted_by(attacker).contains(defender),
        immunity_chart(defender).contains(attacker) <==> no_effect_on(attacker).contains(defender),
{
    broadcast use vstd::seq_lib::lemma_seq_contains_after_push, vstd::seq_lib::lemma_seq_empty_contains_nothing;

}

/// No entry of the chart names the placeholder type `NoType`, and `NoType`
/// itself has no weakness, resistance or immunity.
pub proof fn lemma_chart_never_names_no_type(t: BattleType)
    ensures
        !weakness_chart(t).contains(BattleType::NoType),
        !resistance_chart(t).contains(BattleType::NoType),
        !immunity_chart(t).contains(BattleType::NoType),
        weakness_chart(BattleType::NoType).len() == 0,
        resistance_chart(BattleType::NoType).len() == 0,
        immunity_chart(BattleType::NoType).len() == 0,
{
}

/// For every defending type, the attackers it is weak to, the attackers it
/// resists and the attackers it is immune to are three disjoint groups: no
/// attack is at once super-effective and resisted, nor both harmful and
/// harmless.
pub proof fn lemma_chart_relations_disjoint(defender: BattleType, attacker: BattleType)
    ensures
        !(weakness_chart(defender).contains(attacker) && resistance_chart(defender).contains(
            attacker,
        )),
        !(weakness_chart(defender).contains(attacker) && immunity_chart(defender).contains(
            attacker,
        )),
        !(resistance_chart(defender).contains(attacker) && immunity_chart(defender).contains(
            attacker,
        )),
{
}

} // verus!
