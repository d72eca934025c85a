use rand::Rng;
use vstd::prelude::*;

verus! {

/// A monster's nature: it raises one of the five battle stats by a fifth and
/// lowers one by a fifth (the same stat for the five neutral natures).
///
/// Stat indices: 0 health, 1 attack, 2 defense, 3 special attack,
/// 4 special defense, 5 speed.
#[derive(Debug, Clone, Copy, PartialEq, Eq, Structural)]
pub enum Nature {
    Adamant,
    Bashful,
    Bold,
    Brave,
    Calm,
    Careful,
    Docile,
    Gentle,
    Hardy,
    Hasty,
    Impish,
    Jolly,
    Lax,
    Lonely,
    Mild,
    Modest,
    Naive,
    Naughty,
    Quiet,
    Quirky,
    Rash,
    Relaxed,
    Sassy,
    Serious,
    Timid,
}

/// The nature table: the stat a nature raises and the stat it lowers.
pub open spec fn nature_effect(n: Nature) -> (int, int) {
    match n {
        Nature::Adamant => (1, 3),
        Nature::Bashful => (3, 3),
        Nature::Bold => (2, 1),
        Nature::Brave => (1, 5),
        Nature::Calm => (4, 1),
        Nature::Careful => (4, 3),
        Nature::Docile => (2, 2),
        Nature::Gentle => (4, 2),
        Nature::Hardy => (1, 1),
        Nature::Hasty => (5, 2),
        Nature::Impish => (2, 3),
        Nature::Jolly => (5, 3),
        Nature::Lax => (2, 4),
        Nature::Lonely => (1, 2),
        Nature::Mild => (3, 2),
        Nature::Modest => (3, 1),
        Nature::Naive => (5, 4),
        Nature::Naughty => (1, 4),
        Nature::Quiet => (3, 5),
        Nature::Quirky => (4, 4),
        Nature::Rash => (3, 4),
        Nature::Relaxed => (2, 5),
        Nature::Sassy => (4, 5),
        Nature::Serious => (5, 5),
        Nature::Timid => (5, 1),
    }
}

/// The nature that a roll in `0..25` selects; larger rolls select `Timid`.
pub open spec fn nature_of_roll(which: u8) -> Nature {
    if which == 0 { Nature::Adamant }
    else if which == 1 { Nature::Bashful }
    else if which == 2 { Nature::Bold }
    else if which == 3 { Nature::Brave }
    else if which == 4 { Nature::Calm }
    else if which == 5 { Nature::Careful }
    else if which == 6 { Nature::Docile }
    else if which == 7 { Nature::Gentle }
    else if which == 8 { Nature::Hardy }
    else if which == 9 { Nature::Hasty }
    else if which == 10 { Nature::Impish }
    else if which == 11 { Nature::Jolly }
    else if which == 12 { Nature::Lax }
    else if which == 13 { Nature::Lonely }
    else if which == 14 { Nature::Mild }
    else if which == 15 { Nature::Modest }
    else if which == 16 { Nature::Naive }
    else if which == 17 { Nature::Naughty }
    else if which == 18 { Nature::Quiet }
    else if which == 19 { Nature::Quirky }
    else if which == 20 { Nature::Rash }
    else if which == 21 { Nature::Relaxed }
    else if which == 22 { Nature::Sassy }
    else if which == 23 { Nature::Serious }
    else { Nature::Timid }
}

/// The roll that selects nature `n`.
pub open spec fn roll_of_nature(n: Nature) -> u8 {
    match n {
        Nature::Adamant => 0,
        Nature::Bashful => 1,
        Nature::Bold => 2,
        Nature::Brave => 3,
        Nature::Calm => 4,
        Nature::Careful => 5,
        Nature::Docile => 6,
        Nature::Gentle => 7,
        Nature::Hardy => 8,
        Nature::Hasty => 9,
        Nature::Impish => 10,
        Nature::Jolly => 11,
        Nature::Lax => 12,
        Nature::Lonely => 13,
        Nature::Mild => 14,
        Nature::Modest => 15,
        Nature::Naive => 16,
        Nature::Naughty => 17,
        Nature::Quiet => 18,
        Nature::Quirky => 19,
        Nature::Rash => 20,
        Nature::Relaxed => 21,
        Nature::Sassy => 22,
        Nature::Serious => 23,
        Nature::Timid => 24,
    }
}

/// Calls `rand::thread_rng().gen_range(0..bound)`. rand documents that the
/// value lies in the half-open range and that an empty range panics; which
/// value comes out is chance, and nothing more is claimed of it.
#[verifier::external_body]
fn roll_below(bound: u8) -> (r: u8)
    requires
        bound > 0,
    ensures
        r < bound,
{
    rand::thread_rng().gen_range(0..bound)
}

impl Nature {
    /// A nature picked at random, each of the 25 with one roll of `0..25`.
    pub fn new() -> (n: Nature)
        ensures
            exists|which: u8| which < 25 && n == nature_of_roll(which),
    {
        let which = roll_below(25);
        Nature::from_roll(which)
    }

    /// The nature selected by a roll: rolls `0..24` in table order, and any
    /// larger roll gives `Timid`.
    pub fn from_roll(which: u8) -> (n: Nature)
        ensures
            n == nature_of_roll(which),
    {
        match which {
            0u8 => Nature::Adamant,
            1u8 => Nature::Bashful,
            2u8 => Nature::Bold,
            3u8 => Nature::Brave,
            4u8 => Nature::Calm,
            5u8 => Nature::Careful,
            6u8 => Nature::Docile,
            7u8 => Nature::Gentle,
            8u8 => Nature::Hardy,
            9u8 => Nature::Hasty,
            10u8 => Nature::Impish,
            11u8 => Nature::Jolly,
            12u8 => Nature::Lax,
            13u8 => Nature::Lonely,
            14u8 => Nature::Mild,
            15u8 => Nature::Modest,
            16u8 => Nature::Naive,
            17u8 => Nature::Naughty,
            18u8 => Nature::Quiet,
            19u8 => Nature::Quirky,
            20u8 => Nature::Rash,
            21u8 => Nature::Relaxed,
            22u8 => Nature::Sassy,
            23u8 => Nature::Serious,
            _ => Nature::Timid,
        }
    }

    /// The stat this nature raises and the stat it lowers, as indices into
    /// the six stats.
    pub fn stat_effect(&self) -> (r: (usize, usize))
        ensures
            r.0 as int == nature_effect(*self).0,
            r.1 as int == nature_effect(*self).1,
    {
        match self {
            Nature::Adamant => (1, 3),
            Nature::Bashful => (3, 3),
            Nature::Bold => (2, 1),
            Nature::Brave => (1, 5),
            Nature::Calm => (4, 1),
            Nature::Careful => (4, 3),
            Nature::Docile => (2, 2),
            Nature::Gentle => (4, 2),
            Nature::Hardy => (1, 1),
            Nature::Hasty => (5, 2),
            Nature::Impish => (2, 3),
            Nature::Jolly => (5, 3),
            Nature::Lax => (2, 4),
            Nature::Lonely => (1, 2),
            Nature::Mild => (3, 2),
            Nature::Modest => (3, 1),
            Nature::Naive => (5, 4),
            Nature::Naughty => (1, 4),
            Nature::Quiet => (3, 5),
            Nature::Quirky => (4, 4),
            Nature::Rash => (3, 4),
            Nature::Relaxed => (2, 5),
            Nature::Sassy => (4, 5),
            Nature::Serious => (5, 5),
            Nature::Timid => (5, 1),
        }
    }
}

/// A nature never touches health: both stats it changes are among the five
/// battle stats 1..=5.
pub proof fn lemma_nature_spares_health(n: Nature)
    ensures
        1 <= nature_effect(n).0 <= 5,
        1 <= nature_effect(n).1 <= 5,
{
}

/// The nature table is a one-to-one correspondence between the 25 natures and
/// the 25 (raised, lowered) pairs of battle stats: two natures with the same
/// effect are the same nature, and every pair is the effect of some nature.
pub proof fn lemma_nature_table_bijective(a: Nature, b: Nature, raised: int, lowered: int)
    requires
        1 <= raised <= 5,
        1 <= lowered <= 5,
    ensures
        nature_effect(a) == nature_effect(b) ==> a == b,
        exists|n: Nature| nature_effect(n) == (raised, lowered),
{
    let n = if raised == 1 {
        if lowered == 1 { Nature::Hardy }
        else if lowered == 2 { Nature::Lonely }
        else if lowered == 3 { Nature::Adamant }
        else if lowered == 4 { Nature::Naughty }
        else { Nature::Brave }
    } else if raised == 2 {
        if lowered == 1 { Nature::Bold }
        else if lowered == 2 { Nature::Docile }
        else if lowered == 3 { Nature::Impish }
        else if lowered == 4 { Nature::Lax }
        else { Nature::Relaxed }
    } else if raised == 3 {
        if lowered == 1 { Nature::Modest }
        else if lowered == 2 { Nature::Mild }
        else if lowered == 3 { Nature::Bashful }
        else if lowered == 4 { Nature::Rash }
        else { Nature::Quiet }
    } else if raised == 4 {
        if lowered == 1 { Nature::Calm }
        else if lowered == 2 { Nature::Gentle }
        else if lowered == 3 { Nature::Careful }
        else if lowered == 4 { Nature::Quirky }
        else { Nature::Sassy }
    } else {
        if lowered == 1 { Nature::Timid }
        else if lowered == 2 { Nature::Hasty }
        else if lowered == 3 { Nature::Jolly }
        else if lowered == 4 { Nature::Naive }
        else { Nature::Serious }
    };
    assert(nature_effect(n) == (raised, lowered));
}

/// The nature chart read by rows and columns: row `r - 1` lists the natures
/// that raise stat `r`, and within it column `l - 1` is the one that lowers
/// stat `l` (stats 1 attack, 2 defense, 3 special attack, 4 special
/// defense, 5 speed).
pub open spec fn nature_grid() -> Seq<Seq<Nature>> {
    seq![
        seq![Nature::Hardy, Nature::Lonely, Nature::Adamant, Nature::Naughty, Nature::Brave],
        seq![Nature::Bold, Nature::Docile, Nature::Impish, Nature::Lax, Nature::Relaxed],
        seq![Nature::Modest, Nature::Mild, Nature::Bashful, Nature::Rash, Nature::Quiet],
        seq![Nature::Calm, Nature::Gentle, Nature::Careful, Nature::Quirky, Nature::Sassy],
        seq![Nature::Timid, Nature::Hasty, Nature::Jolly, Nature::Naive, Nature::Serious],
    ]
}

/// Every nature sits in the chart at the row of the stat it raises and the
/// column of the stat it lowers, and every cell of the chart is the nature
/// with that effect.
pub proof fn lemma_nature_effect_matches_chart(n: Nature, raised: int, lowered: int)
    requires
        1 <= raised <= 5,
        1 <= lowered <= 5,
    ensures
        nature_grid()[nature_effect(n).0 - 1][nature_effect(n).1 - 1] == n,
        nature_effect(nature_grid()[raised - 1][lowered - 1]) == (raised, lowered),
{
}

/// Exactly the five natures Bashful, Docile, Hardy, Quirky and Serious are
/// neutral: they raise and lower the same stat.
pub proof fn lemma_neutral_natures(n: Nature)
    ensures
        (nature_effect(n).0 == nature_effect(n).1) <==> (n == Nature::Bashful || n == Nature::Docile
            || n == Nature::Hardy || n == Nature::Quirky || n == Nature::Serious),
{
}

/// Every nature is selected by exactly one roll in `0..25`.
pub proof fn lemma_every_nature_has_one_roll(n: Nature, which: u8)
    requires
        which < 25,
    ensures
        roll_of_nature(n) < 25,
        nature_of_roll(roll_of_nature(n)) == n,
        nature_of_roll(which) == n <==> which == roll_of_nature(n),
{
}

} // verus!
