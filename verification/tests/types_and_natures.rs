use rustemon::natures::Nature;
use rustemon::types::BattleType;

const ALL_TYPES: [BattleType; 19] = [
    BattleType::NoType,
    BattleType::Normal,
    BattleType::Fighting,
    BattleType::Psychic,
    BattleType::Dark,
    BattleType::GhostType,
    BattleType::Bug,
    BattleType::Grass,
    BattleType::Fire,
    BattleType::Water,
    BattleType::Electric,
    BattleType::Ground,
    BattleType::Rock,
    BattleType::Dragon,
    BattleType::Fairy,
    BattleType::Flying,
    BattleType::Steel,
    BattleType::Poison,
    BattleType::Ice,
];

#[test]
fn fire_weaknesses() {
    assert_eq!(
        BattleType::Fire.weaknesses(),
        vec![BattleType::Water, BattleType::Ground, BattleType::Rock]
    );
}

#[test]
fn grass_lists_poison_twice() {
    let w = BattleType::Grass.weaknesses();
    assert_eq!(w.len(), 6);
    assert_eq!(w.iter().filter(|t| **t == BattleType::Poison).count(), 2);
}

#[test]
fn ghost_and_dragon_are_weak_to_themselves() {
    assert_eq!(
        BattleType::GhostType.weaknesses(),
        vec![BattleType::GhostType, BattleType::Dark]
    );
    assert_eq!(
        BattleType::Dragon.weaknesses(),
        vec![BattleType::Dragon, BattleType::Fairy]
    );
}

#[test]
fn flying_has_no_weakness_but_one_immunity() {
    assert!(BattleType::Flying.weaknesses().is_empty());
    assert!(BattleType::Flying.resists().is_empty());
    assert_eq!(BattleType::Flying.immune_against(), vec![BattleType::Ground]);
}

#[test]
fn steel_resists_ten_types_starting_with_itself() {
    let r = BattleType::Steel.resists();
    assert_eq!(r.len(), 10);
    assert_eq!(r[0], BattleType::Steel);
    assert_eq!(r[9], BattleType::Dragon);
}

#[test]
fn normal_is_immune_to_ghost() {
    assert_eq!(BattleType::Normal.immune_against(), vec![BattleType::GhostType]);
    assert_eq!(
        BattleType::GhostType.immune_against(),
        vec![BattleType::Normal, BattleType::Fighting]
    );
}

#[test]
fn no_type_has_empty_chart() {
    assert!(BattleType::NoType.weaknesses().is_empty());
    assert!(BattleType::NoType.resists().is_empty());
    assert!(BattleType::NoType.immune_against().is_empty());
}

#[test]
fn chart_relations_are_disjoint_and_never_name_no_type() {
    for t in ALL_TYPES {
        let w = t.weaknesses();
        let r = t.resists();
        let i = t.immune_against();
        for a in ALL_TYPES {
            let cw = w.contains(&a);
            let cr = r.contains(&a);
            let ci = i.contains(&a);
            assert!(!(cw && cr) && !(cw && ci) && !(cr && ci));
        }
        assert!(!w.contains(&BattleType::NoType));
        assert!(!r.contains(&BattleType::NoType));
        assert!(!i.contains(&BattleType::NoType));
    }
}

#[test]
fn rolls_select_natures_in_table_order() {
    assert_eq!(Nature::from_roll(0), Nature::Adamant);
    assert_eq!(Nature::from_roll(8), Nature::Hardy);
    assert_eq!(Nature::from_roll(23), Nature::Serious);
    assert_eq!(Nature::from_roll(24), Nature::Timid);
    assert_eq!(Nature::from_roll(200), Nature::Timid);
}

#[test]
fn nature_effects_follow_the_table() {
    assert_eq!(Nature::Adamant.stat_effect(), (1, 3));
    assert_eq!(Nature::Hardy.stat_effect(), (1, 1));
    assert_eq!(Nature::Modest.stat_effect(), (3, 1));
    assert_eq!(Nature::Jolly.stat_effect(), (5, 3));
    assert_eq!(Nature::Careful.stat_effect(), (4, 3));
    assert_eq!(Nature::Lax.stat_effect(), (2, 4));
    assert_eq!(Nature::Quirky.stat_effect(), (4, 4));
    assert_eq!(Nature::Timid.stat_effect(), (5, 1));
}

#[test]
fn nature_table_is_one_to_one() {
    let mut seen = Vec::new();
    for roll in 0u8..25 {
        let e = Nature::from_roll(roll).stat_effect();
        assert!(e.0 >= 1 && e.0 <= 5 && e.1 >= 1 && e.1 <= 5);
        assert!(!seen.contains(&e));
        seen.push(e);
    }
    assert_eq!(seen.len(), 25);
    let neutral = seen.iter().filter(|e| e.0 == e.1).count();
    assert_eq!(neutral, 5);
}

#[test]
fn random_natures_vary() {
    let mut natures = Vec::new();
    for _ in 0..200 {
        natures.push(Nature::new());
    }
    assert!(natures.iter().any(|n| *n != natures[0]));
    assert!(natures.iter().any(|n| *n != Nature::Timid));
}
