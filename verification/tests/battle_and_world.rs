use rustemon::interface::{calc_text_rate, DialogBox};
use rustemon::monster::Monster;
use rustemon::moves::{Effect, PokeMove};
use rustemon::natures::Nature;
use rustemon::player::{CharacterState, Party, Player};
use rustemon::playback::{last_sample, seek_position};
use rustemon::tile_to_ascii::{to_char, CharTile, Tile, TileToChar};
use rustemon::types::BattleType;

fn sample_monster<'a>() -> Monster<'a> {
    Monster::new(
        4,
        50,
        "Charmander".to_string(),
        [BattleType::Fire, BattleType::NoType],
        [100, 100, 100, 100, 100, 100],
    )
}

#[test]
fn text_rate_formula() {
    assert_eq!(calc_text_rate(3), 62);
    assert_eq!(calc_text_rate(0), 100);
    assert_eq!(calc_text_rate(5), 50);
    assert_eq!(calc_text_rate(255), 1);
}

#[test]
fn dialog_prints_speaker_then_text_in_order() {
    let mut d = DialogBox::new("Hi there", "Bob", 50, 24);
    let mut printed = String::new();
    let mut frames = Vec::new();
    while d.is_open() {
        assert!(d.step_defined());
        let f = d.step();
        printed.push(f.ch);
        frames.push(f);
    }
    assert_eq!(printed, "Hi there");
    assert!(frames[0].show_speaker);
    assert_eq!(frames[0].speaker_y, 20);
    assert_eq!((frames[0].x, frames[0].y), (8, 20));
    assert_eq!(frames[0].wait_until_ms, 0);
    assert_eq!((frames[1].x, frames[1].y), (9, 20));
    assert!(!frames[1].show_speaker);
    assert_eq!(frames[7].wait_until_ms, 350);
    assert!(frames.iter().all(|f| !f.page_break));
}

#[test]
fn dialog_wraps_words_and_breaks_pages() {
    let word = "abcdefghij";
    let mut text = String::new();
    for _ in 0..30 {
        text.push_str(word);
        text.push(' ');
    }
    let mut d = DialogBox::new(&text, "", 10, 24);
    let mut printed = String::new();
    let mut pages = 0;
    let mut max_x = 0;
    while d.is_open() {
        let f = d.step();
        printed.push(f.ch);
        if f.x > max_x {
            max_x = f.x;
        }
        assert!(f.y >= 20 && f.y <= 22);
        if f.page_break {
            pages += 1;
            assert_eq!((f.clear_from, f.clear_to), (19, 24));
        }
    }
    assert_eq!(printed, text);
    assert!(pages >= 1);
    assert!(max_x < 80);
}

#[test]
fn dialog_with_wide_characters_repeats_after_a_page() {
    // With characters wider than one byte, a new page starts at the byte
    // whose number is the character index, one character earlier here.
    let mut text = String::from("é");
    for _ in 0..300 {
        text.push('a');
    }
    let mut d = DialogBox::new(&text, "", 1, 24);
    let mut printed = String::new();
    let mut steps = 0;
    while d.is_open() && d.step_defined() {
        let f = d.step();
        printed.push(f.ch);
        steps += 1;
    }
    // The page breaks at character 229; the next page is bytes 229.. of the
    // text, 73 letters, whose first was already printed as character 228.
    assert_eq!(steps, 302);
    let mut expected = String::from("é");
    for _ in 0..301 {
        expected.push('a');
    }
    assert_eq!(printed, expected);
    assert!(!d.is_open());
}

#[test]
fn new_monster_is_blank() {
    let m = sample_monster();
    assert_eq!(m.monster_id, 4);
    assert_eq!(m.lvl, 50);
    assert_eq!(m.name, "Charmander");
    assert_eq!(m.curstats, [0; 6]);
    assert_eq!(m.accuracy, 100);
    assert!(!m.owned);
    assert!(m.overworld.is_none());
    assert!(matches!(m.status, Effect::Null));
    assert_eq!(m.moves, [PokeMove::Null; 4]);
}

#[test]
fn init_stats_follows_formula() {
    let mut m = sample_monster();
    m.nature = Nature::Adamant;
    m.init_stats();
    // core = (2 * 100 + 0 + 0) * 50 / 100 = 100
    assert_eq!(m.curstats, [160, 126, 105, 84, 105, 105]);
    let mut n = sample_monster();
    n.nature = Nature::Hardy;
    n.iv = [31, 31, 31, 31, 31, 31];
    n.ev = [252, 0, 0, 0, 0, 255];
    n.init_stats();
    // health: (200 + 31 + 63) * 50 / 100 = 147; + 50 + 10
    // speed: (200 + 31 + 63) * 50 / 100 + 5 = 152
    assert_eq!(n.curstats, [207, 120, 120, 120, 120, 152]);
}

#[test]
fn nature_modify_names_raised_and_lowered() {
    let mut m = sample_monster();
    m.nature = Nature::Timid;
    assert_eq!(m.nature_modify(), [(5, 20), (1, -20)]);
}

#[test]
fn stat_accessors_change_in_place() {
    let mut m = sample_monster();
    m.nature = Nature::Serious;
    m.init_stats();
    *m.attack() -= 5;
    *m.health() += 1;
    *m.defense() = 1;
    *m.spattack() = 2;
    *m.spdefense() = 3;
    *m.speed() = 4;
    assert_eq!(m.curstats, [161, 100, 1, 2, 3, 4]);
}

#[test]
fn attack_change_effect() {
    let mut m = sample_monster();
    m.curstats[1] = 50;
    Effect::ChangeAttack.apply(&mut m, -20);
    assert_eq!(m.curstats[1], 30);
    Effect::ChangeAttack.apply(&mut m, 20);
    assert_eq!(m.curstats[1], 50);
}

#[test]
fn growl_hit_and_miss() {
    let mut foe = sample_monster();
    foe.owned = true;
    let mut target = sample_monster();
    target.curstats[1] = 40;
    let msgs = PokeMove::Growl.go(&foe, &mut target, true);
    assert_eq!(msgs, vec![
        "Foe Charmander used Growl!\n".to_string(),
        "Target was disarmed!\nAttack was lowered.\n".to_string(),
    ]);
    assert_eq!(target.curstats[1], 20);
    let mine = sample_monster();
    let msgs = PokeMove::Growl.go(&mine, &mut target, false);
    assert_eq!(msgs, vec![
        "Charmander used Growl!\n".to_string(),
        "Enemy avoided the attack!\n".to_string(),
    ]);
    assert_eq!(target.curstats[1], 20);
}

#[test]
fn ember_miss_only_announces() {
    let actor = sample_monster();
    let mut target = sample_monster();
    let msgs = PokeMove::Ember.go(&actor, &mut target, false);
    assert_eq!(msgs, vec!["Charmander used Ember!\n".to_string()]);
    assert_eq!(PokeMove::Confusion.name(), "Confusion");
}

fn sample_player<'a>() -> Player<'a> {
    Player {
        name: "DEV".to_string(),
        party: Party::new(),
        position: (10, 10, 0),
        animation_state: 0,
        movement_state: CharacterState::Standing,
    }
}

#[test]
fn player_moves_and_stops_at_edges() {
    let mut p = sample_player();
    p.move_left();
    p.move_up();
    assert_eq!(p.position, (9, 11, 0));
    p.move_right();
    p.move_down();
    assert_eq!(p.position, (10, 10, 0));
    p.descend();
    assert_eq!(p.position, (10, 10, 0));
    p.ascend();
    assert_eq!(p.position, (10, 10, 1));
    p.position = (0, u16::MAX, u16::MAX);
    p.move_left();
    p.move_up();
    p.ascend();
    assert_eq!(p.position, (0, u16::MAX, u16::MAX));
    p.position = (u16::MAX, 0, 0);
    p.move_right();
    p.move_down();
    assert_eq!(p.position, (u16::MAX, 0, 0));
}

#[test]
fn party_holds_six_and_swaps() {
    let given = vec![sample_monster(), {
        let mut m = sample_monster();
        m.monster_id = 7;
        m
    }];
    let party = Party::with_mons(&given);
    assert_eq!(given.len(), 2);
    assert_eq!(party.mons.len(), 6);
    assert_eq!(party.mons[0].monster_id, 4);
    assert_eq!(party.mons[1].monster_id, 7);
    assert_eq!(party.mons[5].monster_id, 0);
    assert_eq!(party.mons[5].lvl, 0);
    let mut p = sample_player();
    p.party = party;
    p.swap_party(1, 4);
    assert_eq!(p.party.mons[4].monster_id, 7);
    assert_eq!(p.party.mons[1].monster_id, 0);
    p.swap_party(4, 0);
    assert_eq!(p.party.mons[0].monster_id, 7);
    assert_eq!(p.party.mons[4].monster_id, 4);
    p.swap_party(3, 3);
    assert_eq!(p.party.mons.len(), 6);
}

#[test]
fn party_fillers_are_fresh_monsters() {
    let party = Party::new();
    assert!(!party.owned);
    assert_eq!(party.mons.len(), 6);
    for m in &party.mons {
        assert_eq!(m.monster_id, 0);
        assert_eq!(m.lvl, 0);
        assert_eq!(m.name, "");
        assert_eq!(m.battle_type, [BattleType::NoType, BattleType::NoType]);
        assert_eq!(m.stats, [0; 6]);
        assert_eq!(m.iv, [0; 6]);
        assert_eq!(m.ev, [0; 6]);
        assert_eq!(m.curstats, [0; 6]);
        assert_eq!(m.accuracy, 100);
        assert_eq!(m.crit_level, 0);
        assert!(matches!(m.status, Effect::Null));
        assert_eq!(m.moves, [PokeMove::Null; 4]);
        assert!(!m.owned);
        assert_eq!(m.affection, 0);
        assert!(m.overworld.is_none());
    }
}

#[test]
fn duplicate_copies_every_field() {
    let mut m = sample_monster();
    m.iv = [1, 2, 3, 4, 5, 6];
    m.owned = true;
    m.overworld = Some((1, 2, 3, 4, 5));
    let d = m.duplicate();
    assert_eq!(d.name, m.name);
    assert_eq!(d.iv, m.iv);
    assert_eq!(d.owned, m.owned);
    assert_eq!(d.overworld, m.overworld);
    assert_eq!(d.nature, m.nature);
}

struct Plain;
impl TileToChar for Plain {}

#[test]
fn tile_pixels_and_characters() {
    let data = vec![Some([1, 2, 3, 4]), None, Some([5, 6, 7, 8]), Some([9, 9, 9, 9]), None, None];
    let tile = Tile { data, width: 2, height: 3 };
    assert_eq!(tile.get_pixel(0, 0), Some([1, 2, 3, 4]));
    assert_eq!(tile.get_pixel(1, 0), None);
    // rows are `len / width` = 3 entries apart
    assert_eq!(tile.get_pixel(0, 1), Some([9, 9, 9, 9]));
    assert_eq!(tile.get_pixel(2, 0), Some([5, 6, 7, 8]));
    assert_eq!(tile.get_pixel(1, 1), None);
    assert_eq!(tile.get_pixel(3, 0), None);
    assert_eq!(tile.get_pixel(0, 4), None);
    assert_eq!(to_char(tile), ' ');
    let c: CharTile = Plain.to_char();
    assert_eq!(c.color, [255, 255, 255, 255]);
    assert_eq!(c.char, '.');
}

#[test]
fn seeking() {
    assert_eq!(seek_position(100, 50), 150);
    assert_eq!(seek_position(100, -30), 0);
    assert_eq!(seek_position(100, -100), 0);
    assert_eq!(seek_position(0, 0), 0);
    assert_eq!(last_sample(10), 9);
}
