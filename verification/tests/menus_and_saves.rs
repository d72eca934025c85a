use rustemon::menu::{main_menu_step, MainMenuAction, MenuKey, Options, OptionsEvent, OptionsMenu};
use rustemon::saves::{decimal_string, parse_usize};

#[test]
fn default_options() {
    let o = Options::default();
    assert_eq!(o.frame_color_index(), 14);
    assert_eq!(o.frame_style_index(), 0);
    assert_eq!(o.text_speed(), 3);
    assert_eq!(o.master_volume, 100);
}

#[test]
fn setters_change_one_field() {
    let mut o = Options::default();
    o.set_frame_color(2);
    o.set_frame_style(5);
    o.set_text_speed(1);
    assert_eq!((o.frame_color_index, o.frame_style_index, o.text_speed, o.master_volume), (2, 5, 1, 100));
}

#[test]
fn main_menu_wraps_and_chooses() {
    assert_eq!(main_menu_step(0, MenuKey::Up), (3, MainMenuAction::Stay));
    assert_eq!(main_menu_step(3, MenuKey::Down), (0, MainMenuAction::Stay));
    assert_eq!(main_menu_step(1, MenuKey::Down), (2, MainMenuAction::Stay));
    assert_eq!(main_menu_step(0, MenuKey::Enter), (0, MainMenuAction::NewGame));
    assert_eq!(main_menu_step(1, MenuKey::Enter), (1, MainMenuAction::Continue));
    assert_eq!(main_menu_step(2, MenuKey::Enter), (2, MainMenuAction::OpenOptions));
    assert_eq!(main_menu_step(3, MenuKey::Enter), (3, MainMenuAction::SaveOptions));
    assert_eq!(main_menu_step(2, MenuKey::Back), (2, MainMenuAction::Quit));
    assert_eq!(main_menu_step(2, MenuKey::Left), (2, MainMenuAction::Stay));
}

#[test]
fn main_menu_up_undoes_down() {
    for s in 0..4 {
        let (d, _) = main_menu_step(s, MenuKey::Down);
        assert_eq!(main_menu_step(d, MenuKey::Up).0, s);
    }
}

#[test]
fn options_menu_up_from_top_goes_to_third_entry() {
    let mut m = OptionsMenu::new(Options::default());
    assert_eq!(m.step(MenuKey::Up), OptionsEvent::Nothing);
    assert_eq!(m.select, 2);
    m.step(MenuKey::Down);
    m.step(MenuKey::Down);
    assert_eq!(m.select, 0);
}

#[test]
fn options_menu_confirm_keeps_edits() {
    let mut m = OptionsMenu::new(Options::default());
    m.step(MenuKey::Right); // colour 14 -> 15
    m.step(MenuKey::Down);
    m.step(MenuKey::Left); // style 0 -> 7
    m.step(MenuKey::Down);
    m.step(MenuKey::Right); // speed 3 -> 4
    m.step(MenuKey::Right); // speed 4 -> 5
    m.step(MenuKey::Right); // stays 5
    m.step(MenuKey::Down);
    assert_eq!(m.step(MenuKey::Left), OptionsEvent::VolumeAdjusted); // 100 -> 95
    assert_eq!(m.step(MenuKey::Enter), OptionsEvent::Closed);
    assert!(!m.open);
    let o = m.outcome();
    assert_eq!((o.frame_color_index, o.frame_style_index, o.text_speed, o.master_volume), (15, 7, 5, 95));
}

#[test]
fn options_menu_back_restores() {
    let start = Options { frame_color_index: 3, frame_style_index: 2, text_speed: 2, master_volume: 40 };
    let mut m = OptionsMenu::new(start);
    m.step(MenuKey::Left);
    m.step(MenuKey::Down);
    m.step(MenuKey::Down);
    m.step(MenuKey::Left);
    m.step(MenuKey::Left);
    m.step(MenuKey::Down);
    m.step(MenuKey::Right);
    assert_eq!(m.step(MenuKey::Back), OptionsEvent::Closed);
    assert_eq!(m.outcome(), start);
}

#[test]
fn colour_and_style_wrap_around() {
    let mut m = OptionsMenu::new(Options { frame_color_index: 18, frame_style_index: 7, text_speed: 1, master_volume: 3 });
    m.step(MenuKey::Right);
    assert_eq!(m.color_index, 0);
    m.step(MenuKey::Left);
    assert_eq!(m.color_index, 18);
    m.step(MenuKey::Down);
    m.step(MenuKey::Right);
    assert_eq!(m.border_index, 0);
    m.step(MenuKey::Down);
    m.step(MenuKey::Left);
    assert_eq!(m.options.text_speed, 1);
    m.step(MenuKey::Down);
    m.step(MenuKey::Left);
    assert_eq!(m.options.master_volume, 0);
    m.step(MenuKey::Left);
    assert_eq!(m.options.master_volume, 0);
    m.step(MenuKey::Right);
    assert_eq!(m.options.master_volume, 5);
    let mut n = OptionsMenu::new(Options { frame_color_index: 0, frame_style_index: 0, text_speed: 3, master_volume: 97 });
    n.select = 3;
    n.step(MenuKey::Right);
    assert_eq!(n.options.master_volume, 100);
    n.step(MenuKey::Right);
    assert_eq!(n.options.master_volume, 100);
}

#[test]
fn parse_reads_like_from_str() {
    assert_eq!(parse_usize("12"), Some(12));
    assert_eq!(parse_usize("+7"), Some(7));
    assert_eq!(parse_usize("007"), Some(7));
    assert_eq!(parse_usize("+"), None);
    assert_eq!(parse_usize(""), None);
    assert_eq!(parse_usize("-1"), None);
    assert_eq!(parse_usize("1a"), None);
    assert_eq!(parse_usize(" 1"), None);
    assert_eq!(parse_usize("99999999999999999999999"), None);
    for s in ["0", "18", "255", "256", "+3", "x", "12345678"] {
        assert_eq!(parse_usize(s), s.parse::<usize>().ok());
    }
}

#[test]
fn decimal_matches_to_string() {
    assert_eq!(decimal_string(0), "0");
    assert_eq!(decimal_string(4096), "4096");
    for n in [1usize, 9, 10, 99, 100, 65535, usize::MAX] {
        assert_eq!(decimal_string(n), n.to_string());
    }
}

#[test]
fn save_lines_read_back() {
    let o = Options { frame_color_index: 17, frame_style_index: 6, text_speed: 5, master_volume: 30 };
    let lines = o.save_lines();
    assert_eq!(lines, vec!["17".to_string(), "6".to_string(), "5".to_string()]);
    let mut back = Options::default();
    back.load_lines(&lines);
    assert_eq!(back, Options { master_volume: 100, ..o });
}

#[test]
fn load_keeps_defaults_for_bad_lines() {
    let mut o = Options::default();
    o.load_lines(&vec!["19".to_string(), "abc".to_string(), "9".to_string(), "0.5".to_string(), "7".to_string()]);
    assert_eq!(o, Options { text_speed: 5, ..Options::default() });
    let mut p = Options::default();
    p.load_line(2, "256");
    assert_eq!(p, Options::default());
    p.load_line(2, "0");
    assert_eq!(p.text_speed, 0);
    p.load_line(1, "7");
    assert_eq!(p.frame_style_index, 7);
    p.load_line(1, "8");
    assert_eq!(p.frame_style_index, 7);
}
