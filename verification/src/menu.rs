use vstd::prelude::*;

verus! {

/// Number of frame colours the options menu cycles through.
pub const BORDER_COLOR_COUNT: usize = 19;

/// Number of frame styles the options menu cycles through.
pub const BORDER_STYLE_COUNT: usize = 8;

/// Number of entries of the main menu ("New Game", "Continue", "Options",
/// "Save Options").
pub const MAIN_MENU_ENTRIES: usize = 4;

/// Number of entries of the options menu ("Frame color", "Frame style",
/// "Text speed", "Master Volume").
pub const OPTIONS_MENU_ENTRIES: usize = 4;

/// Highest text speed.
pub const MAX_TEXT_SPEED: u8 = 5;

/// Global options of the game. The master volume is kept in percent
/// (100 is full volume); the menu moves it in steps of 5.
#[derive(Debug, Clone, Copy, PartialEq, Eq, Structural)]
pub struct Options {
    pub frame_color_index: usize,
    pub frame_style_index: usize,
    pub text_speed: u8,
    pub master_volume: u8,
}

/// The options a new game starts with.
pub open spec fn default_options() -> Options {
    Options { frame_color_index: 14, frame_style_index: 0, text_speed: 3, master_volume: 100 }
}

impl Options {
    /// White frames in the plain style, text speed 3, full volume.
    pub fn default() -> (o: Options)
        ensures
            o == default_options(),
    {
        Options { frame_color_index: 14, frame_style_index: 0, text_speed: 3, master_volume: 100 }
    }

    pub fn frame_color_index(&self) -> (r: usize)
        ensures
            r == self.frame_color_index,
    {
        self.frame_color_index
    }

    pub fn frame_style_index(&self) -> (r: usize)
        ensures
            r == self.frame_style_index,
    {
        self.frame_style_index
    }

    pub fn text_speed(&self) -> (r: u8)
        ensures
            r == self.text_speed,
    {
        self.text_speed
    }

    pub fn set_frame_color(&mut self, frame_color_index: usize)
        ensures
            *final(self) == (Options { frame_color_index, ..*old(self) }),
    {
        self.frame_color_index = frame_color_index;
    }

    pub fn set_frame_style(&mut self, frame_style_index: usize)
        ensures
            *final(self) == (Options { frame_style_index, ..*old(self) }),
    {
        self.frame_style_index = frame_style_index;
    }

    pub fn set_text_speed(&mut self, text_speed: u8)
        ensures
            *final(self) == (Options { text_speed, ..*old(self) }),
    {
        self.text_speed = text_speed;
    }
}

/// A key press as the menus see it; every other key is `Other`.
#[derive(Debug, Clone, Copy, PartialEq, Eq, Structural)]
pub enum MenuKey {
    Up,
    Down,
    Left,
    Right,
    Enter,
    /// End, `c` or Escape: leave the menu.
    Back,
    Other,
}

/// What the main menu asks its caller to do after a key press.
#[derive(Debug, Clone, Copy, PartialEq, Eq, Structural)]
pub enum MainMenuAction {
    /// Only the highlighted entry may have changed.
    Stay,
    /// "New Game" was chosen.
    NewGame,
    /// "Continue" was chosen.
    Continue,
    /// "Options" was chosen: run the options menu.
    OpenOptions,
    /// "Save Options" was chosen: write the global options.
    SaveOptions,
    /// The menu was left.
    Quit,
}

/// The main menu's transition: the highlighted entry after `key` and the
/// action it asks for. Up and Down wrap around the four entries.
pub open spec fn main_menu_next(select: usize, key: MenuKey) -> (usize, MainMenuAction) {
    match key {
        MenuKey::Up => (if select > 0 { (select - 1) as usize } else { 3 }, MainMenuAction::Stay),
        MenuKey::Down => (if select < 3 { (select + 1) as usize } else { 0 }, MainMenuAction::Stay),
        MenuKey::Enter => (
            select,
            if select == 0 {
                MainMenuAction::NewGame
            } else if select == 1 {
                MainMenuAction::Continue
            } else if select == 2 {
                MainMenuAction::OpenOptions
            } else {
                MainMenuAction::SaveOptions
            },
        ),
        MenuKey::Back => (select, MainMenuAction::Quit),
        _ => (select, MainMenuAction::Stay),
    }
}

/// One key press in the main menu, whose highlighted entry is `select`.
pub fn main_menu_step(select: usize, key: MenuKey) -> (r: (usize, MainMenuAction))
    requires
        select < MAIN_MENU_ENTRIES,
    ensures
        r == main_menu_next(select, key),
        r.0 < MAIN_MENU_ENTRIES,
{
    match key {
        MenuKey::Up => {
            if select > 0 {
                (select - 1, MainMenuAction::Stay)
            } else {
                (MAIN_MENU_ENTRIES - 1, MainMenuAction::Stay)
            }
        },
        MenuKey::Down => {
            if select < MAIN_MENU_ENTRIES - 1 {
                (select + 1, MainMenuAction::Stay)
            } else {
                (0, MainMenuAction::Stay)
            }
        },
        MenuKey::Enter => {
            let action = if select == 0 {
                MainMenuAction::NewGame
            } else if select == 1 {
                MainMenuAction::Continue
            } else if select == 2 {
                MainMenuAction::OpenOptions
            } else {
                MainMenuAction::SaveOptions
            };
            (select, action)
        },
        MenuKey::Back => (select, MainMenuAction::Quit),
        _ => (select, MainMenuAction::Stay),
    }
}

/// In the main menu, Up undoes Down and Down undoes Up, from every entry.
pub proof fn lemma_main_menu_up_down_inverse(select: usize)
    requires
        select < MAIN_MENU_ENTRIES,
    ensures
        main_menu_next(main_menu_next(select, MenuKey::Down).0, MenuKey::Up).0 == select,
        main_menu_next(main_menu_next(select, MenuKey::Up).0, MenuKey::Down).0 == select,
{
}

/// What the options menu asks its caller to do after a key press.
#[derive(Debug, Clone, Copy, PartialEq, Eq, Structural)]
pub enum OptionsEvent {
    /// Nothing outside the menu changes.
    Nothing,
    /// Left or Right was pressed on the volume entry: the sounds take the
    /// (possibly unchanged) master volume.
    VolumeAdjusted,
    /// The menu was closed, by Enter (keeping the edits) or by Back
    /// (dropping them).
    Closed,
}

/// The state of the options menu while it is open.
#[derive(Debug, Clone, Copy, PartialEq, Eq, Structural)]
pub struct OptionsMenu {
    /// Highlighted entry.
    pub select: usize,
    /// Frame colour being chosen.
    pub color_index: usize,
    /// Frame style being chosen.
    pub border_index: usize,
    /// Options being edited (text speed and volume are edited in place).
    pub options: Options,
    /// Options the menu was opened with.
    pub saved: Options,
    /// Enter closed the menu.
    pub confirmed: bool,
    /// The menu still takes keys.
    pub open: bool,
}

/// The options menu's transition for one key press.
pub open spec fn options_menu_next(m: OptionsMenu, key: MenuKey) -> OptionsMenu {
    match key {
        MenuKey::Up => OptionsMenu {
            select: if m.select > 0 { (m.select - 1) as usize } else { 2 },
            ..m
        },
        MenuKey::Down => OptionsMenu {
            select: if m.select < 3 { (m.select + 1) as usize } else { 0 },
            ..m
        },
        MenuKey::Left => if m.select == 0 {
            OptionsMenu {
                color_index: if m.color_index == 0 { 18 } else { (m.color_index - 1) as usize },
                ..m
            }
        } else if m.select == 1 {
            OptionsMenu {
                border_index: if m.border_index == 0 { 7 } else { (m.border_index - 1) as usize },
                ..m
            }
        } else if m.select == 2 {
            OptionsMenu {
                options: Options {
                    text_speed: if m.options.text_speed > 1 {
                        (m.options.text_speed - 1) as u8
                    } else {
                        m.options.text_speed
                    },
                    ..m.options
                },
                ..m
            }
        } else {
            OptionsMenu {
                options: Options { master_volume: volume_down(m.options.master_volume), ..m.options },
                ..m
            }
        },
        MenuKey::Right => if m.select == 0 {
            OptionsMenu {
                color_index: if m.color_index == 18 { 0 } else { (m.color_index + 1) as usize },
                ..m
            }
        } else if m.select == 1 {
            OptionsMenu {
                border_index: if m.border_index == 7 { 0 } else { (m.border_index + 1) as usize },
                ..m
            }
        } else if m.select == 2 {
            OptionsMenu {
                options: Options {
                    text_speed: if m.options.text_speed < 5 {
                        (m.options.text_speed + 1) as u8
                    } else {
                        m.options.text_speed
                    },
                    ..m.options
                },
                ..m
            }
        } else {
            OptionsMenu {
                options: Options { master_volume: volume_up(m.options.master_volume), ..m.options },
                ..m
            }
        },
        MenuKey::Enter => OptionsMenu { confirmed: true, open: false, ..m },
        MenuKey::Back => OptionsMenu { options: m.saved, open: false, ..m },
        MenuKey::Other => m,
    }
}

/// Volume after one step down: 5 percent less, but not below 0.
pub open spec fn volume_down(v: u8) -> u8 {
    if v > 0 {
        if v > 5 { (v - 5) as u8 } else { 0 }
    } else {
        v
    }
}

/// Volume after one step up: 5 percent more, but not above 100.
pub open spec fn volume_up(v: u8) -> u8 {
    if v < 100 {
        if 100 - v < 5 { 100 } else { (v + 5) as u8 }
    } else {
        v
    }
}

/// The options a menu in state `m` hands back: the edits if Enter closed it,
/// otherwise the options being edited (the saved ones after Back).
pub open spec fn options_menu_outcome(m: OptionsMenu) -> Options {
    if m.confirmed {
        Options {
            frame_color_index: m.color_index,
            frame_style_index: m.border_index,
            text_speed: m.options.text_speed,
            master_volume: m.options.master_volume,
        }
    } else {
        m.options
    }
}

impl OptionsMenu {
    /// Every index the menu holds points at an existing entry, colour or
    /// style.
    pub open spec fn wf(&self) -> bool {
        &&& self.select < OPTIONS_MENU_ENTRIES
        &&& self.color_index < BORDER_COLOR_COUNT
        &&& self.border_index < BORDER_STYLE_COUNT
    }

    /// Opens the menu on `options`, with the first entry highlighted.
    pub fn new(options: Options) -> (m: OptionsMenu)
        requires
            options.frame_color_index < BORDER_COLOR_COUNT,
            options.frame_style_index < BORDER_STYLE_COUNT,
        ensures
            m.wf(),
            m == (OptionsMenu {
                select: 0,
                color_index: options.frame_color_index,
                border_index: options.frame_style_index,
                options,
                saved: options,
                confirmed: false,
                open: true,
            }),
    {
        OptionsMenu {
            select: 0,
            color_index: options.frame_color_index,
            border_index: options.frame_style_index,
            options,
            saved: options,
            confirmed: false,
            open: true,
        }
    }

    /// One key press.
    pub fn step(&mut self, key: MenuKey) -> (e: OptionsEvent)
        requires
            old(self).wf(),
        ensures
            final(self).wf(),
            *final(self) == options_menu_next(*old(self), key),
            e == (if key == MenuKey::Enter || key == MenuKey::Back {
                OptionsEvent::Closed
            } else if (key == MenuKey::Left || key == MenuKey::Right) && old(self).select == 3 {
                OptionsEvent::VolumeAdjusted
            } else {
                OptionsEvent::Nothing
            }),
    {
        match key {
            MenuKey::Up => {
                if self.select > 0 {
                    self.select = self.select - 1;
                } else {
                    self.select = 2;
                }
                OptionsEvent::Nothing
            },
            MenuKey::Down => {
                if self.select < OPTIONS_MENU_ENTRIES - 1 {
                    self.select = self.select + 1;
                } else {
                    self.select = 0;
                }
                OptionsEvent::Nothing
            },
            MenuKey::Left => {
                if self.select == 0 {
                    if self.color_index == 0 {
                        self.color_index = BORDER_COLOR_COUNT - 1;
                    } else {
                        self.color_index = self.color_index - 1;
                    }
                    OptionsEvent::Nothing
                } else if self.select == 1 {
                    if self.border_index == 0 {
                        self.border_index = BORDER_STYLE_COUNT - 1;
                    } else {
                        self.border_index = self.border_index - 1;
                    }
                    OptionsEvent::Nothing
                } else if self.select == 2 {
                    if self.options.text_speed > 1 {
                        self.options.text_speed = self.options.text_speed - 1;
                    }
                    OptionsEvent::Nothing
                } else {
                    if self.options.master_volume > 0 {
                        self.options.master_volume = if self.options.master_volume > 5 {
                            self.options.master_volume - 5
                        } else {
                            0
                        };
                    }
                    OptionsEvent::VolumeAdjusted
                }
            },
            MenuKey::Right => {
                if self.select == 0 {
                    if self.color_index == BORDER_COLOR_COUNT - 1 {
                        self.color_index = 0;
                    } else {
                        self.color_index = self.color_index + 1;
                    }
                    OptionsEvent::Nothing
                } else if self.select == 1 {
                    if self.border_index == BORDER_STYLE_COUNT - 1 {
                        self.border_index = 0;
                    } else {
                        self.border_index = self.border_index + 1;
                    }
                    OptionsEvent::Nothing
                } else if self.select == 2 {
                    if self.options.text_speed < MAX_TEXT_SPEED {
                        self.options.text_speed = self.options.text_speed + 1;
                    }
                    OptionsEvent::Nothing
                } else {
                    if self.options.master_volume < 100 {
                        self.options.master_volume = if 100 - self.options.master_volume < 5 {
                            100
                        } else {
                            self.options.master_volume + 5
                        };
                    }
                    OptionsEvent::VolumeAdjusted
                }
            },
            MenuKey::Enter => {
                self.confirmed = true;
                self.open = false;
                OptionsEvent::Closed
            },
            MenuKey::Back => {
                self.options = self.saved;
                self.open = false;
                OptionsEvent::Closed
            },
            MenuKey::Other => OptionsEvent::Nothing,
        }
    }

    /// The options the menu hands back once closed.
    pub fn outcome(&self) -> (o: Options)
        ensures
            o == options_menu_outcome(*self),
    {
        if self.confirmed {
            Options {
                frame_color_index: self.color_index,
                frame_style_index: self.border_index,
                text_speed: self.options.text_speed,
                master_volume: self.options.master_volume,
            }
        } else {
            self.options
        }
    }
}

/// Leaving the options menu with Back hands back exactly the options it was
/// opened with, whatever was edited before.
pub proof fn lemma_options_back_restores(m: OptionsMenu)
    requires
        !m.confirmed,
    ensures
        options_menu_outcome(options_menu_next(m, MenuKey::Back)) == m.saved,
        !options_menu_next(m, MenuKey::Back).open,
{
}

/// Confirming the options menu hands back the colour, style, speed and volume
/// chosen in it.
pub proof fn lemma_options_enter_keeps_edits(m: OptionsMenu)
    ensures
        options_menu_outcome(options_menu_next(m, MenuKey::Enter)) == (Options {
            frame_color_index: m.color_index,
            frame_style_index: m.border_index,
            text_speed: m.options.text_speed,
            master_volume: m.options.master_volume,
        }),
{
}

/// On the colour and style entries, Left and Right undo each other; on the
/// text speed entry they do so for speeds in 2..=5, and on the volume entry
/// Right then Left does so for volumes up to 95 percent.
pub proof fn lemma_options_left_right_inverse(m: OptionsMenu)
    requires
        m.wf(),
    ensures
        m.select <= 1 ==> options_menu_next(options_menu_next(m, MenuKey::Left), MenuKey::Right)
            == m,
        m.select <= 1 ==> options_menu_next(options_menu_next(m, MenuKey::Right), MenuKey::Left)
            == m,
        m.select == 2 && 1 < m.options.text_speed <= 5 ==> options_menu_next(
            options_menu_next(m, MenuKey::Left),
            MenuKey::Right,
        ) == m,
        m.select == 3 && m.options.master_volume <= 95 ==> options_menu_next(
            options_menu_next(m, MenuKey::Right),
            MenuKey::Left,
        ) == m,
{
}

/// On the text speed entry, Left lowers every speed above 1 by one and
/// leaves speed 1 (or 0) as it is; Right raises every speed below 5 by one
/// and leaves higher speeds as they are. Nothing else changes.
pub proof fn lemma_options_text_speed_steps(m: OptionsMenu)
    requires
        m.select == 2,
    ensures
        m.options.text_speed > 1 ==> options_menu_next(m, MenuKey::Left).options.text_speed
            == m.options.text_speed - 1,
        m.options.text_speed <= 1 ==> options_menu_next(m, MenuKey::Left).options.text_speed
            == m.options.text_speed,
        m.options.text_speed < 5 ==> options_menu_next(m, MenuKey::Right).options.text_speed
            == m.options.text_speed + 1,
        m.options.text_speed >= 5 ==> options_menu_next(m, MenuKey::Right).options.text_speed
            == m.options.text_speed,
        options_menu_next(m, MenuKey::Left) == (OptionsMenu {
            options: Options {
                text_speed: options_menu_next(m, MenuKey::Left).options.text_speed,
                ..m.options
            },
            ..m
        }),
        options_menu_next(m, MenuKey::Right) == (OptionsMenu {
            options: Options {
                text_speed: options_menu_next(m, MenuKey::Right).options.text_speed,
                ..m.options
            },
            ..m
        }),
{
}

/// On the volume entry, Left lowers the volume by 5 percent, to no less
/// than 0, and Right raises it by 5 percent, to no more than 100 (a volume
/// above 100 stays as it is).
pub proof fn lemma_options_volume_steps(m: OptionsMenu)
    requires
        m.select == 3,
    ensures
        options_menu_next(m, MenuKey::Left).options.master_volume == (if m.options.master_volume
            >= 5 {
            m.options.master_volume - 5
        } else {
            0
        }),
        m.options.master_volume <= 100 ==> options_menu_next(m, MenuKey::Right).options.master_volume
            == (if m.options.master_volume <= 95 {
            m.options.master_volume + 5
        } else {
            100
        }),
{
}

/// Up undoes Down on the options menu's first three entries (from the last
/// entry Down wraps to the first, and Up from the first goes to the third).
pub proof fn lemma_options_up_down_inverse(m: OptionsMenu)
    requires
        m.wf(),
        m.select < 3,
    ensures
        options_menu_next(options_menu_next(m, MenuKey::Down), MenuKey::Up) == m,
{
}

/// Text speed and volume never leave their ranges while the menu is used:
/// a speed in 1..=5 stays there, and a volume of at most 100 stays so.
pub proof fn lemma_options_ranges_kept(m: OptionsMenu, key: MenuKey)
    ensures
        1 <= m.options.text_speed <= 5 && 1 <= m.saved.text_speed <= 5 ==> 1
            <= options_menu_next(m, key).options.text_speed <= 5,
        m.options.master_volume <= 100 && m.saved.master_volume <= 100
            ==> options_menu_next(m, key).options.master_volume <= 100,
{
}

} // verus!
