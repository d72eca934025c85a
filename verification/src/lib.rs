//! Game logic of a small terminal monster-battling game: the battle type
//! chart, natures and stat generation, moves and their effects, the player's
//! movement and party, the option menus, the save format of the global
//! options, and the layout of scrolling dialog text.

pub mod types;
pub mod natures;
pub mod menu;
pub mod saves;
pub mod interface;
pub mod moves;
pub mod monster;
pub mod player;
pub mod tile_to_ascii;
pub mod playback;
