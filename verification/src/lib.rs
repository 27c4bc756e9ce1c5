//! Scene logic for the Mahjuro game UI: page navigation, menu focus,
//! overlay state machines and the guide's tile-example data, verified.

pub mod input;
pub mod text;
pub mod tiles;
pub mod hand;
pub mod yaku;
pub mod kokushi;
pub mod guide;
pub mod journal;
pub mod journal_transition;
pub mod meld_guide;
pub mod main_menu;
pub mod main_menu_exterior;
pub mod options;
pub mod pause_menu;
pub mod hallway;
pub mod pick_blind;
pub mod profile_select;
pub mod results;
pub mod material_viewer;
pub mod inspect;
pub mod scene_keys;
