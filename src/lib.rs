//! A two-player pong game: a scene state machine (main menu, court, end of
//! game) and the integer physics of the court, with their contracts.
pub mod court;
pub mod driver;
pub mod end_game;
pub mod geometry;
pub mod main_menu;
pub mod scene;
pub mod timer;

pub use court::{Court, Play, Player};
pub use driver::{App, KeyEvent};
pub use end_game::EndGame;
pub use geometry::{Rectangle, Text, TextSize};
pub use main_menu::MainMenu;
pub use scene::{Draw, Scene};
pub use timer::Timer;
