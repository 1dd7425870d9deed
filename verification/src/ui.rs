//! What the interface of the game needs from the library: the entries of the
//! main menu and the guides of the tutorial.

pub mod console_ui;
pub mod tutorial;

pub use console_ui::MainMenuOption;
pub use tutorial::TutorialManager;
