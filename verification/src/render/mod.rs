pub mod card;
pub mod names;
pub mod prompt;
pub mod sprites;
pub mod watch;
