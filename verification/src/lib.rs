pub mod chance;
pub mod clock;
pub mod config;
pub mod daemon;
pub mod doctor;
pub mod paths;
pub mod pet;
pub mod render;
pub mod shell;
pub mod text;
