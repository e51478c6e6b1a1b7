pub mod install;
pub mod ipc;
pub mod persist;
