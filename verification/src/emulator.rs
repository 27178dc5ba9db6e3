pub mod command;
pub mod event;
pub mod state;
pub mod thread;
