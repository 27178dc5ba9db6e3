pub mod base;
pub mod control_flow;
pub mod debug;
pub mod instructions;
