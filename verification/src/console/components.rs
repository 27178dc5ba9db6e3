pub mod bus;
pub mod cpu;
pub mod input_controller;
pub mod ram;
pub mod rom;
