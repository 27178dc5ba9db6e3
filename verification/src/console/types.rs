pub mod address;
pub mod byte;
pub mod word;
