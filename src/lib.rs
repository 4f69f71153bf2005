pub mod consts;
pub mod cpu;
pub mod delay_timer;
pub mod display;
pub mod errors;
pub mod instruction;
pub mod memory;
pub mod sound_timer;
pub mod stack;
pub mod types;
