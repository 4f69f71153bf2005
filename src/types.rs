pub mod byte;
pub mod double;

pub use byte::Byte;
pub use double::Double;
