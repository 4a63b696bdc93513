pub mod effects;

pub use effects::RgbState;
