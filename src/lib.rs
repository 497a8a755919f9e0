pub mod color;
pub mod font;
pub mod keyboard;
pub mod output;
pub mod term;
pub mod texture;
