pub mod config;
pub mod hotkey;
pub mod ocr;
pub mod screenshot;
pub mod text;
