pub mod styles;
pub mod text;
