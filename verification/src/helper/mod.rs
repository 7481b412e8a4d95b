pub mod cycle;
pub mod decimal_ext;
pub mod number;

pub use number::{Sign, Signum};
pub use decimal_ext::DecimalExt;
