pub mod gadget;
pub mod loading;
pub mod log_panel;

pub use gadget::{Carousel, Select};
pub use loading::{Loading, LoadingWidget};
pub use log_panel::LogPanel;
