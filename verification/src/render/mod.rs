pub mod dirty_flags;

pub use dirty_flags::{DirtyFlags, RenderState, RenderStateView};
