//! Helpers

pub use crate::flags::ColorMask;
pub use crate::mojo::no_change_effect;
pub use crate::params::{default_params_from_window_handle, params_from_window_handle};
