//! Window-lifecycle planning for a desktop virtual-pet application.
//!
//! The application shows two windows, a fullscreen transparent "main" window
//! with the pet and a "setting" window, both configured from a handful of
//! user settings. This crate decides, from those settings, exactly how each
//! window must be opened or handled; the surrounding application performs the
//! host-framework calls that the plans describe.

pub mod settings;
pub mod windows;
