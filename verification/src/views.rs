//! The pages of the main window.

pub mod home;
pub mod settings;
