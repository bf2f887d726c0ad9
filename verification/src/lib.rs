//! A small installer for Java programs: it works out where the program goes,
//! writes the runner, uninstaller and desktop-link files, checks the Java
//! runtime that is present and steps through the installation, one decision
//! at a time, while the caller performs the input and output.

pub mod text;
pub mod platform;
pub mod java;
pub mod paths;
pub mod scripts;
pub mod utils;
pub mod path_var;
pub mod admin;
pub mod terminal;
pub mod installer;
