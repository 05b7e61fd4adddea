//! Installs and maintains git hook scripts for a cargo project.
pub mod classify;
pub mod hook;
pub mod install;
pub mod laws;
pub mod paths;
pub mod script;
pub mod text;
pub mod user_hooks;
pub mod version;
