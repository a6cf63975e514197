//! The core of the SW3DO browser: content filtering and site shields, with
//! the plain data that the rest of the browser exchanges with it.

pub mod clock;
pub mod downloads;
pub mod encoding;
pub mod filters;
pub mod history;
pub mod navigation;
pub mod pages;
pub mod plugins;
pub mod privacy;
pub mod session;
pub mod settings;
pub mod tabs;
pub mod tally;
pub mod text;
