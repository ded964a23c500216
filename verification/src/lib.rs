//! A verified "system fetch" library: pure resolvers that turn raw system
//! facts (environment values, pseudo-file contents, a system snapshot) into
//! the fields of a terminal information banner, and a renderer that lays the
//! fields out as one colorized text block.

pub mod info;
pub mod numfmt;
pub mod render;
pub mod text;

pub use crate::info::decompose_uptime;
pub use crate::render::Decor;
pub use crate::info::EnvInput;
pub use crate::info::Info;
pub use crate::info::InfoError;
pub use crate::info::Snapshot;
