//! Verified core of a plugin toolkit for the Bilibili live-comment client
//! (B站弹幕姬): event models, the plain-value view of the C bridge, SDK
//! version handling, the single-file plugin container, and the decisions
//! of the `cargo danmuji` tool.

pub mod text;
pub mod version;
pub mod hashing;
pub mod bridge;
pub mod overlay;
pub mod model;
pub mod ffi;
pub mod paths;
pub mod host;
pub mod plugin;
pub mod project;
pub mod sample;
pub mod example;
