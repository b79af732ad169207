//! Coordination logic for spotlight-style windows: windows that stay hidden
//! until a global shortcut summons them, hide again when they lose focus, and
//! share one global shortcut that dismisses all of them.
//!
//! The library decides; a host carries out. Every operation is a small state
//! machine that hands out one [`Request`] at a time and is resumed with the
//! host's [`Reply`].

pub mod config;
pub mod desktop;
pub mod error;
pub mod host;
pub mod laws;
pub mod manager;
pub mod procedure;

pub use config::{PluginConfig, WindowConfig};
pub use error::Error;
pub use host::{Reply, Request, WindowEvent};
pub use manager::{InitPending, SpotlightManager};
pub use procedure::{After, Pending, Step};
