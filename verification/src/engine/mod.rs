//! The search: move statistics, the tree, and the controller.

pub mod controller;
pub mod mc;
pub mod move_stats;
pub mod uct;

pub use self::controller::{Controller, ControllerAction, ControllerCommand};
pub use self::mc::AmafMcEngine;
pub use self::move_stats::{MoveStat, MoveStats};
