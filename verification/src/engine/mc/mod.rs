//! Search by playouts alone.

pub mod amaf;

pub use self::amaf::AmafMcEngine;
