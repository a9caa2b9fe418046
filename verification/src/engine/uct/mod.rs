//! Tree search with upper confidence bounds.

pub mod node;
pub mod search;

pub use self::node::Node;
pub use self::search::{Search, Step};
