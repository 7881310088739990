//! A singly linked, recursively owned list of integers, with a verified
//! builder, a verified renderer, and a verified concurrent map operation
//! that runs one unit of work per node.

pub mod list;
pub mod mapper;
pub mod render;

pub use list::{construct_list, LinkedList, Node};
pub use mapper::{map_concurrent, MapError};
pub use render::{print_list, value_string};
