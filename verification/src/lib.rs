//! Verified core of a chain-of-responsibility dispatcher: handlers are chained
//! into a sequence of steps, and a dispatch walks the steps over a dependency
//! container, deciding after each user function whether to go on, to fall
//! through (`ControlFlow::Continue`) or to stop with an output
//! (`ControlFlow::Break`).
pub mod dependency_map;
pub mod description;
pub mod dispatch;
pub mod fallible;
pub mod handler;
pub mod laws;
pub mod methods;
pub mod try_filter;
pub mod try_map;

pub use dependency_map::DependencyMap;
pub use description::{HandlerDescription, Unspecified};
pub use dispatch::{Dispatch, Reply, Resume};
pub use fallible::Fallible;
pub use handler::{Handler, entry};
pub use try_filter::{
    try_filter, try_filter_async, try_filter_async_with_description, try_filter_with_description,
};
pub use try_map::{try_map, try_map_async, try_map_async_with_description, try_map_with_description};
