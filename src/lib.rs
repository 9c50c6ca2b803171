//! Line search over text: the lines of a text that contain a query, exactly
//! or with case folded, each handed out as a view into the text. Beside it
//! stand a few small verified utilities.

pub mod arith;
pub mod art;
pub mod config;
pub mod inventory;
pub mod largest;
pub mod rectangle;
pub mod remote;
pub mod search;
pub mod summary;
pub mod text;

pub use config::Config;
pub use search::{contains_query, search, search_case_insensitive};
pub use text::split_lines;
