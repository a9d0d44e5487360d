//! Football fixtures, live scores and standings: the requests to make, the
//! envelopes that come back, and the rows to show for them.

pub mod clock;
pub mod color;
pub mod command;
pub mod decode;
pub mod editor;
pub mod fetch;
pub mod json;
pub mod model;
pub mod normalize;
pub mod render;
pub mod report;
pub mod roster;
pub mod text;
pub mod urls;

pub use command::{Command, CommandType, Settings};
pub use report::run;
