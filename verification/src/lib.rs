//! Resolution of the image address of a daily comic strip for a calendar
//! date, by probing several independent sources until one of them answers.
//!
//! The library holds the rules: how each source's request is built from the
//! date, how an image reference is picked out of a fetched document, and in
//! which order sources are tried and their failures recorded. The network
//! fetch itself is left to the caller, which feeds each reply back into the
//! [`engine::Resolution`] it is driving.

pub mod date;
pub mod source;
pub mod extract;
pub mod engine;
pub mod command;

pub use date::CalendarDate;
pub use source::Source;
pub use extract::{Candidate, ExtractError, Reply};
pub use command::{parse_date, DateError, Garfield, Help, Pinger, Request};
pub use engine::{get_comic, Action, Resolution, ResolveError, SourceFailure};
