//! HTTP message abstraction layer: streaming message bodies, decomposition of
//! a message into its metadata parts and its body, and a lazy parse cache for
//! derived views of message metadata.

pub mod body;
pub mod chunk;
pub mod headers;
pub mod message;
pub mod parse;

pub use body::{drain, Body, BodyError, FixedBody, StreamBody};
pub use headers::BorrowHeaderMap;
pub use message::{FromParts, IntoParts, Message};
pub use parse::Parse;
