//! The quota segment of a statusline: what was spent today and what is left
//! on the account, as two short strings with a few notes.
//!
//! The crate decides and formats; it reads no file and opens no connection.
//! Its caller reads the places a key may come from, sends the requests that
//! the crate describes, and hands back what came of them.
//!
//! - [`credentials`]: which of the places a key was found in gives the key.
//! - [`endpoints`]: the endpoints, the requests, and what counts as an answer.
//! - [`detector`]: one collection, step by step.
//! - [`segment`]: the segment and what it shows.
//! - [`amount`], [`numerals`]: money and how it is written.
//! - [`metadata`]: the notes that go with the two strings.
//! - [`json`], [`text`]: what is relied on of the JSON reader and of trimming.

pub mod amount;
pub mod credentials;
pub mod detector;
pub mod endpoints;
pub mod json;
pub mod metadata;
pub mod numerals;
pub mod segment;
pub mod text;
