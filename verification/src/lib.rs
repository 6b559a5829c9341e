//! Search of a video site without its authenticated interface: the data
//! blob that a result page embeds inline is located, decoded and projected
//! into an ordered list of video records, each field of which may be absent.
//!
//! The way from a page to its records is `locate`, `document`, `project`,
//! put together in `search`; `laws` states what holds of it as a whole.
//! Beside it stand the pure parts of the site's official search interface
//! (`youtube`), of a text-generating service (`ai`, `gemini`), and of the
//! texts in which results are shown (`present`). Fetching pages and talking
//! to services is left to the caller. The calls into other crates are
//! gathered in `outside`.

pub mod ai;
pub mod document;
pub mod error;
pub mod gemini;
pub mod json;
pub mod laws;
pub mod locate;
pub mod outside;
pub mod present;
pub mod project;
pub mod query;
pub mod search;
pub mod text;
pub mod video;
pub mod youtube;
