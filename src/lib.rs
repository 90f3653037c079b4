//! Synchronises a video platform's subscription list into a feed reader:
//! paginated retrieval state, OPML encoding, and the import client's
//! request framing and response classification.

pub mod config;
pub mod text;
pub mod youtube;
pub mod opml;
pub mod ttrss;
