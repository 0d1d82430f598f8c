//! Relevance scoring of a web page by a token-streamed oracle: the early
//! score taken from the fragment stream, the full result assembled when the
//! stream closes, and the cache that later lookups read.

pub mod cache;
pub mod evaluation;
pub mod evaluator;
pub mod fragment;
pub mod oracle;
pub mod response;
