//! A verified core for a sports-lookup chat bot: fuzzy name resolution by
//! Levenshtein distance, a time-bounded single-flight roster cache, batched
//! roster requests with re-association by id, and rich-message rendering
//! with spoiler-wrapped forbidden knowledge.

pub mod cache;
pub mod distance;
pub mod model;
pub mod render;
pub mod resolve;
pub mod roster;
pub mod stars;
pub mod text;
