//! Thumbnail cache logic: the quality ladder, cache keys, identifier
//! validation, the cache-aside resolver and the bulk migration batch.

pub mod batch;
pub mod key;
pub mod log;
pub mod migrate;
pub mod quality;
pub mod resolution;
pub mod resolver;
pub mod response;
pub mod text;
pub mod upstream;
pub mod video_id;
