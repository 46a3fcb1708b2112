//! A file and image cache server's verified core: how request paths and
//! URLs are read, where cached objects live, which upstream addresses may be
//! fetched, how the configuration is parsed, and the request pipelines that
//! decide between serving, fetching, converting and failing.
pub mod text;
pub mod utils;
pub mod storage;
pub mod env;
pub mod services;
