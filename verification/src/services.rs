//! The request pipelines: what a file or image request does, step by step,
//! given what the store, the origin and the image codecs report back.
pub mod file;
pub mod image;
