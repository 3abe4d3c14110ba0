//! A blog's upload engine: the large-object upload protocol against an
//! object store, the renewable authorization session it runs under, and the
//! image normalization that feeds it, with the record types of the blog.

pub mod digest;
pub mod image_pipeline;
pub mod large_upload;
pub mod models;
pub mod paths;
pub mod session;
pub mod slug;
pub mod text;
