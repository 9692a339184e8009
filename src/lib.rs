//! Serves the files of a static site bundled as a gzip-compressed tar archive.
pub mod archive;
pub mod laws;
pub mod response;
pub mod route;
