//! An image transformation service library: ingestion of an uploaded file,
//! decoding, one transform (inspect, resize, rotate), re-encoding, and the
//! mapping of every failure to a status code and a message.
pub mod error;
pub mod models;
pub mod options;
pub mod upload;
pub mod codec;
pub mod geometry;
pub mod raster;
pub mod pipeline;
pub mod response;
