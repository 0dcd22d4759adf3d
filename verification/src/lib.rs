//! Verified core of an image-forgery analysis worker.
//!
//! The worker pulls jobs (base64-encoded images) from a queue, runs a
//! forgery detector over each image, draws the reported regions onto the
//! image, classifies the outcome, and builds the result payload that is
//! posted back.  Everything that decides or computes lives here; the
//! surrounding process (HTTP transport, environment, logging) stays outside.

pub mod annotate;
pub mod codec;
pub mod detector;
pub mod json;
pub mod model;
pub mod numfmt;
pub mod pixbuf;
pub mod region;
pub mod summary;
pub mod worker;
