//! Ingestion front end of a live-media server: the per-session event handler,
//! the decoding of media payloads into tags, and the decisions of the
//! connection supervisor, each with a verified contract.

pub mod amf;
pub mod audio;
pub mod avc;
pub mod golomb;
pub mod handler;
pub mod media;
pub mod octets;
pub mod session;
pub mod supervisor;
pub mod video;
