//! The decision logic of a media shim over the libav libraries: which encoder
//! to use, how filter graphs are described, in which order packets and frames
//! move through decoders, graphs, encoders and muxers, and what each entry
//! point reports. The libav calls themselves are made by the caller, which
//! performs the task that a state machine of this crate names and answers it.
pub mod audio;
pub mod audio_laws;
pub mod concat;
pub mod concat_laws;
pub mod encoder;
pub mod entry_laws;
pub mod graph;
pub mod media;
pub mod mux;
pub mod mux_laws;
pub mod probe;
pub mod reader;
pub mod reader_flow;
pub mod reader_laws;
pub mod session;
pub mod text;
pub mod text_laws;
pub mod transcode;
pub mod transcode_flow;
pub mod transcode_laws;
pub mod transcode_steps;
pub mod writer;
pub mod writer_laws;
