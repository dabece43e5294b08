//! Recompression of byte streams.
//!
//! The library sniffs the compression format of a stream from a small
//! magic-byte prefix, rebuilds the stream by replaying the consumed prefix
//! ahead of the remaining input, and decides how the stream is to be carried
//! into a requested target format: a verbatim copy when the detected and the
//! target format agree, otherwise a decode step for the detected format
//! followed by an encode step for the target. The byte-level codecs
//! themselves are external; this crate owns the detection table, the replay
//! bookkeeping, and the routing and staging decisions, each with a proved
//! contract.

mod detect;
mod kind;
mod pipeline;
mod replay;

pub use detect::detect_compression_type;
pub use detect::detect_prefix;
pub use detect::detected_kind;
pub use detect::lemma_detection_correctness;
pub use detect::lemma_short_window_none;
pub use detect::lemma_window_determines_detection;
pub use detect::matches_bzip;
pub use detect::matches_deflate;
pub use detect::matches_gzip;
pub use detect::matches_xz;
pub use detect::matches_zlib;
pub use detect::matches_zstd;
pub use detect::window_of;
pub use detect::DETECTION_WINDOW;
pub use kind::CompressionType;
pub use pipeline::lemma_identity_fast_path;
pub use pipeline::lemma_route_deterministic;
pub use pipeline::lemma_successful_run;
pub use pipeline::lemma_terminal_states;
pub use pipeline::plan_transcode;
pub use pipeline::route_matches;
pub use pipeline::route_recompress;
pub use pipeline::spec_step;
pub use pipeline::step;
pub use pipeline::PipelineEvent;
pub use pipeline::PipelineState;
pub use pipeline::Route;
pub use pipeline::TranscodePlan;
pub use replay::ReplayBuffer;
