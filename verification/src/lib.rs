//! A frame-ingestion pipeline: demultiplexed video packets run through a
//! keyframe-synchronization gate, an optional packet-transform chain and a
//! bounded handoff queue with two backpressure policies, and come out as
//! timestamped frame envelopes.
//!
//! The crate verifies the pipeline's decision logic: codec classification,
//! the keyframe gate, envelope construction, the enqueue policy with its
//! skip counter, and the session lifecycle (stop, receive, log-level
//! mailbox). The native demuxer, decoder and bitstream filters, and the
//! thread/channel plumbing around the session, are collaborators outside
//! this crate; they hand the pipeline plain values.

pub mod bsf;
pub mod codec;
pub mod envelope;
pub mod errors;
pub mod laws;
pub mod packet;
pub mod queue;
pub mod source;
