//! A transfer monitor: a copier that moves a byte stream verbatim from a source
//! to a sink in bounded chunks, a counter of bytes moved that two threads of
//! control share, and a sampler that periodically drains that counter to
//! report a rate and a running total.
pub mod copier;
pub mod counter;
pub mod errors;
pub mod render;
pub mod sampler;

pub use copier::{copy_buffer, next_chunk, CopyPhase, CopyReport, CopyStep, Copier, BUF_CAP};
pub use counter::{ByteCounter, CounterOp, SharedCounter};
pub use errors::Error;
pub use sampler::{decide, DisplayOptions, SampleDecision, Sampler, BAR_WIDTH, BYTES_PER_MB, POLL_MILLIS, SAMPLE_INTERVAL_SECS};
