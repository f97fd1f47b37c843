//! A fixed-size worker pool executing queued units of work, built on a
//! shared FIFO job channel, together with the channel-topology patterns
//! (fan-in, fan-out, pipeline, timeout polling) that compose on top of the
//! same channel primitive.

pub mod channel;
pub mod errors;
pub mod pipeline;
pub mod poll;
pub mod pool;
pub mod topology;
pub mod transport;
pub mod util;
