//! Transport selection for a DNS client: try a fast, datagram-style primary
//! transport first, and fall back to a stream-style secondary transport
//! exactly when the primary's answer came back truncated.
//!
//! The wire codec and the sockets themselves are external collaborators; this
//! crate owns the fallback policy and proves it: at most two attempts per
//! `send`, the second attempt if and only if the first succeeded truncated,
//! and every outcome passed through unmodified.

pub mod auto;
pub mod message;

pub use auto::AutoTransport;
pub use auto::SendStep;
pub use message::Error;
pub use message::Flags;
pub use message::Query;
pub use message::Request;
pub use message::Response;
