//! A monotonic-time primitive library: an opaque, 8-byte timestamp type with
//! overflow-safe arithmetic, and a deterministic mock clock that lets test
//! code control the passage of time through explicit, injectable context
//! objects instead of ambient global state.

pub mod duration;
pub mod instant;
pub mod mock;

pub use instant::Instant;
pub use instant::WireTimestamp;
pub use mock::ClockSource;
pub use mock::IntoNanoseconds;
pub use mock::Mock;
pub use mock::MockSlot;
pub use mock::RecentCache;
