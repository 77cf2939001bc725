//! An observer abstraction: a lifecycle contract for consumers of updates
//! (start, batched updates, commit, completion, error) together with a
//! shared adapter that lets one observer be driven from many handles under
//! mutual exclusion.

pub mod observer;
pub mod recording;
pub mod shared;
pub mod updates;

pub use observer::Observer;
pub use recording::Event;
pub use recording::RecordingObserver;
pub use shared::SharedObserver;
pub use updates::UpdateStream;
