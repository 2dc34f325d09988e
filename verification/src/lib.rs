//! A verified file-transfer engine: a streaming content-digest accumulator,
//! a chunked copy loop with progress reporting and cooperative cancellation,
//! and a read-back verification phase.

pub mod cancel;
pub mod digest;
pub mod hex;
pub mod transfer;
