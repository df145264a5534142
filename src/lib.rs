//! Streams a growing build log to a build-reporting endpoint: cursor-tracked
//! tailing, packing of lines into byte-bounded chunks, report payloads, the
//! retry policy of delivery, and the decisions of the streaming loop.

pub mod chunks;
pub mod control;
pub mod retry;
pub mod session;
pub mod status;
pub mod tail;
pub mod text;
