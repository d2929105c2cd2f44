//! Conversion jobs for a personal media server: a durable queue of requests to
//! transform media files, with deduplication, FIFO scheduling, a dispatcher that
//! drives an external tool and a tagging service, and idempotent tag records.
pub mod ai;
pub mod args;
pub mod clip;
pub mod conversion;
pub mod dispatch;
pub mod file;
pub mod forms;
pub mod intake;
pub mod media;
pub mod store;
pub mod tag;
pub mod thumb;
pub mod path;
pub mod point;
pub mod queue;
pub mod text;
