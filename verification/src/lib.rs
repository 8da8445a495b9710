//! A runtime-support layer reproducing the sequential-file model of a legacy
//! record-oriented language: buffered text/typed-file access with a single
//! one-element lookahead register, on top of in-memory byte streams.
//!
//! The core is the file-state machine and its two lazy buffering engines
//! (line-oriented and block-oriented), together with the primitive operations
//! (open, peek, advance, write, flush, close) that manipulate the lookahead.

pub mod block;
pub mod capability;
pub mod laws;
pub mod line;
pub mod ops;
pub mod source;
pub mod state;
pub mod units;

pub use source::ByteSink;
pub use source::ByteSource;
pub use source::LineSource;
