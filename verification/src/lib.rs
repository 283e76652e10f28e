//! A lazily-evaluated, recursive directory traversal, organised as a
//! verified pull-based state machine.
//!
//! The traversal core ([`machine::Machine`]) is a pure step function: it
//! decides, from its current state and the outcome of one filesystem
//! operation, what to do next and which item (entry or error) to hand to
//! the consumer.  The blocking-capable filesystem calls themselves (open
//! a directory listing, read one raw entry, probe a file type) are
//! performed by the unverified driver that owns the machine and its open
//! directory handles.

pub mod error;
pub mod machine;

pub use error::Error;
pub use error::InnerError;
pub use machine::Action;
pub use machine::Machine;
pub use machine::Step;
pub use machine::WalkState;
