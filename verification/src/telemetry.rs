//! What the core asks of the logging collaborator: which formatter to
//! install. Building and installing the subscriber is the collaborator's
//! work.
use vstd::prelude::*;

verus! {

/// The formatter the tracing collaborator installs at process start.
#[derive(Clone, Copy, Debug, PartialEq, Eq, Structural)]
pub enum Formatter {
    Bunyan,
    Log,
    Otel,
}

} // verus!
