//! The causality trace that every command carries from the call that built it.

use vstd::prelude::*;

verus! {

/// A captured call stack. Its contents are never read by the library: a trace
/// is only carried from the drawing call to whoever reports a fault.
#[verifier::external_type_specification]
#[verifier::external_body]
pub struct ExBacktrace(backtrace::Backtrace);

/// Captures the calling context with `backtrace::Backtrace::new`. What a
/// trace holds depends on the running process, so nothing is claimed of it.
#[verifier::external_body]
pub(crate) fn capture() -> (trace: backtrace::Backtrace) {
    backtrace::Backtrace::new()
}

} // verus!
