use vstd::prelude::*;

verus! {

/// Whether the stack-trace provider produced a usable capture.
#[derive(Clone, Copy, Debug, PartialEq, Eq, Structural)]
pub enum TraceStatus {
    Captured,
    Unavailable,
}

/// A stack trace as handed over by the capture provider: its capture status
/// and its rendered text.  Captured exactly once, at context construction;
/// never re-captured.
#[derive(Debug)]
pub struct StackTrace {
    pub status: TraceStatus,
    pub text: String,
}

/// Relies on std::backtrace::Backtrace::capture, Backtrace::status and the
/// Display impl of Backtrace: records the call stack at this moment.  Status
/// and text depend on the process environment, so nothing is promised of the
/// result.
#[verifier::external_body]
pub(crate) fn capture_stack_trace() -> (r: StackTrace) {
    let bt = std::backtrace::Backtrace::capture();
    let status = if matches!(bt.status(), std::backtrace::BacktraceStatus::Captured) {
        TraceStatus::Captured
    } else {
        TraceStatus::Unavailable
    };
    StackTrace { status, text: format!("{}", bt) }
}

/// Relies on tracing_error::SpanTrace::capture and its Display impl: records
/// the tracing spans active at this moment.  The result depends on the
/// process's tracing subscriber, so nothing is promised of it.
#[verifier::external_body]
pub(crate) fn capture_span_trace() -> (r: String) {
    format!("{}", tracing_error::SpanTrace::capture())
}

} // verus!
