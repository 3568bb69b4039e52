//! An error-reporting core: it wraps a failure value together with its cause
//! chain, lets call sites attach diagnostic annotations while the failure
//! propagates, captures the process execution context once at the failure
//! site, and renders everything into a single report on demand.

use vstd::prelude::*;

pub mod context;
pub mod report;
pub mod trace;

pub use context::Context;
pub use context::ContextObj;
pub use context::EyreInfo;
pub use context::InfoKind;
pub use context::Lift;
pub use context::Sealed;
pub use trace::StackTrace;
pub use trace::TraceStatus;

use context::info_view;

verus! {

/// The root failure: its own message and, optionally, the failure that
/// caused it.  Repeatedly following `source` yields the cause chain.
#[derive(Debug)]
pub struct BoxError {
    pub message: String,
    pub source: Option<Box<BoxError>>,
}

/// The cause-chain messages reachable from an optional source link,
/// nearest cause first.
pub open spec fn source_chain(source: Option<Box<BoxError>>) -> Seq<Seq<char>>
    decreases source,
{
    match source {
        Option::Some(cause) => cause.chain(),
        Option::None => Seq::empty(),
    }
}

impl BoxError {
    /// The messages of this failure and of every failure that caused it,
    /// this failure first, deepest cause last.
    pub open spec fn chain(&self) -> Seq<Seq<char>>
        decreases self,
    {
        seq![self.message@] + source_chain(self.source)
    }

    /// A failure with no underlying cause.
    pub fn new(message: String) -> (r: BoxError)
        ensures
            r.chain() == seq![message@],
    {
        let r = BoxError { message, source: None };
        proof {
            assert(r.chain() =~= seq![r.message@]);
        }
        r
    }

    /// A failure caused by `cause`: the new message heads the chain.
    pub fn wrap(message: String, cause: BoxError) -> (r: BoxError)
        ensures
            r.chain() == seq![message@] + cause.chain(),
    {
        BoxError { message, source: Some(Box::new(cause)) }
    }

    /// The failure that caused this one, if any.
    pub fn source(&self) -> (r: Option<&BoxError>)
        ensures
            match self.source {
                Option::Some(cause) => r is Some && *r->0 == *cause,
                Option::None => r is None,
            },
    {
        match &self.source {
            Some(cause) => Some(&**cause),
            None => None,
        }
    }
}

/// The context stack owned by one report: the annotations pushed so far, in
/// push order, and the two execution-context captures.  The traces are set
/// at construction and never change; only the annotation sequence grows.
#[derive(Debug)]
pub struct EyreContext {
    context: Vec<EyreInfo>,
    backtrace: StackTrace,
    span_backtrace: String,
}

/// The (kind, text) pairs of a list of annotations, in the same order.
pub open spec fn infos_of(list: Seq<EyreInfo>) -> Seq<(InfoKind, Seq<char>)> {
    list.map_values(|info: EyreInfo| info_view(info))
}

impl EyreContext {
    /// The annotations pushed so far, oldest first, as (kind, text) pairs.
    pub closed spec fn infos(&self) -> Seq<(InfoKind, Seq<char>)> {
        infos_of(self.context@)
    }

    /// Whether the stack-trace provider reported a usable capture.
    pub closed spec fn stack_captured(&self) -> bool {
        self.backtrace.status is Captured
    }

    /// The text of the captured stack trace.
    pub closed spec fn stack_text(&self) -> Seq<char> {
        self.backtrace.text@
    }

    /// The text of the captured span trace (possibly empty).
    pub closed spec fn span_text(&self) -> Seq<char> {
        self.span_backtrace@
    }

    /// Construct a fresh context stack, capturing both traces now.  This is
    /// the only point at which traces are captured; `push` never re-captures.
    pub fn capture() -> (r: EyreContext)
        ensures
            r.infos() == Seq::<(InfoKind, Seq<char>)>::empty(),
    {
        let r = EyreContext {
            context: Vec::new(),
            backtrace: trace::capture_stack_trace(),
            span_backtrace: trace::capture_span_trace(),
        };
        proof {
            assert(r.infos() =~= Seq::<(InfoKind, Seq<char>)>::empty());
        }
        r
    }

    /// Construct a context stack from already-captured traces, for callers
    /// that bring their own trace providers.
    pub fn from_parts(backtrace: StackTrace, span_backtrace: String) -> (r: EyreContext)
        ensures
            r.infos() == Seq::<(InfoKind, Seq<char>)>::empty(),
            r.stack_captured() == (backtrace.status is Captured),
            r.stack_text() == backtrace.text@,
            r.span_text() == span_backtrace@,
    {
        let r = EyreContext { context: Vec::new(), backtrace, span_backtrace };
        proof {
            assert(r.infos() =~= Seq::<(InfoKind, Seq<char>)>::empty());
        }
        r
    }

    /// Append one annotation; the traces are untouched.
    pub fn push(&mut self, info: EyreInfo)
        ensures
            final(self).infos() == old(self).infos().push(info_view(info)),
            final(self).stack_captured() == old(self).stack_captured(),
            final(self).stack_text() == old(self).stack_text(),
            final(self).span_text() == old(self).span_text(),
    {
        self.context.push(info);
        proof {
            assert(self.infos() =~= old(self).infos().push(info_view(info)));
        }
    }

    /// Append a Note annotation wrapping `context`.
    pub fn note(&mut self, context: impl ContextObj)
        ensures
            final(self).infos() == old(self).infos().push(
                (InfoKind::Note, context.text_spec()),
            ),
            final(self).stack_captured() == old(self).stack_captured(),
            final(self).stack_text() == old(self).stack_text(),
            final(self).span_text() == old(self).span_text(),
    {
        self.push(EyreInfo::Note(context.into_text()));
    }

    /// Append a Warning annotation wrapping `context`.
    pub fn warn(&mut self, context: impl ContextObj)
        ensures
            final(self).infos() == old(self).infos().push(
                (InfoKind::Warning, context.text_spec()),
            ),
            final(self).stack_captured() == old(self).stack_captured(),
            final(self).stack_text() == old(self).stack_text(),
            final(self).span_text() == old(self).span_text(),
    {
        self.push(EyreInfo::Warning(context.into_text()));
    }

    /// Append a Suggestion annotation wrapping `context`.
    pub fn suggestion(&mut self, context: impl ContextObj)
        ensures
            final(self).infos() == old(self).infos().push(
                (InfoKind::Suggestion, context.text_spec()),
            ),
            final(self).stack_captured() == old(self).stack_captured(),
            final(self).stack_text() == old(self).stack_text(),
            final(self).span_text() == old(self).span_text(),
    {
        self.push(EyreInfo::Suggestion(context.into_text()));
    }
}

/// The report: it owns the root failure and exactly one context stack.
/// The root failure is immutable once wrapped; the context stack answers
/// to annotation pushes only.
#[derive(Debug)]
pub struct ErrReport {
    pub error: BoxError,
    context: EyreContext,
}

impl ErrReport {
    /// The cause-chain messages, root failure first, deepest cause last.
    pub closed spec fn chain(&self) -> Seq<Seq<char>> {
        self.error.chain()
    }

    /// The annotations pushed so far, oldest first.
    pub closed spec fn infos(&self) -> Seq<(InfoKind, Seq<char>)> {
        self.context.infos()
    }

    /// Whether the stack-trace capture succeeded.
    pub closed spec fn stack_captured(&self) -> bool {
        self.context.stack_captured()
    }

    /// The text of the captured stack trace.
    pub closed spec fn stack_text(&self) -> Seq<char> {
        self.context.stack_text()
    }

    /// The text of the captured span trace.
    pub closed spec fn span_text(&self) -> Seq<char> {
        self.context.span_text()
    }

    /// Lift a failure into a report, capturing both traces at this moment.
    /// Construction never fails.
    pub fn lift(error: BoxError) -> (r: ErrReport)
        ensures
            r.chain() == error.chain(),
            r.infos() == Seq::<(InfoKind, Seq<char>)>::empty(),
    {
        ErrReport { error, context: EyreContext::capture() }
    }

    /// Wrap a failure with an already-built context stack, for callers that
    /// bring their own trace providers.
    pub fn from_parts(error: BoxError, context: EyreContext) -> (r: ErrReport)
        ensures
            r.chain() == error.chain(),
            r.infos() == context.infos(),
            r.stack_captured() == context.stack_captured(),
            r.stack_text() == context.stack_text(),
            r.span_text() == context.span_text(),
    {
        ErrReport { error, context }
    }

    /// Push one annotation onto the owned context stack and hand the same
    /// report back, builder-style.  Never fails; nothing else changes.
    pub fn add_context(self, info: EyreInfo) -> (r: ErrReport)
        ensures
            r.chain() == self.chain(),
            r.infos() == self.infos().push(info_view(info)),
            r.stack_captured() == self.stack_captured(),
            r.stack_text() == self.stack_text(),
            r.span_text() == self.span_text(),
    {
        let mut s = self;
        s.context.push(info);
        s
    }

    /// Re-derive the cause chain: the message of every failure in it, root
    /// first.  Borrows only, so it can be called any number of times.
    pub fn chain_messages(&self) -> (r: Vec<&str>)
        ensures
            r@.map_values(|s: &str| s@) == self.chain(),
    {
        let mut out: Vec<&str> = Vec::new();
        push_chain(&self.error, &mut out);
        proof {
            assert(out@.map_values(|s: &str| s@) =~~= self.chain());
        }
        out
    }

    /// The root failure this report wraps.
    pub fn root(&self) -> (r: &BoxError)
        ensures
            r.chain() == self.chain(),
    {
        &self.error
    }

    /// The annotations pushed so far, oldest first.
    pub fn annotations(&self) -> (r: &Vec<EyreInfo>)
        ensures
            infos_of(r@) == self.infos(),
    {
        &self.context.context
    }

    /// The text of the captured span trace.
    pub fn span_str(&self) -> (r: &str)
        ensures
            r@ == self.span_text(),
    {
        self.context.span_backtrace.as_str()
    }

    /// Whether the stack-trace capture succeeded.
    pub fn stack_is_captured(&self) -> (r: bool)
        ensures
            r == self.stack_captured(),
    {
        self.context.backtrace.status == TraceStatus::Captured
    }

    /// The text of the captured stack trace.
    pub fn stack_str(&self) -> (r: &str)
        ensures
            r@ == self.stack_text(),
    {
        self.context.backtrace.text.as_str()
    }
}

/// Append the messages of `e`'s chain, root first, to `out`.
fn push_chain<'a>(e: &'a BoxError, out: &mut Vec<&'a str>)
    ensures
        final(out)@.map_values(|s: &str| s@) == old(out)@.map_values(|s: &str| s@) + e.chain(),
    decreases *e,
{
    out.push(e.message.as_str());
    match &e.source {
        Some(cause) => {
            push_chain(&**cause, out);
        },
        None => {},
    }
    proof {
        assert(out@.map_values(|s: &str| s@) =~~= old(out)@.map_values(|s: &str| s@) + e.chain());
    }
}

} // verus!
