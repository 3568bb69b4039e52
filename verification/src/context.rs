use crate::BoxError;
use crate::ErrReport;
use vstd::pervasive::arbitrary;
use vstd::prelude::*;
use vstd::string::*;

verus! {

/// The three annotation kinds.
#[derive(Clone, Copy, Debug, PartialEq, Eq, Structural)]
pub enum InfoKind {
    Note,
    Warning,
    Suggestion,
}

/// One diagnostic annotation: a tagged, owned, renderable payload.
/// Immutable once constructed; owned exclusively by the context stack.
#[derive(Debug)]
pub enum EyreInfo {
    Note(String),
    Warning(String),
    Suggestion(String),
}

/// The kind and payload text of an annotation.
pub open spec fn info_view(info: EyreInfo) -> (InfoKind, Seq<char>) {
    match info {
        EyreInfo::Note(s) => (InfoKind::Note, s@),
        EyreInfo::Warning(s) => (InfoKind::Warning, s@),
        EyreInfo::Suggestion(s) => (InfoKind::Suggestion, s@),
    }
}

/// The label an annotation kind renders with.
pub open spec fn kind_label(kind: InfoKind) -> Seq<char> {
    match kind {
        InfoKind::Note => "Note: "@,
        InfoKind::Warning => "Warning: "@,
        InfoKind::Suggestion => "Suggestion: "@,
    }
}

/// The full rendered line of an annotation: its kind's label, then its text.
pub open spec fn info_line(info: (InfoKind, Seq<char>)) -> Seq<char> {
    kind_label(info.0) + info.1
}

impl EyreInfo {
    /// Render this annotation as "Note: {payload}", "Warning: {payload}" or
    /// "Suggestion: {payload}".
    pub fn render(&self) -> (r: String)
        ensures
            r@ == info_line(info_view(*self)),
    {
        match self {
            EyreInfo::Note(s) => {
                let mut out = String::from_str("Note: ");
                out.append(s.as_str());
                out
            },
            EyreInfo::Warning(s) => {
                let mut out = String::from_str("Warning: ");
                out.append(s.as_str());
                out
            },
            EyreInfo::Suggestion(s) => {
                let mut out = String::from_str("Suggestion: ");
                out.append(s.as_str());
                out
            },
        }
    }
}

/// An annotation payload: anything that renders as text and can be handed
/// over to the context stack.
pub trait ContextObj: Sized {
    /// The text this payload renders as.
    spec fn text_spec(&self) -> Seq<char>;

    /// Hand the payload over as its rendered text.
    fn into_text(self) -> (r: String)
        ensures
            r@ == self.text_spec(),
    ;
}

impl ContextObj for String {
    open spec fn text_spec(&self) -> Seq<char> {
        self@
    }

    fn into_text(self) -> (r: String) {
        self
    }
}

impl<'a> ContextObj for &'a str {
    open spec fn text_spec(&self) -> Seq<char> {
        self@
    }

    fn into_text(self) -> (r: String) {
        self.to_owned()
    }
}

/// A failure value that can be lifted into a report.  This is the closed
/// capability set of the annotation extension: only these error types take
/// part, so misuse with unrelated error representations is rejected at
/// compile time.
pub trait Lift: Sized {
    /// The cause-chain messages the lifted report carries, root first.
    spec fn lift_chain(&self) -> Seq<Seq<char>>;

    /// The annotations the lifted report already carries.
    spec fn lift_infos(&self) -> Seq<(InfoKind, Seq<char>)>;

    /// Whether this failure already carries captured traces, which lifting
    /// then keeps untouched.  False for bare failures: their captures are
    /// fresh at lift time.
    spec fn traces_determined(&self) -> bool;

    /// The span-trace text the lifted report carries, when determined.
    spec fn lift_span(&self) -> Seq<char>;

    /// Whether the lifted report's stack capture succeeded, when determined.
    spec fn lift_stack_captured(&self) -> bool;

    /// The stack-trace text the lifted report carries, when determined.
    spec fn lift_stack(&self) -> Seq<char>;

    /// Lift into a report.  A bare failure gets a fresh context stack, with
    /// traces captured now; an already-lifted report passes through whole,
    /// its traces as they were.
    fn lift(self) -> (r: ErrReport)
        ensures
            r.chain() == self.lift_chain(),
            r.infos() == self.lift_infos(),
            self.traces_determined() ==> r.span_text() == self.lift_span()
                && r.stack_captured() == self.lift_stack_captured() && r.stack_text()
                == self.lift_stack(),
    ;
}

impl Lift for BoxError {
    open spec fn lift_chain(&self) -> Seq<Seq<char>> {
        self.chain()
    }

    open spec fn lift_infos(&self) -> Seq<(InfoKind, Seq<char>)> {
        Seq::empty()
    }

    open spec fn traces_determined(&self) -> bool {
        false
    }

    open spec fn lift_span(&self) -> Seq<char> {
        Seq::empty()
    }

    open spec fn lift_stack_captured(&self) -> bool {
        false
    }

    open spec fn lift_stack(&self) -> Seq<char> {
        Seq::empty()
    }

    fn lift(self) -> (r: ErrReport) {
        ErrReport::lift(self)
    }
}

impl Lift for String {
    open spec fn lift_chain(&self) -> Seq<Seq<char>> {
        seq![self@]
    }

    open spec fn lift_infos(&self) -> Seq<(InfoKind, Seq<char>)> {
        Seq::empty()
    }

    open spec fn traces_determined(&self) -> bool {
        false
    }

    open spec fn lift_span(&self) -> Seq<char> {
        Seq::empty()
    }

    open spec fn lift_stack_captured(&self) -> bool {
        false
    }

    open spec fn lift_stack(&self) -> Seq<char> {
        Seq::empty()
    }

    fn lift(self) -> (r: ErrReport) {
        ErrReport::lift(BoxError::new(self))
    }
}

impl<'a> Lift for &'a str {
    open spec fn lift_chain(&self) -> Seq<Seq<char>> {
        seq![self@]
    }

    open spec fn lift_infos(&self) -> Seq<(InfoKind, Seq<char>)> {
        Seq::empty()
    }

    open spec fn traces_determined(&self) -> bool {
        false
    }

    open spec fn lift_span(&self) -> Seq<char> {
        Seq::empty()
    }

    open spec fn lift_stack_captured(&self) -> bool {
        false
    }

    open spec fn lift_stack(&self) -> Seq<char> {
        Seq::empty()
    }

    fn lift(self) -> (r: ErrReport) {
        ErrReport::lift(BoxError::new(self.to_owned()))
    }
}

impl Lift for ErrReport {
    open spec fn lift_chain(&self) -> Seq<Seq<char>> {
        self.chain()
    }

    open spec fn lift_infos(&self) -> Seq<(InfoKind, Seq<char>)> {
        self.infos()
    }

    open spec fn traces_determined(&self) -> bool {
        true
    }

    open spec fn lift_span(&self) -> Seq<char> {
        self.span_text()
    }

    open spec fn lift_stack_captured(&self) -> bool {
        self.stack_captured()
    }

    open spec fn lift_stack(&self) -> Seq<char> {
        self.stack_text()
    }

    fn lift(self) -> (r: ErrReport) {
        self
    }
}

/// Marker bound that closes the annotation extension: it is implemented
/// exactly for the `Result`s whose error type is liftable into a report.
pub trait Sealed {}

impl<T, E: Lift> Sealed for core::result::Result<T, E> {
}

/// The fluent annotation extension on `Result`: attach a Note, Warning or
/// Suggestion to the error while it propagates.  A success value passes
/// through unchanged; exactly one annotation is pushed per call on an error.
/// The `with_` forms take a thunk whose precondition is demanded only on the
/// error path, so it can only ever be invoked once an error has occurred.
pub trait Context<T>: Sealed + Sized {
    /// Whether this result is a success.
    spec fn ok_spec(&self) -> bool;

    /// The success value, when `ok_spec` holds.
    spec fn ok_value(&self) -> T;

    /// The cause chain the error lifts to.
    spec fn err_chain(&self) -> Seq<Seq<char>>;

    /// The annotations the error already carries.
    spec fn err_infos(&self) -> Seq<(InfoKind, Seq<char>)>;

    /// Whether the error already carries captured traces, which every
    /// annotation call then leaves exactly as they were.
    spec fn err_traces_determined(&self) -> bool;

    /// The span-trace text the error carries, when determined.
    spec fn err_span(&self) -> Seq<char>;

    /// Whether the error's stack capture succeeded, when determined.
    spec fn err_stack_captured(&self) -> bool;

    /// The stack-trace text the error carries, when determined.
    spec fn err_stack(&self) -> Seq<char>;

    /// Attach a Note, eagerly.
    fn note<C: ContextObj>(self, context: C) -> (r: Result<T, ErrReport>)
        ensures
            self.ok_spec() ==> r is Ok && r->Ok_0 == self.ok_value(),
            !self.ok_spec() ==> r is Err && r->Err_0.chain() == self.err_chain()
                && r->Err_0.infos() == self.err_infos().push(
                (InfoKind::Note, context.text_spec()),
            ),
            !self.ok_spec() && self.err_traces_determined() ==> r->Err_0.span_text()
                == self.err_span() && r->Err_0.stack_captured() == self.err_stack_captured()
                && r->Err_0.stack_text() == self.err_stack(),
    ;

    /// Attach a Warning, eagerly.
    fn warning<C: ContextObj>(self, context: C) -> (r: Result<T, ErrReport>)
        ensures
            self.ok_spec() ==> r is Ok && r->Ok_0 == self.ok_value(),
            !self.ok_spec() ==> r is Err && r->Err_0.chain() == self.err_chain()
                && r->Err_0.infos() == self.err_infos().push(
                (InfoKind::Warning, context.text_spec()),
            ),
            !self.ok_spec() && self.err_traces_determined() ==> r->Err_0.span_text()
                == self.err_span() && r->Err_0.stack_captured() == self.err_stack_captured()
                && r->Err_0.stack_text() == self.err_stack(),
    ;

    /// Attach a Suggestion, eagerly.
    fn suggestion<C: ContextObj>(self, context: C) -> (r: Result<T, ErrReport>)
        ensures
            self.ok_spec() ==> r is Ok && r->Ok_0 == self.ok_value(),
            !self.ok_spec() ==> r is Err && r->Err_0.chain() == self.err_chain()
                && r->Err_0.infos() == self.err_infos().push(
                (InfoKind::Suggestion, context.text_spec()),
            ),
            !self.ok_spec() && self.err_traces_determined() ==> r->Err_0.span_text()
                == self.err_span() && r->Err_0.stack_captured() == self.err_stack_captured()
                && r->Err_0.stack_text() == self.err_stack(),
    ;

    /// Attach a Note whose payload is produced only once an error occurred.
    fn with_note<C: ContextObj, F: FnOnce() -> C>(self, context: F) -> (r: Result<T, ErrReport>)
        requires
            !self.ok_spec() ==> call_requires(context, ()),
        ensures
            self.ok_spec() ==> r is Ok && r->Ok_0 == self.ok_value(),
            !self.ok_spec() ==> r is Err && r->Err_0.chain() == self.err_chain() && exists|c: C|
                call_ensures(context, (), c) && r->Err_0.infos() == self.err_infos().push(
                    (InfoKind::Note, c.text_spec()),
                ),
            !self.ok_spec() && self.err_traces_determined() ==> r->Err_0.span_text()
                == self.err_span() && r->Err_0.stack_captured() == self.err_stack_captured()
                && r->Err_0.stack_text() == self.err_stack(),
    ;

    /// Attach a Warning whose payload is produced only once an error occurred.
    fn with_warning<C: ContextObj, F: FnOnce() -> C>(self, context: F) -> (r: Result<T, ErrReport>)
        requires
            !self.ok_spec() ==> call_requires(context, ()),
        ensures
            self.ok_spec() ==> r is Ok && r->Ok_0 == self.ok_value(),
            !self.ok_spec() ==> r is Err && r->Err_0.chain() == self.err_chain() && exists|c: C|
                call_ensures(context, (), c) && r->Err_0.infos() == self.err_infos().push(
                    (InfoKind::Warning, c.text_spec()),
                ),
            !self.ok_spec() && self.err_traces_determined() ==> r->Err_0.span_text()
                == self.err_span() && r->Err_0.stack_captured() == self.err_stack_captured()
                && r->Err_0.stack_text() == self.err_stack(),
    ;

    /// Attach a Suggestion whose payload is produced only once an error
    /// occurred.
    fn with_suggestion<C: ContextObj, F: FnOnce() -> C>(self, context: F) -> (r: Result<
        T,
        ErrReport,
    >)
        requires
            !self.ok_spec() ==> call_requires(context, ()),
        ensures
            self.ok_spec() ==> r is Ok && r->Ok_0 == self.ok_value(),
            !self.ok_spec() ==> r is Err && r->Err_0.chain() == self.err_chain() && exists|c: C|
                call_ensures(context, (), c) && r->Err_0.infos() == self.err_infos().push(
                    (InfoKind::Suggestion, c.text_spec()),
                ),
            !self.ok_spec() && self.err_traces_determined() ==> r->Err_0.span_text()
                == self.err_span() && r->Err_0.stack_captured() == self.err_stack_captured()
                && r->Err_0.stack_text() == self.err_stack(),
    ;
}

impl<T, E: Lift> Context<T> for core::result::Result<T, E> {
    open spec fn ok_spec(&self) -> bool {
        self is Ok
    }

    open spec fn ok_value(&self) -> T {
        self->Ok_0
    }

    open spec fn err_chain(&self) -> Seq<Seq<char>> {
        self->Err_0.lift_chain()
    }

    open spec fn err_infos(&self) -> Seq<(InfoKind, Seq<char>)> {
        self->Err_0.lift_infos()
    }

    open spec fn err_traces_determined(&self) -> bool {
        self->Err_0.traces_determined()
    }

    open spec fn err_span(&self) -> Seq<char> {
        self->Err_0.lift_span()
    }

    open spec fn err_stack_captured(&self) -> bool {
        self->Err_0.lift_stack_captured()
    }

    open spec fn err_stack(&self) -> Seq<char> {
        self->Err_0.lift_stack()
    }

    fn note<C: ContextObj>(self, context: C) -> (r: Result<T, ErrReport>) {
        match self {
            Ok(v) => Ok(v),
            Err(e) => Err(e.lift().add_context(EyreInfo::Note(context.into_text()))),
        }
    }

    fn warning<C: ContextObj>(self, context: C) -> (r: Result<T, ErrReport>) {
        match self {
            Ok(v) => Ok(v),
            Err(e) => Err(e.lift().add_context(EyreInfo::Warning(context.into_text()))),
        }
    }

    fn suggestion<C: ContextObj>(self, context: C) -> (r: Result<T, ErrReport>) {
        match self {
            Ok(v) => Ok(v),
            Err(e) => Err(e.lift().add_context(EyreInfo::Suggestion(context.into_text()))),
        }
    }

    fn with_note<C: ContextObj, F: FnOnce() -> C>(self, context: F) -> (r: Result<T, ErrReport>) {
        match self {
            Ok(v) => Ok(v),
            Err(e) => {
                let payload = context();
                Err(e.lift().add_context(EyreInfo::Note(payload.into_text())))
            },
        }
    }

    fn with_warning<C: ContextObj, F: FnOnce() -> C>(self, context: F) -> (r: Result<
        T,
        ErrReport,
    >) {
        match self {
            Ok(v) => Ok(v),
            Err(e) => {
                let payload = context();
                Err(e.lift().add_context(EyreInfo::Warning(payload.into_text())))
            },
        }
    }

    fn with_suggestion<C: ContextObj, F: FnOnce() -> C>(self, context: F) -> (r: Result<
        T,
        ErrReport,
    >) {
        match self {
            Ok(v) => Ok(v),
            Err(e) => {
                let payload = context();
                Err(e.lift().add_context(EyreInfo::Suggestion(payload.into_text())))
            },
        }
    }
}

impl From<&'static str> for ErrReport {
    /// Lift a plain string failure, capturing traces now.
    fn from(message: &'static str) -> (r: ErrReport)
        ensures
            r.chain() == seq![message@],
            r.infos() == Seq::<(InfoKind, Seq<char>)>::empty(),
    {
        ErrReport::lift(BoxError::new(message.to_owned()))
    }
}

impl vstd::std_specs::convert::FromSpecImpl<&'static str> for ErrReport {
    open spec fn obeys_from_spec() -> bool {
        false
    }

    open spec fn from_spec(message: &'static str) -> ErrReport {
        arbitrary()
    }
}

impl From<String> for ErrReport {
    /// Lift an owned string failure, capturing traces now.
    fn from(message: String) -> (r: ErrReport)
        ensures
            r.chain() == seq![message@],
            r.infos() == Seq::<(InfoKind, Seq<char>)>::empty(),
    {
        ErrReport::lift(BoxError::new(message))
    }
}

impl vstd::std_specs::convert::FromSpecImpl<String> for ErrReport {
    open spec fn obeys_from_spec() -> bool {
        false
    }

    open spec fn from_spec(message: String) -> ErrReport {
        arbitrary()
    }
}

} // verus!
