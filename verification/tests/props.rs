use eyre::BoxError;
use eyre::Context;
use eyre::ErrReport;
use eyre::EyreContext;
use eyre::EyreInfo;
use eyre::StackTrace;
use eyre::TraceStatus;

/// A report with fixed (empty, unavailable) traces, so its rendering is
/// fully deterministic.
fn fixed_report(error: BoxError) -> ErrReport {
    ErrReport::from_parts(
        error,
        EyreContext::from_parts(
            StackTrace {
                status: TraceStatus::Unavailable,
                text: String::new(),
            },
            String::new(),
        ),
    )
}

#[test]
fn append_order_lists_pushes_in_order() {
    let r = fixed_report(BoxError::new("boom".to_string()))
        .add_context(EyreInfo::Note("a".to_string()))
        .add_context(EyreInfo::Warning("b".to_string()))
        .add_context(EyreInfo::Suggestion("c".to_string()));
    assert_eq!(
        r.render_verbose(),
        "\n    0: boom\n\nInfo:\n    0: Note: a\n    1: Warning: b\n    2: Suggestion: c\n\n"
    );
}

#[test]
fn append_order_numbers_align_past_ten() {
    let mut r = fixed_report(BoxError::new("boom".to_string()));
    for i in 0..12 {
        r = r.add_context(EyreInfo::Note(format!("k{}", i)));
    }
    let out = r.render_verbose();
    assert!(out.contains("\n    9: Note: k9"));
    assert!(out.contains("\n   10: Note: k10"));
    assert!(out.contains("\n   11: Note: k11"));
}

#[test]
fn chain_reversal_numbers_deepest_cause_zero() {
    let chain = BoxError::wrap(
        "top".to_string(),
        BoxError::wrap("mid".to_string(), BoxError::new("deep".to_string())),
    );
    let r = fixed_report(chain);
    assert_eq!(r.render_verbose(), "\n    0: deep\n    1: mid\n    2: top\n\n\n");
    assert_eq!(r.render(), "top");
    assert_eq!(r.render_extended(), "top: mid: deep");
    assert_eq!(r.chain_messages(), vec!["top", "mid", "deep"]);
}

#[test]
fn lazy_thunk_never_runs_on_success() {
    let mut calls = 0;
    let ok: Result<i32, ErrReport> = Ok(1);
    let r = ok.with_note(|| {
        calls += 1;
        "never"
    });
    assert_eq!(r.unwrap(), 1);
    assert_eq!(calls, 0);

    let err: Result<i32, ErrReport> = Err(fixed_report(BoxError::new("boom".to_string())));
    let r = err.with_note(|| {
        calls += 1;
        "lazily"
    });
    assert_eq!(calls, 1);
    assert!(r.unwrap_err().render_verbose().contains("Note: lazily"));
}

#[test]
fn eager_and_lazy_note_render_identically() {
    let eager: Result<(), ErrReport> = Err(fixed_report(BoxError::new("boom".to_string())));
    let lazy: Result<(), ErrReport> = Err(fixed_report(BoxError::new("boom".to_string())));
    let eager = eager.note("hint").unwrap_err().render_verbose();
    let lazy = lazy.with_note(|| "hint").unwrap_err().render_verbose();
    assert_eq!(eager, lazy);
}

#[test]
fn rendering_is_idempotent() {
    let r = fixed_report(BoxError::new("boom".to_string()))
        .add_context(EyreInfo::Note("a".to_string()));
    assert_eq!(r.render_verbose(), r.render_verbose());
    assert_eq!(r.render(), r.render());
    assert_eq!(r.render_extended(), r.render_extended());

    let captured = ErrReport::from("live capture");
    assert_eq!(captured.render_verbose(), captured.render_verbose());
}

#[test]
fn unavailable_stack_trace_is_omitted_span_trace_is_not() {
    let r = ErrReport::from_parts(
        BoxError::new("boom".to_string()),
        EyreContext::from_parts(
            StackTrace {
                status: TraceStatus::Unavailable,
                text: "SHOULD NOT APPEAR".to_string(),
            },
            "span line here".to_string(),
        ),
    );
    let out = r.render_verbose();
    assert!(!out.contains("SHOULD NOT APPEAR"));
    assert!(out.ends_with("\n\nspan line here"));

    let r = ErrReport::from_parts(
        BoxError::new("boom".to_string()),
        EyreContext::from_parts(
            StackTrace {
                status: TraceStatus::Captured,
                text: "stack body".to_string(),
            },
            "span line here".to_string(),
        ),
    );
    let out = r.render_verbose();
    assert!(out.contains("\n\nspan line here"));
    assert!(out.ends_with("\n\nstack body"));
}

#[test]
fn lifted_string_literal_end_to_end() {
    let r = ErrReport::from("watch me catch this string");
    assert_eq!(r.render(), "watch me catch this string");
    let out = r.render_verbose();
    assert!(out.starts_with("\n    0: watch me catch this string\n\n\n"));
    assert!(!out.contains("Info:"));
}

#[test]
fn note_then_warning_end_to_end() {
    let failing: Result<(), ErrReport> = Err(ErrReport::from("the operation failed"));
    let r = failing
        .note("retry suggested")
        .warning("low disk")
        .unwrap_err();
    let out = r.render_verbose();
    assert!(out.contains("\nInfo:\n    0: Note: retry suggested\n    1: Warning: low disk\n"));
}

#[test]
fn context_stack_convenience_pushes() {
    let stack = StackTrace {
        status: TraceStatus::Unavailable,
        text: String::new(),
    };
    let mut ctx = EyreContext::from_parts(stack, String::new());
    ctx.note("n");
    ctx.warn("w".to_string());
    ctx.suggestion("s");
    let r = ErrReport::from_parts(BoxError::new("boom".to_string()), ctx);
    assert_eq!(
        r.render_verbose(),
        "\n    0: boom\n\nInfo:\n    0: Note: n\n    1: Warning: w\n    2: Suggestion: s\n\n"
    );
}

#[test]
fn multi_line_payloads_hang_under_their_number() {
    let r = fixed_report(BoxError::new("first\nsecond".to_string()));
    let out = r.render_verbose();
    assert!(out.contains("    0: first\n       second"));
}

#[test]
fn source_walks_one_cause() {
    let e = BoxError::wrap("top".to_string(), BoxError::new("deep".to_string()));
    let cause = e.source().expect("a cause");
    assert_eq!(cause.message, "deep");
    assert!(cause.source().is_none());
    assert!(BoxError::new("leaf".to_string()).source().is_none());
}

#[test]
fn numbered_block_prefix_is_exact() {
    let mut s = String::new();
    eyre::report::append_numbered_block(&mut s, 3, "abc");
    assert_eq!(s, "    3: abc");
    let mut s = String::new();
    eyre::report::append_numbered_block(&mut s, 12345, "abc");
    assert_eq!(s, "12345: abc");
}
