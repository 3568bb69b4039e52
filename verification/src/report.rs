use crate::context::info_line;
use crate::source_chain;
use crate::BoxError;
use crate::ErrReport;
use crate::EyreInfo;
use crate::InfoKind;
use std::fmt::Write;
use vstd::prelude::*;
use vstd::seq_lib::*;
use vstd::string::*;

verus! {

/// The decimal digit character for `n` in 0..10.
pub open spec fn dec_digit(n: nat) -> char {
    if n == 0 {
        '0'
    } else if n == 1 {
        '1'
    } else if n == 2 {
        '2'
    } else if n == 3 {
        '3'
    } else if n == 4 {
        '4'
    } else if n == 5 {
        '5'
    } else if n == 6 {
        '6'
    } else if n == 7 {
        '7'
    } else if n == 8 {
        '8'
    } else {
        '9'
    }
}

/// The decimal digits of `n`, most significant first.
pub open spec fn dec_str(n: nat) -> Seq<char>
    decreases n,
{
    if n < 10 {
        seq![dec_digit(n)]
    } else {
        dec_str(n / 10).push(dec_digit(n % 10))
    }
}

/// `k` spaces.
pub open spec fn spaces(k: nat) -> Seq<char>
    decreases k,
{
    if k == 0 {
        Seq::empty()
    } else {
        spaces((k - 1) as nat).push(' ')
    }
}

/// The prefix a numbered block starts with: the number right-aligned to
/// width five, then a colon and a space.
pub open spec fn num_prefix(n: nat) -> Seq<char> {
    let digits = dec_str(n);
    let pad: nat = if digits.len() < 5 {
        (5 - digits.len()) as nat
    } else {
        0
    };
    spaces(pad) + digits + ": "@
}

/// Whether `s` holds no line break.
pub open spec fn single_line(s: Seq<char>) -> bool {
    forall|i: int| 0 <= i < s.len() ==> s[i] != '\n'
}

/// Whether `s` starts with a printable ASCII character (never whitespace).
pub open spec fn starts_graphic(s: Seq<char>) -> bool {
    s.len() > 0 && '!' <= s[0] && s[0] <= '~'
}

/// What the numbered-block writer produces for number `n` and input `text`:
/// the text with leading blank lines dropped, the first line trimmed at its
/// start and prefixed with the number, and every further line hung under it.
/// For a single-line text that starts with a printable character this is
/// exactly `num_prefix(n) + text`; see the trusted writer below.
pub uninterp spec fn indented_block(n: nat, text: Seq<char>) -> Seq<char>;

/// Relies on eyre_impl::Indented::numbered and its fmt::Write impl: appends
/// `text` to `out` as one numbered, indented block.  The number is written
/// right-aligned to width five followed by ": ", and continuation lines are
/// indented by seven spaces, which for a single-line text starting with a
/// printable ASCII character amounts to `num_prefix(n) + text`.
#[verifier::external_body]
fn push_block(out: &mut String, n: usize, text: &str)
    ensures
        final(out)@ == old(out)@ + indented_block(n as nat, text@),
        single_line(text@) && starts_graphic(text@) ==> final(out)@ == old(out)@ + num_prefix(
            n as nat,
        ) + text@,
{
    let _ = write!(eyre_impl::Indented::numbered(out, n), "{}", text);
}

/// Append one numbered, indented block to `out`, exactly as the report's
/// cause and Info sections do.  For a single-line text that starts with a
/// printable ASCII character the appended bytes are exactly
/// `num_prefix(n) + text`.
pub fn append_numbered_block(out: &mut String, n: usize, text: &str)
    ensures
        final(out)@ == old(out)@ + indented_block(n as nat, text@),
        single_line(text@) && starts_graphic(text@) ==> final(out)@ == old(out)@ + num_prefix(
            n as nat,
        ) + text@,
{
    push_block(out, n, text);
}

/// The numbered cause blocks of the verbose report: the chain is handed in
/// root first, but rendered deepest cause first, so the block for `chain[i]`
/// carries the number `chain.len() - 1 - i`.  Each block ends with a line
/// break.
pub open spec fn causes_text(chain: Seq<Seq<char>>) -> Seq<char>
    decreases chain.len(),
{
    if chain.len() == 0 {
        Seq::empty()
    } else {
        causes_text(chain.drop_first()) + indented_block((chain.len() - 1) as nat, chain[0])
            + "\n"@
    }
}

/// The first `upto` annotation blocks of the Info section, in push order,
/// numbered from zero, each preceded by a line break.
pub open spec fn info_blocks(infos: Seq<(InfoKind, Seq<char>)>, upto: nat) -> Seq<char>
    decreases upto,
{
    if upto == 0 {
        Seq::empty()
    } else {
        info_blocks(infos, (upto - 1) as nat) + "\n"@ + indented_block(
            (upto - 1) as nat,
            info_line(infos[upto - 1]),
        )
    }
}

/// The Info section of the verbose report: absent when no annotation was
/// pushed, else a header followed by one numbered block per annotation, in
/// push order.
pub open spec fn info_section(infos: Seq<(InfoKind, Seq<char>)>) -> Seq<char> {
    if infos.len() == 0 {
        Seq::empty()
    } else {
        "\nInfo:"@ + info_blocks(infos, infos.len())
    }
}

/// The verbose report: a leading line break, the numbered cause blocks with
/// the deepest cause first, the Info section if any annotation was pushed,
/// the span trace unconditionally after a blank line, and the stack trace
/// after another blank line only if its capture succeeded.
pub open spec fn verbose_text(
    chain: Seq<Seq<char>>,
    infos: Seq<(InfoKind, Seq<char>)>,
    span: Seq<char>,
    stack_captured: bool,
    stack: Seq<char>,
) -> Seq<char> {
    "\n"@ + causes_text(chain) + info_section(infos) + "\n\n"@ + span + (if stack_captured {
        "\n\n"@ + stack
    } else {
        Seq::empty()
    })
}

/// Every cause after the root, each preceded by ": ".
pub open spec fn joined_tail(rest: Seq<Seq<char>>) -> Seq<char>
    decreases rest.len(),
{
    if rest.len() == 0 {
        Seq::empty()
    } else {
        ": "@ + rest[0] + joined_tail(rest.drop_first())
    }
}

/// The terse report: the root failure's message; in the extended form, every
/// further cause follows, joined with ": ".
pub open spec fn terse_text(chain: Seq<Seq<char>>, extended: bool) -> Seq<char> {
    if extended {
        chain[0] + joined_tail(chain.drop_first())
    } else {
        chain[0]
    }
}

/// Append the numbered cause blocks of `e`'s chain, deepest cause first, and
/// return the chain's length.
fn write_causes(e: &BoxError, out: &mut String) -> (n: usize)
    requires
        e.chain().len() <= usize::MAX,
    ensures
        final(out)@ == old(out)@ + causes_text(e.chain()),
        n as nat == e.chain().len(),
    decreases *e,
{
    let ghost c = e.chain();
    proof {
        assert(c =~= seq![e.message@] + source_chain(e.source));
        assert(c.drop_first() =~= source_chain(e.source));
        assert(c[0] == e.message@);
    }
    let n = match &e.source {
        Some(cause) => {
            let n = write_causes(&**cause, out);
            proof {
                assert(source_chain(e.source) == cause.chain());
                assert(out@ == old(out)@ + causes_text(c.drop_first()));
            }
            n
        },
        None => {
            proof {
                assert(causes_text(c.drop_first()) == Seq::<char>::empty());
                assert(out@ =~= old(out)@ + causes_text(c.drop_first()));
            }
            0
        },
    };
    let ghost mid = out@;
    append_numbered_block(out, n, message_of(e));
    out.append("\n");
    proof {
        assert(n as nat == c.len() - 1);
        assert(causes_text(c) == causes_text(c.drop_first()) + indented_block(
            (c.len() - 1) as nat,
            c[0],
        ) + "\n"@);
        assert(out@ =~= mid + indented_block(n as nat, c[0]) + "\n"@);
        assert(out@ =~= old(out)@ + causes_text(c));
    }
    n + 1
}

/// The message of `e` itself as a borrowed slice.
fn message_of(e: &BoxError) -> (r: &str)
    ensures
        r@ == e.message@,
{
    e.message.as_str()
}

/// Append the Info blocks for every annotation, in push order.
fn write_infos(infos: &Vec<EyreInfo>, out: &mut String)
    ensures
        final(out)@ == old(out)@ + info_blocks(crate::infos_of(infos@), infos@.len() as nat),
{
    let ghost v = crate::infos_of(infos@);
    let mut i: usize = 0;
    while i < infos.len()
        invariant
            i <= infos.len(),
            v == crate::infos_of(infos@),
            out@ == old(out)@ + info_blocks(v, i as nat),
        decreases infos.len() - i,
    {
        out.append("\n");
        let line = infos[i].render();
        append_numbered_block(out, i, line.as_str());
        proof {
            assert(out@ =~= old(out)@ + info_blocks(v, (i + 1) as nat));
        }
        i = i + 1;
    }
}

/// Append ": {message}" for every failure hanging off `source`.
fn write_tail(source: &Option<Box<BoxError>>, out: &mut String)
    ensures
        final(out)@ == old(out)@ + joined_tail(source_chain(*source)),
    decreases *source,
{
    match source {
        Some(cause) => {
            proof {
                assert(cause.chain().drop_first() =~= source_chain(cause.source));
                assert(cause.chain()[0] == cause.message@);
            }
            out.append(": ");
            out.append(message_of(&**cause));
            write_tail(&cause.source, out);
            proof {
                assert(out@ =~= old(out)@ + joined_tail(source_chain(*source)));
            }
        },
        None => {
            proof {
                assert(out@ =~= old(out)@ + joined_tail(source_chain(*source)));
            }
        },
    }
}

/// The first `upto` info blocks depend only on the first `upto` annotations.
proof fn lemma_info_blocks_prefix(
    a: Seq<(InfoKind, Seq<char>)>,
    b: Seq<(InfoKind, Seq<char>)>,
    upto: nat,
)
    requires
        upto <= a.len(),
        upto <= b.len(),
        forall|i: int| 0 <= i < upto ==> a[i] == b[i],
    ensures
        info_blocks(a, upto) == info_blocks(b, upto),
    decreases upto,
{
    if upto > 0 {
        lemma_info_blocks_prefix(a, b, (upto - 1) as nat);
    }
}

/// Append-order law: pushing one more annotation leaves every existing Info
/// block as it was and adds exactly one block at the end of the section,
/// numbered with the old count (and, on the first push, the section header
/// appears).  Hence any sequence of pushes renders in push order, numbered
/// from zero upward.
pub proof fn lemma_append_order(infos: Seq<(InfoKind, Seq<char>)>, extra: (InfoKind, Seq<char>))
    ensures
        infos.len() > 0 ==> info_section(infos.push(extra)) == info_section(infos) + "\n"@
            + indented_block(infos.len(), info_line(extra)),
        infos.len() == 0 ==> info_section(infos.push(extra)) == "\nInfo:"@ + "\n"@
            + indented_block(0, info_line(extra)),
{
    let p = infos.push(extra);
    lemma_info_blocks_prefix(p, infos, infos.len());
    assert(p[infos.len() as int] == extra);
    assert(info_blocks(p, p.len()) == info_blocks(infos, infos.len()) + "\n"@ + indented_block(
        infos.len(),
        info_line(extra),
    ));
    if infos.len() > 0 {
        assert(info_section(p) =~= info_section(infos) + "\n"@ + indented_block(
            infos.len(),
            info_line(extra),
        ));
    } else {
        assert(info_blocks(infos, 0) == Seq::<char>::empty());
        assert(info_section(p) =~= "\nInfo:"@ + "\n"@ + indented_block(0, info_line(extra)));
    }
}

/// The cause blocks read forward over an already-reversed chain: block `i`
/// carries number `i` and the text `rev[i]`.
pub open spec fn fwd_blocks(rev: Seq<Seq<char>>, upto: nat) -> Seq<char>
    decreases upto,
{
    if upto == 0 {
        Seq::empty()
    } else {
        fwd_blocks(rev, (upto - 1) as nat) + indented_block((upto - 1) as nat, rev[upto - 1])
            + "\n"@
    }
}

/// The first `upto` forward blocks depend only on the first `upto` entries.
proof fn lemma_fwd_blocks_prefix(a: Seq<Seq<char>>, b: Seq<Seq<char>>, upto: nat)
    requires
        upto <= a.len(),
        upto <= b.len(),
        forall|i: int| 0 <= i < upto ==> a[i] == b[i],
    ensures
        fwd_blocks(a, upto) == fwd_blocks(b, upto),
    decreases upto,
{
    if upto > 0 {
        lemma_fwd_blocks_prefix(a, b, (upto - 1) as nat);
    }
}

/// Chain-reversal law: for a cause chain of depth D, handed in root failure
/// first, the verbose cause section equals the blocks of the reversed chain
/// taken in forward order: the deepest cause carries number 0 and stands
/// first, the original failure carries number D - 1 and stands last.
pub proof fn lemma_chain_reversal(chain: Seq<Seq<char>>)
    ensures
        causes_text(chain) == fwd_blocks(chain.reverse(), chain.len()),
    decreases chain.len(),
{
    if chain.len() == 0 {
    } else {
        let t = chain.drop_first();
        lemma_chain_reversal(t);
        assert(chain.reverse()[chain.len() - 1] == chain[0]);
        assert forall|i: int| 0 <= i < t.len() implies t.reverse()[i] == chain.reverse()[i] by {
            assert(t.reverse()[i] == t[t.len() - 1 - i]);
            assert(t[t.len() - 1 - i] == chain[chain.len() - 1 - i]);
        }
        lemma_fwd_blocks_prefix(chain.reverse(), t.reverse(), t.len());
        assert(causes_text(chain) =~= fwd_blocks(chain.reverse(), chain.len()));
    }
}

/// Rendering is a pure function of the report's observable state: two
/// reports that agree on cause chain, annotations and traces render to the
/// same text.  In particular, rendering the same report twice with no
/// intervening push is byte-identical, and an eagerly attached note and a
/// lazily attached note carrying the same text render the same.
pub proof fn lemma_render_deterministic(a: &ErrReport, b: &ErrReport)
    requires
        a.chain() == b.chain(),
        a.infos() == b.infos(),
        a.span_text() == b.span_text(),
        a.stack_captured() == b.stack_captured(),
        a.stack_text() == b.stack_text(),
    ensures
        verbose_text(a.chain(), a.infos(), a.span_text(), a.stack_captured(), a.stack_text())
            == verbose_text(b.chain(), b.infos(), b.span_text(), b.stack_captured(), b.stack_text()),
        terse_text(a.chain(), false) == terse_text(b.chain(), false),
        terse_text(a.chain(), true) == terse_text(b.chain(), true),
{
}

/// Trace-omission law: when the stack capture is unavailable, the verbose
/// report carries no stack-trace section at all - it is independent of the
/// stack text and ends with the span-trace section, which is present even
/// when the span trace is empty.
pub proof fn lemma_trace_omission(
    chain: Seq<Seq<char>>,
    infos: Seq<(InfoKind, Seq<char>)>,
    span: Seq<char>,
    stack: Seq<char>,
)
    ensures
        verbose_text(chain, infos, span, false, stack) == "\n"@ + causes_text(chain)
            + info_section(infos) + "\n\n"@ + span,
        verbose_text(chain, infos, span, false, stack) == verbose_text(
            chain,
            infos,
            span,
            false,
            Seq::empty(),
        ),
{
    assert(verbose_text(chain, infos, span, false, stack) =~= "\n"@ + causes_text(chain)
        + info_section(infos) + "\n\n"@ + span);
}

impl ErrReport {
    /// Terse rendering: the root failure's message alone.
    pub fn render(&self) -> (r: String)
        ensures
            r@ == terse_text(self.chain(), false),
    {
        let root = self.root();
        proof {
            assert(root.chain()[0] == root.message@);
        }
        String::from_str(root.message.as_str())
    }

    /// Extended terse rendering: the root failure's message, then every
    /// further cause in the chain joined with ": ".
    pub fn render_extended(&self) -> (r: String)
        ensures
            r@ == terse_text(self.chain(), true),
    {
        let root = self.root();
        proof {
            assert(root.chain()[0] == root.message@);
            assert(root.chain().drop_first() =~= source_chain(root.source));
        }
        let mut out = String::from_str(root.message.as_str());
        write_tail(&root.source, &mut out);
        out
    }

    /// Verbose rendering: numbered cause blocks with the deepest cause
    /// first, the Info section when annotations were pushed, the span trace
    /// unconditionally, and the stack trace only when its capture succeeded.
    /// A pure function of the report's state: no caching, no side effect.
    pub fn render_verbose(&self) -> (r: String)
        requires
            self.chain().len() <= usize::MAX,
        ensures
            r@ == verbose_text(
                self.chain(),
                self.infos(),
                self.span_text(),
                self.stack_captured(),
                self.stack_text(),
            ),
    {
        let mut out = String::from_str("\n");
        let _depth = write_causes(self.root(), &mut out);
        let annotations = self.annotations();
        if annotations.len() > 0 {
            out.append("\nInfo:");
            write_infos(annotations, &mut out);
            proof {
                assert(self.infos().len() == annotations@.len());
                assert(out@ =~= "\n"@ + causes_text(self.chain()) + info_section(self.infos()));
            }
        } else {
            proof {
                assert(self.infos() =~= Seq::<(InfoKind, Seq<char>)>::empty());
                assert(out@ =~= "\n"@ + causes_text(self.chain()) + info_section(self.infos()));
            }
        }
        out.append("\n\n");
        out.append(self.span_str());
        if self.stack_is_captured() {
            out.append("\n\n");
            out.append(self.stack_str());
        }
        proof {
            assert(out@ =~= verbose_text(
                self.chain(),
                self.infos(),
                self.span_text(),
                self.stack_captured(),
                self.stack_text(),
            ));
        }
        out
    }
}

} // verus!
