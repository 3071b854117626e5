//! The completeness classifier: from what the compiler said about the text
//! gathered so far, decide whether to run it, report it, or read more.
use crate::diagnostic::{
    compile_interactive, compile_report, CompileSettings, CompiledUnit, Diagnostic,
    DiagnosticInfo, DiagnosticKind, DiagnosticModel,
};
use vstd::prelude::*;
use vstd::string::StrSliceExecFns;

verus! {

/// The message with which the parser rejects a block header that has no body yet.
pub const INDENTED_BLOCK_MESSAGE: &'static str = "Expected an indented block";

/// What to do with the gathered text after one more line.
#[derive(Clone, Copy, Debug, PartialEq, Eq, Structural)]
pub enum Verdict {
    /// The text is a complete unit: run it.
    Run,
    /// The text compiles, but a block is still open and the line was not
    /// blank: hold it, the block may still grow.
    Hold,
    /// One statement is unterminated: read exactly one more line.
    ContinueLine,
    /// A block is being written: read until a blank line.
    ContinueBlock,
    /// The text is invalid: report the diagnostic and start afresh.
    Failed,
}

/// `p` is a prefix of `s`.
pub open spec fn has_prefix(s: Seq<char>, p: Seq<char>) -> bool {
    p.len() <= s.len() && s.subrange(0, p.len() as int) == p
}

/// The character at `i` of `s` and the two after it are one and the same
/// quote character: a triple-quoted string opens at `i`.
pub open spec fn triple_quote_at(s: Seq<char>, i: int) -> bool {
    &&& 0 <= i
    &&& i + 2 < s.len()
    &&& (s[i] == '\'' || s[i] == '"')
    &&& s[i + 1] == s[i]
    &&& s[i + 2] == s[i]
}

/// The diagnostic only says that the input stopped too early.
pub open spec fn ends_too_early(d: DiagnosticModel, source: Seq<char>) -> bool {
    ||| d.kind == DiagnosticKind::EndOfInput
    ||| d.unclosed_bracket
    ||| d.kind == DiagnosticKind::UnterminatedTripleQuote
    ||| (d.kind == DiagnosticKind::UnclosedString && triple_quote_at(source, d.offset as int))
}

/// The diagnostic must be reported even while more lines could still come.
/// A complaint about indentation, or about a missing indented block, is
/// expected noise before a block has begun, and real once inside one.
pub open spec fn is_fatal(d: DiagnosticModel, continuing_block: bool) -> bool {
    if d.kind == DiagnosticKind::Indentation {
        continuing_block
    } else if d.kind == DiagnosticKind::Message && has_prefix(
        d.message,
        INDENTED_BLOCK_MESSAGE@,
    ) {
        continuing_block
    } else {
        true
    }
}

/// The verdict for `source`, on which the compiler reported `report`
/// (`None`: it compiled).
pub open spec fn verdict_of(
    report: Option<DiagnosticModel>,
    source: Seq<char>,
    had_empty_line: bool,
    continuing_block: bool,
) -> Verdict {
    match report {
        None => if had_empty_line || !continuing_block {
            Verdict::Run
        } else {
            Verdict::Hold
        },
        Some(d) => if ends_too_early(d, source) {
            Verdict::ContinueLine
        } else if had_empty_line || is_fatal(d, continuing_block) {
            Verdict::Failed
        } else {
            Verdict::ContinueBlock
        },
    }
}

/// Whether `s` starts with `p`.
pub fn starts_with(s: &str, p: &str) -> (r: bool)
    ensures
        r == has_prefix(s@, p@),
{
    let n = p.unicode_len();
    let m = s.unicode_len();
    if n > m {
        return false;
    }
    let mut i: usize = 0;
    while i < n
        invariant
            n == p@.len(),
            m == s@.len(),
            n <= m,
            i <= n,
            forall|j: int| 0 <= j < i ==> s@[j] == p@[j],
        decreases n - i,
    {
        if s.get_char(i) != p.get_char(i) {
            return false;
        }
        i = i + 1;
    }
    assert(s@.subrange(0, n as int) =~= p@);
    true
}

/// Whether a triple-quoted string opens at character `offset` of `source`.
pub fn opens_triple_quote(source: &str, offset: usize) -> (r: bool)
    ensures
        r == triple_quote_at(source@, offset as int),
{
    let n = source.unicode_len();
    if offset >= n || n - offset < 3 {
        return false;
    }
    let q = source.get_char(offset);
    (q == '\'' || q == '"') && source.get_char(offset + 1) == q && source.get_char(offset + 2)
        == q
}

/// Whether the diagnostic is to be reported even if more lines could follow.
pub fn diagnostic_is_fatal(d: &DiagnosticInfo, continuing_block: bool) -> (r: bool)
    ensures
        r == is_fatal(d@, continuing_block),
{
    match d.kind {
        DiagnosticKind::Indentation => continuing_block,
        DiagnosticKind::Message => {
            if starts_with(d.message.as_str(), INDENTED_BLOCK_MESSAGE) {
                continuing_block
            } else {
                true
            }
        },
        _ => true,
    }
}

/// The verdict for `source`, given what the compiler reported on it
/// (`None`: it compiled), whether the line just typed was empty, and whether
/// a block was already open.
pub fn classify(
    report: Option<&DiagnosticInfo>,
    source: &str,
    had_empty_line: bool,
    continuing_block: bool,
) -> (v: Verdict)
    ensures
        v == verdict_of(
            match report {
                Some(d) => Some(d@),
                None => None,
            },
            source@,
            had_empty_line,
            continuing_block,
        ),
{
    match report {
        None => {
            if had_empty_line || !continuing_block {
                Verdict::Run
            } else {
                Verdict::Hold
            }
        },
        Some(d) => {
            let early = match d.kind {
                DiagnosticKind::EndOfInput | DiagnosticKind::UnterminatedTripleQuote => true,
                DiagnosticKind::UnclosedString => opens_triple_quote(source, d.offset),
                _ => false,
            };
            if early || d.unclosed_bracket {
                Verdict::ContinueLine
            } else if had_empty_line || diagnostic_is_fatal(d, continuing_block) {
                Verdict::Failed
            } else {
                Verdict::ContinueBlock
            }
        },
    }
}

/// What compiling and classifying one unit hands back.
pub enum ExecVerdict {
    /// Run this unit.
    Run(CompiledUnit),
    /// The unit compiled but is held while its block stays open.
    Hold,
    ContinueLine,
    ContinueBlock,
    /// Report this diagnostic.
    Failed(Diagnostic),
}

impl ExecVerdict {
    /// The verdict without its payload.
    pub open spec fn verdict(&self) -> Verdict {
        match self {
            ExecVerdict::Run(_) => Verdict::Run,
            ExecVerdict::Hold => Verdict::Hold,
            ExecVerdict::ContinueLine => Verdict::ContinueLine,
            ExecVerdict::ContinueBlock => Verdict::ContinueBlock,
            ExecVerdict::Failed(_) => Verdict::Failed,
        }
    }

    /// The verdict without its payload.
    pub fn kind(&self) -> (v: Verdict)
        ensures
            v == self.verdict(),
    {
        match self {
            ExecVerdict::Run(_) => Verdict::Run,
            ExecVerdict::Hold => Verdict::Hold,
            ExecVerdict::ContinueLine => Verdict::ContinueLine,
            ExecVerdict::ContinueBlock => Verdict::ContinueBlock,
            ExecVerdict::Failed(_) => Verdict::Failed,
        }
    }
}

/// Compiles `source` as one interactive unit and decides what to do with it.
pub fn shell_exec(
    source: &str,
    settings: CompileSettings,
    had_empty_line: bool,
    continuing_block: bool,
) -> (r: ExecVerdict)
    ensures
        r.verdict() == verdict_of(
            compile_report(source@, settings.optimize, settings.debug_ranges),
            source@,
            had_empty_line,
            continuing_block,
        ),
        r matches ExecVerdict::Failed(d) ==> compile_report(
            source@,
            settings.optimize,
            settings.debug_ranges,
        ) == Some(d.info@),
{
    match compile_interactive(source, settings) {
        Ok(unit) => {
            match classify(None, source, had_empty_line, continuing_block) {
                Verdict::Run => ExecVerdict::Run(unit),
                _ => ExecVerdict::Hold,
            }
        },
        Err(d) => {
            match classify(Some(&d.info), source, had_empty_line, continuing_block) {
                Verdict::ContinueLine => ExecVerdict::ContinueLine,
                Verdict::ContinueBlock => ExecVerdict::ContinueBlock,
                _ => ExecVerdict::Failed(d),
            }
        },
    }
}

} // verus!
