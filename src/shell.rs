//! The state the interactive loop keeps between lines, and how one line,
//! or an interrupt, moves it.
use crate::classify::{
    has_prefix, shell_exec, triple_quote_at, verdict_of, ExecVerdict, Verdict,
    INDENTED_BLOCK_MESSAGE,
};
use crate::diagnostic::{compile_report, CompileSettings, DiagnosticKind, DiagnosticModel};
use vstd::prelude::*;
use vstd::string::StringExecFns;

verus! {

/// Which prompt the loop shows before reading a line.
#[derive(Clone, Copy, Debug, PartialEq, Eq, Structural)]
pub enum Prompt {
    /// Nothing is pending.
    Primary,
    /// A statement or a block is waiting for more lines.
    Secondary,
}

/// The mathematical value of a `ShellState`.
pub struct ShellModel {
    pub buffer: Seq<char>,
    pub continuing_block: bool,
    pub continuing_line: bool,
}

impl ShellModel {
    /// Nothing gathered, nothing pending.
    pub open spec fn fresh() -> ShellModel {
        ShellModel { buffer: Seq::empty(), continuing_block: false, continuing_line: false }
    }

    /// The gathered text is empty or ends with a line break, and a pending
    /// statement or block always has text behind it.
    pub open spec fn wf(self) -> bool {
        &&& (self.buffer.len() == 0 || self.buffer.last() == '\n')
        &&& (self.continuing_block ==> self.buffer.len() > 0)
        &&& (self.continuing_line ==> self.buffer.len() > 0)
    }

    /// The prompt shown in this state.
    pub open spec fn prompt(self) -> Prompt {
        if self.continuing_block || self.continuing_line {
            Prompt::Secondary
        } else {
            Prompt::Primary
        }
    }

    /// The text compiled once `line` has been typed.
    pub open spec fn source_after(self, line: Seq<char>) -> Seq<char> {
        self.buffer + line + seq!['\n']
    }

    /// The state once `line` has been typed and classified as `v`.
    pub open spec fn after(self, line: Seq<char>, v: Verdict) -> ShellModel {
        let source = self.source_after(line);
        match v {
            Verdict::Run | Verdict::Failed => ShellModel::fresh(),
            Verdict::Hold => ShellModel { buffer: source, continuing_line: false, ..self },
            Verdict::ContinueLine => ShellModel { buffer: source, continuing_line: true, ..self },
            Verdict::ContinueBlock => ShellModel {
                buffer: source,
                continuing_block: true,
                continuing_line: false,
            },
        }
    }

    /// The verdict on `line` typed in this state, with the compiler's
    /// report on the resulting text.
    pub open spec fn verdict_on(self, line: Seq<char>, settings: CompileSettings) -> Verdict {
        let source = self.source_after(line);
        verdict_of(
            compile_report(source, settings.optimize, settings.debug_ranges),
            source,
            line.len() == 0,
            self.continuing_block,
        )
    }
}

/// The input gathered since the last unit was run or dropped, and whether a
/// block or a single statement is waiting for more lines.
pub struct ShellState {
    buffer: String,
    continuing_block: bool,
    continuing_line: bool,
}

impl View for ShellState {
    type V = ShellModel;

    closed spec fn view(&self) -> ShellModel {
        ShellModel {
            buffer: self.buffer@,
            continuing_block: self.continuing_block,
            continuing_line: self.continuing_line,
        }
    }
}

impl ShellState {
    pub open spec fn wf(&self) -> bool {
        self@.wf()
    }

    /// A loop that has read nothing yet.
    pub fn new() -> (s: ShellState)
        ensures
            s@ == ShellModel::fresh(),
            s.wf(),
    {
        ShellState { buffer: String::new(), continuing_block: false, continuing_line: false }
    }

    /// The text gathered so far.
    pub fn buffer(&self) -> (r: &str)
        ensures
            r@ == self@.buffer,
    {
        self.buffer.as_str()
    }

    /// Whether a block is open and lines are read until a blank one.
    pub fn continuing_block(&self) -> (r: bool)
        ensures
            r == self@.continuing_block,
    {
        self.continuing_block
    }

    /// Whether one unterminated statement waits for its next line.
    pub fn continuing_line(&self) -> (r: bool)
        ensures
            r == self@.continuing_line,
    {
        self.continuing_line
    }

    /// The prompt to show before reading the next line.
    pub fn prompt(&self) -> (p: Prompt)
        ensures
            p == self@.prompt(),
    {
        if self.continuing_block || self.continuing_line {
            Prompt::Secondary
        } else {
            Prompt::Primary
        }
    }

    /// The text that typing `line` (without its line break) would compile:
    /// what was gathered, then the line and a line break.
    pub fn source_with(&self, line: &str) -> (r: String)
        ensures
            r@ == self@.source_after(line@),
    {
        let mut source = self.buffer.clone();
        source.append(line);
        source.append("\n");
        proof {
            reveal_strlit("\n");
            assert(source@ =~= self@.source_after(line@));
        }
        source
    }

    /// Takes one typed line (without its line break): adds it to the
    /// gathered text, compiles that, and moves to the state the verdict
    /// calls for. The verdict comes back with the unit to run or the
    /// diagnostic to report.
    pub fn push_line(&mut self, line: &str, settings: CompileSettings) -> (r: ExecVerdict)
        requires
            old(self).wf(),
        ensures
            r.verdict() == old(self)@.verdict_on(line@, settings),
            final(self)@ == old(self)@.after(line@, r.verdict()),
            final(self).wf(),
            r matches ExecVerdict::Failed(d) ==> compile_report(
                old(self)@.source_after(line@),
                settings.optimize,
                settings.debug_ranges,
            ) == Some(d.info@),
    {
        let had_empty_line = line.is_empty();
        self.buffer = self.source_with(line);
        let r = shell_exec(self.buffer.as_str(), settings, had_empty_line, self.continuing_block);
        match r.kind() {
            Verdict::Run | Verdict::Failed => {
                self.buffer = String::new();
                self.continuing_block = false;
                self.continuing_line = false;
            },
            Verdict::Hold => {
                self.continuing_line = false;
            },
            Verdict::ContinueLine => {
                self.continuing_line = true;
            },
            Verdict::ContinueBlock => {
                self.continuing_block = true;
                self.continuing_line = false;
            },
        }
        r
    }

    /// The user interrupted the line: drop what was gathered and leave any
    /// block; the loop goes on from a fresh state.
    pub fn interrupt(&mut self)
        ensures
            final(self)@ == ShellModel::fresh(),
            final(self)@.prompt() == Prompt::Primary,
            final(self).wf(),
    {
        self.buffer = String::new();
        self.continuing_block = false;
        self.continuing_line = false;
    }
}

/// A line that compiles on its own, typed with nothing pending, is run at
/// once and leaves nothing gathered.
pub proof fn lemma_fresh_unit_runs(line: Seq<char>, settings: CompileSettings)
    requires
        compile_report(
            ShellModel::fresh().source_after(line),
            settings.optimize,
            settings.debug_ranges,
        ) is None,
    ensures
        ShellModel::fresh().verdict_on(line, settings) == Verdict::Run,
        ShellModel::fresh().after(line, Verdict::Run).buffer.len() == 0,
{
}

/// A string left open by three equal quote characters, or an f-string whose
/// triple-quoted literal is open, asks for one more line, whatever the line
/// was and whether or not a block is open.
pub proof fn lemma_open_triple_quote_continues_line(
    d: DiagnosticModel,
    source: Seq<char>,
    had_empty_line: bool,
    continuing_block: bool,
)
    requires
        d.kind == DiagnosticKind::UnterminatedTripleQuote || (d.kind
            == DiagnosticKind::UnclosedString && triple_quote_at(source, d.offset as int)),
    ensures
        verdict_of(Some(d), source, had_empty_line, continuing_block) == Verdict::ContinueLine,
{
}

/// A block header typed with nothing pending, then a non-empty body line
/// that completes it: the first line opens a block, the second keeps it
/// open, and the gathered text is both lines, each with its line break.
pub proof fn lemma_header_then_body_continue_block(
    header: Seq<char>,
    body: Seq<char>,
    settings: CompileSettings,
)
    requires
        header.len() > 0,
        body.len() > 0,
        compile_report(
            ShellModel::fresh().source_after(header),
            settings.optimize,
            settings.debug_ranges,
        ) matches Some(d) && d.kind == DiagnosticKind::Message && !d.unclosed_bracket
            && has_prefix(d.message, INDENTED_BLOCK_MESSAGE@),
        compile_report(
            header + seq!['\n'] + body + seq!['\n'],
            settings.optimize,
            settings.debug_ranges,
        ) is None,
    ensures
        ({
            let s0 = ShellModel::fresh();
            let s1 = s0.after(header, s0.verdict_on(header, settings));
            let s2 = s1.after(body, s1.verdict_on(body, settings));
            &&& !s0.continuing_block
            &&& s1.continuing_block
            &&& s2.continuing_block
            &&& s2.buffer == header + seq!['\n'] + body + seq!['\n']
        }),
{
    let s0 = ShellModel::fresh();
    assert(s0.source_after(header) =~= header + seq!['\n']);
    let s1 = s0.after(header, s0.verdict_on(header, settings));
    assert(s1.source_after(body) =~= header + seq!['\n'] + body + seq!['\n']);
}

/// A blank line typed inside an open block, when the gathered text
/// compiles, runs it, closes the block and empties the gathered text.
pub proof fn lemma_blank_line_closes_block(s: ShellModel, settings: CompileSettings)
    requires
        s.wf(),
        s.continuing_block,
        compile_report(s.source_after(Seq::empty()), settings.optimize, settings.debug_ranges)
            is None,
    ensures
        s.verdict_on(Seq::empty(), settings) == Verdict::Run,
        !s.after(Seq::empty(), Verdict::Run).continuing_block,
        s.after(Seq::empty(), Verdict::Run).buffer.len() == 0,
{
}

/// An indentation complaint on a non-empty line is never reported before a
/// block has begun, and is reported once inside one.
pub proof fn lemma_indentation_reported_only_in_block(d: DiagnosticModel, source: Seq<char>)
    requires
        d.kind == DiagnosticKind::Indentation,
    ensures
        verdict_of(Some(d), source, false, false) != Verdict::Failed,
        !d.unclosed_bracket ==> verdict_of(Some(d), source, false, true) == Verdict::Failed,
{
}

} // verus!
