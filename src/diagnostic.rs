//! What the compiler reports when it rejects a unit, in the terms the
//! classifier needs, and the one call into the compiler.
use rustpython_compiler::codegen::CompileOpts;
use rustpython_compiler::parser::{InterpolatedStringErrorType, LexicalErrorType, ParseErrorType};
use rustpython_compiler::{compile, CodeObject, CompileError, Mode};
use vstd::prelude::*;

verus! {

/// The compiler's error, carried through unread so that it can be reported
/// in the compiler's own words.
#[verifier::external_type_specification]
#[verifier::external_body]
pub struct ExCompileError(CompileError);

/// A unit the compiler accepted, ready for the executor. Opaque to proofs:
/// the bytecode type is generic over a trait of the compiler that Verus cannot
/// take as a bound of a declared type.
#[verifier::external_body]
pub struct CompiledUnit {
    pub code: CodeObject,
}

/// The parser's error category, read only to pick a `DiagnosticKind`.
#[verifier::external_type_specification]
#[verifier::external_body]
pub struct ExParseErrorType(ParseErrorType);

/// The category of a compile diagnostic: the only part of it, besides its
/// offset and message, that decides what the shell does next.
#[derive(Clone, Copy, Debug, PartialEq, Eq, Structural)]
pub enum DiagnosticKind {
    /// The lexer ran out of input inside a statement.
    EndOfInput,
    /// An f-string whose triple-quoted literal is still open.
    UnterminatedTripleQuote,
    /// A string literal that is not closed; the lexer gives no further detail.
    UnclosedString,
    /// The indentation does not fit the surrounding block.
    Indentation,
    /// A parse error that carries only a message.
    Message,
    /// Anything else, from the parser or from code generation.
    Unclassified,
}

/// A compile diagnostic as plain values.
pub struct DiagnosticInfo {
    pub kind: DiagnosticKind,
    /// Start of the offending text in the source that was compiled, as the
    /// compiler counts it (in bytes); the triple-quote lookback reads it as a
    /// character position, which is the same for ASCII text.
    pub offset: usize,
    /// The parser's message; empty unless `kind` is `Message`.
    pub message: String,
    /// The compiler reports an unclosed bracket in place of an end of input.
    pub unclosed_bracket: bool,
}

/// The mathematical value of a `DiagnosticInfo`.
pub struct DiagnosticModel {
    pub kind: DiagnosticKind,
    pub offset: nat,
    pub message: Seq<char>,
    pub unclosed_bracket: bool,
}

impl View for DiagnosticInfo {
    type V = DiagnosticModel;

    open spec fn view(&self) -> DiagnosticModel {
        DiagnosticModel {
            kind: self.kind,
            offset: self.offset as nat,
            message: self.message@,
            unclosed_bracket: self.unclosed_bracket,
        }
    }
}

/// A rejected compile: its plain description, and the compiler's own error,
/// kept so that it can be reported as the compiler words it.
pub struct Diagnostic {
    pub info: DiagnosticInfo,
    pub error: CompileError,
}

/// The options a unit is compiled with.
#[derive(Clone, Copy, Debug, PartialEq, Eq, Structural)]
pub struct CompileSettings {
    /// Any value above zero drops assert statements.
    pub optimize: u8,
    /// Keep column information in the bytecode.
    pub debug_ranges: bool,
}

/// What the compiler reports for `source` compiled as one interactive unit
/// under the given options: `None` when it accepts the unit.
pub uninterp spec fn compile_report(source: Seq<char>, optimize: u8, debug_ranges: bool) -> Option<
    DiagnosticModel,
>;

/// Relies on rustpython_compiler::compile in single (interactive) mode: its
/// result depends on the source text and the options alone.
#[verifier::external_body]
pub(crate) fn compile_interactive(source: &str, settings: CompileSettings) -> (r: Result<
    CompiledUnit,
    Diagnostic,
>)
    ensures
        match r {
            Ok(_) => compile_report(source@, settings.optimize, settings.debug_ranges) is None,
            Err(d) => compile_report(source@, settings.optimize, settings.debug_ranges) == Some(
                d.info@,
            ),
        },
{
    let opts = CompileOpts { optimize: settings.optimize, debug_ranges: settings.debug_ranges };
    match compile(source, Mode::Single, "<stdin>", opts) {
        Ok(code) => Ok(CompiledUnit { code }),
        Err(e) => Err(diagnostic_of(e)),
    }
}

/// Relies on the shape of rustpython_compiler::CompileError: reads its
/// category, start offset, message and unclosed-bracket flag, and keeps it.
#[verifier::external_body]
fn diagnostic_of(error: CompileError) -> (d: Diagnostic)
    ensures
        d.error == error,
{
    let (kind, offset, message, unclosed_bracket) = match &error {
        CompileError::Parse(p) => match &p.error {
            ParseErrorType::OtherError(m) => (DiagnosticKind::Message, p.raw_location.start().to_usize(), m.clone(), p.is_unclosed_bracket),
            other => (kind_of(other), p.raw_location.start().to_usize(), String::new(), p.is_unclosed_bracket),
        },
        CompileError::Codegen(_) => (DiagnosticKind::Unclassified, 0, String::new(), false),
    };
    Diagnostic { info: DiagnosticInfo { kind, offset, message, unclosed_bracket }, error }
}

/// Relies on the variants of the parser's ParseErrorType and LexicalErrorType:
/// tells apart the categories the classifier branches on.
#[verifier::external_body]
fn kind_of(error: &ParseErrorType) -> DiagnosticKind {
    match error {
        ParseErrorType::Lexical(LexicalErrorType::Eof) => DiagnosticKind::EndOfInput,
        ParseErrorType::Lexical(LexicalErrorType::FStringError(
            InterpolatedStringErrorType::UnterminatedTripleQuotedString,
        )) => DiagnosticKind::UnterminatedTripleQuote,
        ParseErrorType::Lexical(LexicalErrorType::UnclosedStringError) => DiagnosticKind::UnclosedString,
        ParseErrorType::Lexical(LexicalErrorType::IndentationError) => DiagnosticKind::Indentation,
        _ => DiagnosticKind::Unclassified,
    }
}

} // verus!
