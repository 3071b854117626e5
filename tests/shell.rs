use pyrepl::classify::{
    classify, diagnostic_is_fatal, opens_triple_quote, shell_exec, starts_with, ExecVerdict,
    Verdict, INDENTED_BLOCK_MESSAGE,
};
use pyrepl::diagnostic::{CompileSettings, DiagnosticInfo, DiagnosticKind};
use pyrepl::shell::{Prompt, ShellState};

const SETTINGS: CompileSettings = CompileSettings { optimize: 0, debug_ranges: true };

fn info(kind: DiagnosticKind, offset: usize, message: &str) -> DiagnosticInfo {
    DiagnosticInfo { kind, offset, message: message.to_string(), unclosed_bracket: false }
}

fn push(state: &mut ShellState, line: &str) -> Verdict {
    state.push_line(line, SETTINGS).kind()
}

#[test]
fn prefix_test() {
    assert!(starts_with("Expected an indented block after 'if'", INDENTED_BLOCK_MESSAGE));
    assert!(starts_with("abc", ""));
    assert!(starts_with("abc", "abc"));
    assert!(!starts_with("ab", "abc"));
    assert!(!starts_with("invalid syntax", INDENTED_BLOCK_MESSAGE));
}

#[test]
fn triple_quote_lookback() {
    assert!(opens_triple_quote("x = '''abc\n", 4));
    assert!(opens_triple_quote("x = \"\"\"abc\n", 4));
    assert!(!opens_triple_quote("x = 'abc\n", 4));
    assert!(!opens_triple_quote("x = '\"'abc\n", 4));
    assert!(!opens_triple_quote("aaa", 0));
    assert!(!opens_triple_quote("''", 0));
    assert!(!opens_triple_quote("'''", 3));
    assert!(opens_triple_quote("'''", 0));
}

#[test]
fn compiled_unit_runs_or_is_held() {
    assert_eq!(classify(None, "x = 1\n", false, false), Verdict::Run);
    assert_eq!(classify(None, "x = 1\n", true, true), Verdict::Run);
    assert_eq!(classify(None, "x = 1\n", false, true), Verdict::Hold);
}

#[test]
fn end_of_input_continues_line() {
    let d = info(DiagnosticKind::EndOfInput, 3, "");
    assert_eq!(classify(Some(&d), "x =\n", false, false), Verdict::ContinueLine);
    assert_eq!(classify(Some(&d), "x =\n", true, true), Verdict::ContinueLine);
    let mut b = info(DiagnosticKind::Message, 4, "'(' was never closed");
    b.unclosed_bracket = true;
    assert_eq!(classify(Some(&b), "x = (1 +\n", false, false), Verdict::ContinueLine);
}

#[test]
fn open_strings_continue_line() {
    let f = info(DiagnosticKind::UnterminatedTripleQuote, 4, "");
    for (empty, block) in [(false, false), (false, true), (true, false), (true, true)] {
        assert_eq!(classify(Some(&f), "x = f'''a\n", empty, block), Verdict::ContinueLine);
    }
    let s = info(DiagnosticKind::UnclosedString, 4, "");
    for (empty, block) in [(false, false), (false, true), (true, false), (true, true)] {
        assert_eq!(classify(Some(&s), "x = '''a\n", empty, block), Verdict::ContinueLine);
        assert_eq!(classify(Some(&s), "x = \"\"\"a\n", empty, block), Verdict::ContinueLine);
    }
    assert_eq!(classify(Some(&s), "x = 'a\n", false, false), Verdict::Failed);
}

#[test]
fn indentation_reported_only_inside_block() {
    let d = info(DiagnosticKind::Indentation, 0, "");
    assert_eq!(classify(Some(&d), "  x\n", false, false), Verdict::ContinueBlock);
    assert_eq!(classify(Some(&d), "  x\n", false, true), Verdict::Failed);
    assert_eq!(classify(Some(&d), "  x\n", true, false), Verdict::Failed);
    assert!(!diagnostic_is_fatal(&d, false));
    assert!(diagnostic_is_fatal(&d, true));
}

#[test]
fn missing_block_message_is_noise_before_block() {
    let d = info(DiagnosticKind::Message, 9, "Expected an indented block after 'if' statement");
    assert_eq!(classify(Some(&d), "if True:\n", false, false), Verdict::ContinueBlock);
    assert_eq!(classify(Some(&d), "if True:\n", false, true), Verdict::Failed);
    assert_eq!(classify(Some(&d), "if True:\n", true, false), Verdict::Failed);
    let other = info(DiagnosticKind::Message, 0, "invalid syntax");
    assert_eq!(classify(Some(&other), "x x\n", false, false), Verdict::Failed);
    assert!(diagnostic_is_fatal(&other, false));
    let u = info(DiagnosticKind::Unclassified, 0, "");
    assert_eq!(classify(Some(&u), "x\n", false, false), Verdict::Failed);
}

#[test]
fn shell_exec_uses_the_compiler() {
    assert!(matches!(shell_exec("x = 1\n", SETTINGS, false, false), ExecVerdict::Run(_)));
    assert!(matches!(shell_exec("x = 1\n", SETTINGS, false, true), ExecVerdict::Hold));
    assert!(matches!(shell_exec("x = = 1\n", SETTINGS, false, false), ExecVerdict::Failed(_)));
    assert!(matches!(shell_exec("x = '''abc\n", SETTINGS, false, true), ExecVerdict::ContinueLine));
    assert!(matches!(shell_exec("if True:\n", SETTINGS, false, false), ExecVerdict::ContinueBlock));
}

#[test]
fn fresh_statement_runs_and_clears() {
    let mut s = ShellState::new();
    assert_eq!(s.prompt(), Prompt::Primary);
    assert_eq!(push(&mut s, "x = 1"), Verdict::Run);
    assert_eq!(s.buffer(), "");
    assert!(!s.continuing_block());
    assert_eq!(s.prompt(), Prompt::Primary);
}

#[test]
fn invalid_statement_fails_and_clears() {
    let mut s = ShellState::new();
    assert!(matches!(s.push_line("x = = 1", SETTINGS), ExecVerdict::Failed(_)));
    assert_eq!(s.buffer(), "");
    assert_eq!(s.prompt(), Prompt::Primary);
}

#[test]
fn open_triple_quote_asks_for_another_line() {
    let mut s = ShellState::new();
    assert_eq!(push(&mut s, "s = '''abc"), Verdict::ContinueLine);
    assert!(s.continuing_line());
    assert_eq!(s.prompt(), Prompt::Secondary);
    assert_eq!(push(&mut s, "def'''"), Verdict::Run);
    assert_eq!(s.buffer(), "");
}

#[test]
fn block_header_then_body_keeps_block() {
    let mut s = ShellState::new();
    assert_eq!(push(&mut s, "if True:"), Verdict::ContinueBlock);
    assert!(s.continuing_block());
    assert_eq!(s.buffer(), "if True:\n");
    assert_eq!(push(&mut s, "    x = 1"), Verdict::Hold);
    assert!(s.continuing_block());
    assert_eq!(s.buffer(), "if True:\n    x = 1\n");
    assert_eq!(s.prompt(), Prompt::Secondary);
}

#[test]
fn blank_line_completes_block() {
    let mut s = ShellState::new();
    let verdicts = [push(&mut s, "if True:"), push(&mut s, "    x = 1"), push(&mut s, "")];
    assert_eq!(verdicts, [Verdict::ContinueBlock, Verdict::Hold, Verdict::Run]);
    assert_eq!(verdicts.iter().filter(|v| **v == Verdict::Run).count(), 1);
    assert!(!s.continuing_block());
    assert_eq!(s.buffer(), "");
    assert_eq!(s.prompt(), Prompt::Primary);
}

#[test]
fn bad_indentation_inside_block_is_reported() {
    let mut s = ShellState::new();
    assert_eq!(push(&mut s, "if True:"), Verdict::ContinueBlock);
    assert_eq!(push(&mut s, "    x = 1"), Verdict::Hold);
    assert_eq!(push(&mut s, "        y = 2"), Verdict::Failed);
    assert!(!s.continuing_block());
    assert_eq!(s.buffer(), "");
}

#[test]
fn open_bracket_continues_line_not_block() {
    let mut s = ShellState::new();
    assert_eq!(push(&mut s, "x = (1 +"), Verdict::ContinueLine);
    assert!(!s.continuing_block());
    assert!(s.continuing_line());
    assert_eq!(s.buffer(), "x = (1 +\n");
    assert_eq!(push(&mut s, "1)"), Verdict::Run);
    assert!(!s.continuing_block());
    assert!(!s.continuing_line());
    assert_eq!(s.buffer(), "");
}

#[test]
fn interrupt_resets_any_state() {
    let mut s = ShellState::new();
    push(&mut s, "if True:");
    push(&mut s, "    x = 1");
    assert_eq!(s.prompt(), Prompt::Secondary);
    s.interrupt();
    assert!(!s.continuing_block());
    assert!(!s.continuing_line());
    assert_eq!(s.buffer(), "");
    assert_eq!(s.prompt(), Prompt::Primary);
    assert_eq!(push(&mut s, "x = 2"), Verdict::Run);
    let mut t = ShellState::new();
    push(&mut t, "x = (1 +");
    t.interrupt();
    assert_eq!(t.prompt(), Prompt::Primary);
    assert_eq!(t.buffer(), "");
}
