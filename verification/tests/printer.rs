use ast_grep_config::{from_yaml_string, GlobalRules, RuleConfig};
use ast_grep_core::tree_sitter::{LanguageExt, StrDoc};
use ast_grep_core::{AstGrep, Pattern};
use ast_grep_language::SupportLang;
use codespan_reporting::files::SimpleFile;
use sg_print::printer::Shown;
use sg_print::{
    Batch, Call, Diff, MatchedNode, Printer, Recorder, RecorderFull, RuleHandle, SearchPattern,
};
use std::borrow::Cow;
use std::path::Path;

/// Writes one line for each item it is shown, and one for each hook.
struct Lines {
    lines: Vec<String>,
    fail_at: Option<usize>,
}

impl Lines {
    fn new() -> Self {
        Lines { lines: Vec::new(), fail_at: None }
    }

    fn failing_at(count: usize) -> Self {
        Lines { lines: Vec::new(), fail_at: Some(count) }
    }

    fn push(&mut self, line: String) -> Result<(), String> {
        if self.fail_at == Some(self.lines.len()) {
            return Err(format!("cannot write line {}", self.lines.len()));
        }
        self.lines.push(line);
        Ok(())
    }
}

impl Printer for Lines {
    type Error = String;

    fn rendered(&self) -> Shown {
        unreachable!()
    }

    fn print_rule<'a, I: Iterator<Item = MatchedNode<'a>>>(
        &mut self,
        matches: I,
        file: SimpleFile<Cow<'a, str>, &'a String>,
        rule: RuleHandle<'a>,
    ) -> Result<(), String> {
        for m in matches {
            let message = rule.inner.get_message(&m.inner);
            self.push(format!(
                "{}: [{}] {}: {}",
                file.name(),
                rule.inner.id,
                message,
                m.inner.text()
            ))?;
        }
        Ok(())
    }

    fn print_matches<'a, I: Iterator<Item = MatchedNode<'a>>>(
        &mut self,
        matches: I,
        path: &Path,
    ) -> Result<(), String> {
        for m in matches {
            self.push(format!("{}: {}", path.display(), m.inner.text()))?;
        }
        Ok(())
    }

    fn print_diffs<'a, I: Iterator<Item = Diff<'a>>>(
        &mut self,
        diffs: I,
        path: &Path,
    ) -> Result<(), String> {
        for d in diffs {
            self.push(format!("{}: {} -> {}", path.display(), d.node_match.inner.text(), d.replacement))?;
        }
        Ok(())
    }

    fn print_rule_diffs<'a, I: Iterator<Item = Diff<'a>>>(
        &mut self,
        diffs: I,
        path: &Path,
        rule: RuleHandle<'a>,
    ) -> Result<(), String> {
        for d in diffs {
            self.push(format!(
                "{}: [{}] {} -> {}",
                path.display(),
                rule.inner.id,
                d.node_match.inner.text(),
                d.replacement
            ))?;
        }
        Ok(())
    }

    fn before_print(&mut self) -> Result<(), String> {
        self.push(String::from("<"))
    }

    fn after_print(&mut self) -> Result<(), String> {
        self.push(String::from(">"))
    }
}

/// Counts what it is shown and leaves the hooks as they are.
struct Counter {
    shown: usize,
}

impl Printer for Counter {
    type Error = String;

    fn rendered(&self) -> Shown {
        unreachable!()
    }

    fn print_rule<'a, I: Iterator<Item = MatchedNode<'a>>>(
        &mut self,
        matches: I,
        _file: SimpleFile<Cow<'a, str>, &'a String>,
        _rule: RuleHandle<'a>,
    ) -> Result<(), String> {
        self.shown += matches.count();
        Ok(())
    }

    fn print_matches<'a, I: Iterator<Item = MatchedNode<'a>>>(
        &mut self,
        matches: I,
        _path: &Path,
    ) -> Result<(), String> {
        self.shown += matches.count();
        Ok(())
    }

    fn print_diffs<'a, I: Iterator<Item = Diff<'a>>>(
        &mut self,
        diffs: I,
        _path: &Path,
    ) -> Result<(), String> {
        self.shown += diffs.count();
        Ok(())
    }

    fn print_rule_diffs<'a, I: Iterator<Item = Diff<'a>>>(
        &mut self,
        diffs: I,
        _path: &Path,
        _rule: RuleHandle<'a>,
    ) -> Result<(), String> {
        self.shown += diffs.count();
        Ok(())
    }
}

fn parse(source: &str) -> AstGrep<StrDoc<SupportLang>> {
    SupportLang::JavaScript.ast_grep(source)
}

fn pattern(source: &str) -> Pattern {
    Pattern::new(source, SupportLang::JavaScript)
}

fn matches_of<'t>(
    tree: &'t AstGrep<StrDoc<SupportLang>>,
    matcher: &'t Pattern,
) -> impl Iterator<Item = MatchedNode<'t>> {
    let found: Vec<MatchedNode<'t>> =
        tree.root().find_all(matcher).map(|inner| MatchedNode { inner }).collect();
    found.into_iter()
}

fn diffs_of<'t>(
    tree: &'t AstGrep<StrDoc<SupportLang>>,
    matcher: &'t Pattern,
    rewrite: &'t str,
) -> impl Iterator<Item = Diff<'t>> {
    let search = SearchPattern::try_new("f($X)", SupportLang::JavaScript)
        .ok()
        .expect("the pattern is well formed");
    matches_of(tree, matcher).map(move |m| Diff::generate(m, &search, rewrite))
}

fn no_call_rule() -> RuleConfig<SupportLang> {
    let yaml = "
id: no-call
message: do not call f
severity: warning
language: JavaScript
rule:
  pattern: f($X)
fix: g($X)
";
    let mut rules = from_yaml_string::<SupportLang>(yaml, &GlobalRules::default())
        .expect("the rule is well formed");
    assert_eq!(rules.len(), 1);
    rules.remove(0)
}

#[test]
fn matches_are_shown_in_the_order_they_are_yielded() {
    let tree = parse("f(1); f(2); f(3);");
    let matcher = pattern("f($X)");
    let mut printer = Lines::new();
    let result = printer.print_matches(matches_of(&tree, &matcher), Path::new("a.js"));
    assert_eq!(result, Ok(()));
    assert_eq!(printer.lines, vec!["a.js: f(1)", "a.js: f(2)", "a.js: f(3)"]);
}

#[test]
fn reversed_input_is_shown_reversed() {
    let tree = parse("f(1); f(2); f(3);");
    let matcher = pattern("f($X)");
    let backwards: Vec<MatchedNode> = {
        let mut all: Vec<MatchedNode> = matches_of(&tree, &matcher).collect();
        all.reverse();
        all
    };
    let mut printer = Lines::new();
    let result = printer.print_matches(backwards.into_iter(), Path::new("a.js"));
    assert_eq!(result, Ok(()));
    assert_eq!(printer.lines, vec!["a.js: f(3)", "a.js: f(2)", "a.js: f(1)"]);
}

#[test]
fn diffs_are_shown_in_the_order_they_are_yielded() {
    let tree = parse("f(1); f(2); f(3);");
    let matcher = pattern("f($X)");
    let mut printer = Lines::new();
    let result = printer.print_diffs(diffs_of(&tree, &matcher, "g($X, 0)"), Path::new("a.js"));
    assert_eq!(result, Ok(()));
    assert_eq!(
        printer.lines,
        vec!["a.js: f(1) -> g(1, 0)", "a.js: f(2) -> g(2, 0)", "a.js: f(3) -> g(3, 0)"]
    );
}

#[test]
fn rule_matches_carry_the_rule() {
    let source = String::from("f(1); h(2); f(3);");
    let tree = parse(&source);
    let rule = no_call_rule();
    let matcher = pattern("f($X)");
    let file = SimpleFile::new(Cow::Borrowed("lib/a.js"), &source);
    let mut printer = Lines::new();
    let result =
        printer.print_rule(matches_of(&tree, &matcher), file, RuleHandle { inner: &rule });
    assert_eq!(result, Ok(()));
    assert_eq!(
        printer.lines,
        vec!["lib/a.js: [no-call] do not call f: f(1)", "lib/a.js: [no-call] do not call f: f(3)"]
    );
}

#[test]
fn rule_diffs_carry_the_rule() {
    let tree = parse("f(1); f(2);");
    let rule = no_call_rule();
    let matcher = pattern("f($X)");
    let mut printer = Lines::new();
    let result = printer.print_rule_diffs(
        diffs_of(&tree, &matcher, "g($X)"),
        Path::new("a.js"),
        RuleHandle { inner: &rule },
    );
    assert_eq!(result, Ok(()));
    assert_eq!(printer.lines, vec!["a.js: [no-call] f(1) -> g(1)", "a.js: [no-call] f(2) -> g(2)"]);
}

#[test]
fn empty_input_succeeds_and_shows_nothing() {
    let source = String::from("h(1);");
    let tree = parse(&source);
    let rule = no_call_rule();
    let matcher = pattern("f($X)");
    let mut printer = Lines::new();
    printer.lines.push(String::from("earlier"));

    let file = SimpleFile::new(Cow::Borrowed("a.js"), &source);
    assert_eq!(printer.print_rule(matches_of(&tree, &matcher), file, RuleHandle { inner: &rule }), Ok(()));
    assert_eq!(printer.print_matches(matches_of(&tree, &matcher), Path::new("a.js")), Ok(()));
    assert_eq!(printer.print_diffs(diffs_of(&tree, &matcher, "g($X)"), Path::new("a.js")), Ok(()));
    assert_eq!(
        printer.print_rule_diffs(
            diffs_of(&tree, &matcher, "g($X)"),
            Path::new("a.js"),
            RuleHandle { inner: &rule }
        ),
        Ok(())
    );
    assert_eq!(printer.lines, vec!["earlier"]);
}

#[test]
fn empty_input_succeeds_where_a_write_would_fail() {
    let tree = parse("h(1);");
    let matcher = pattern("f($X)");
    let mut printer = Lines::failing_at(0);
    assert_eq!(printer.print_matches(matches_of(&tree, &matcher), Path::new("a.js")), Ok(()));
    assert!(printer.lines.is_empty());
}

#[test]
fn a_failure_is_returned_and_what_was_shown_is_a_prefix() {
    let tree = parse("f(1); f(2); f(3);");
    let matcher = pattern("f($X)");
    let mut printer = Lines::failing_at(2);
    let result = printer.print_matches(matches_of(&tree, &matcher), Path::new("a.js"));
    assert_eq!(result, Err(String::from("cannot write line 2")));
    assert_eq!(printer.lines, vec!["a.js: f(1)", "a.js: f(2)"]);
}

#[test]
fn two_calls_show_what_one_call_with_both_inputs_shows() {
    let first = parse("f(1); f(2);");
    let second = parse("f(3);");
    let matcher = pattern("f($X)");

    let mut in_two = Lines::new();
    assert_eq!(in_two.print_matches(matches_of(&first, &matcher), Path::new("a.js")), Ok(()));
    assert_eq!(in_two.print_matches(matches_of(&second, &matcher), Path::new("a.js")), Ok(()));

    let mut in_one = Lines::new();
    let both = matches_of(&first, &matcher).chain(matches_of(&second, &matcher));
    assert_eq!(in_one.print_matches(both, Path::new("a.js")), Ok(()));

    assert_eq!(in_two.lines, in_one.lines);
    assert_eq!(in_one.lines, vec!["a.js: f(1)", "a.js: f(2)", "a.js: f(3)"]);
}

#[test]
fn default_hooks_succeed_and_change_nothing() {
    let mut printer = Counter { shown: 7 };
    assert_eq!(printer.before_print(), Ok(()));
    assert_eq!(printer.shown, 7);
    assert_eq!(printer.after_print(), Ok(()));
    assert_eq!(printer.shown, 7);
}

#[test]
fn a_renderer_without_hooks_still_shows_its_input() {
    let tree = parse("f(1); f(2); f(3);");
    let matcher = pattern("f($X)");
    let mut printer = Counter { shown: 0 };
    assert_eq!(printer.before_print(), Ok(()));
    assert_eq!(printer.print_matches(matches_of(&tree, &matcher), Path::new("a.js")), Ok(()));
    assert_eq!(printer.print_diffs(diffs_of(&tree, &matcher, "g($X)"), Path::new("a.js")), Ok(()));
    assert_eq!(printer.after_print(), Ok(()));
    assert_eq!(printer.shown, 6);
}

#[test]
fn hooks_enclose_a_batch_of_three_calls() {
    let tree = parse("f(1); f(2);");
    let matcher = pattern("f($X)");
    let mut printer = Lines::new();
    assert_eq!(printer.before_print(), Ok(()));
    for path in ["a.js", "b.js", "c.js"] {
        assert_eq!(printer.print_matches(matches_of(&tree, &matcher), Path::new(path)), Ok(()));
    }
    assert_eq!(printer.after_print(), Ok(()));
    assert_eq!(
        printer.lines,
        vec![
            "<",
            "a.js: f(1)",
            "a.js: f(2)",
            "b.js: f(1)",
            "b.js: f(2)",
            "c.js: f(1)",
            "c.js: f(2)",
            ">"
        ]
    );
    assert_eq!(printer.lines.iter().filter(|line| *line == "<").count(), 1);
    assert_eq!(printer.lines.iter().filter(|line| *line == ">").count(), 1);
}

#[test]
fn hooks_enclose_an_empty_batch() {
    let mut printer = Lines::new();
    assert_eq!(printer.before_print(), Ok(()));
    assert_eq!(printer.after_print(), Ok(()));
    assert_eq!(printer.lines, vec!["<", ">"]);
}

#[test]
fn a_failing_hook_is_returned() {
    let mut printer = Lines::failing_at(0);
    assert_eq!(printer.before_print(), Err(String::from("cannot write line 0")));
    assert!(printer.lines.is_empty());
}

#[test]
fn a_batch_calls_each_hook_once_around_three_print_calls() {
    let tree = parse("f(1); f(2);");
    let matcher = pattern("f($X)");
    let mut batch = Batch::begin(Lines::new()).ok().expect("the first hook succeeds");
    for path in ["a.js", "b.js", "c.js"] {
        assert_eq!(batch.print_matches(matches_of(&tree, &matcher), Path::new(path)), Ok(()));
    }
    let (printer, result) = batch.finish();
    assert_eq!(result, Ok(()));
    assert_eq!(
        printer.lines,
        vec![
            "<",
            "a.js: f(1)",
            "a.js: f(2)",
            "b.js: f(1)",
            "b.js: f(2)",
            "c.js: f(1)",
            "c.js: f(2)",
            ">"
        ]
    );
}

#[test]
fn a_batch_of_every_kind_of_print_call_shows_them_in_call_order() {
    let source = String::from("f(1);");
    let tree = parse(&source);
    let rule = no_call_rule();
    let matcher = pattern("f($X)");
    let mut batch = Batch::begin(Lines::new()).ok().expect("the first hook succeeds");
    let file = SimpleFile::new(Cow::Borrowed("a.js"), &source);
    assert_eq!(batch.print_rule(matches_of(&tree, &matcher), file, RuleHandle { inner: &rule }), Ok(()));
    assert_eq!(batch.print_matches(matches_of(&tree, &matcher), Path::new("a.js")), Ok(()));
    assert_eq!(batch.print_diffs(diffs_of(&tree, &matcher, "g($X)"), Path::new("a.js")), Ok(()));
    assert_eq!(
        batch.print_rule_diffs(
            diffs_of(&tree, &matcher, "g($X)"),
            Path::new("a.js"),
            RuleHandle { inner: &rule }
        ),
        Ok(())
    );
    let (printer, result) = batch.finish();
    assert_eq!(result, Ok(()));
    assert_eq!(
        printer.lines,
        vec![
            "<",
            "a.js: [no-call] do not call f: f(1)",
            "a.js: f(1)",
            "a.js: f(1) -> g(1)",
            "a.js: [no-call] f(1) -> g(1)",
            ">"
        ]
    );
}

#[test]
fn an_empty_batch_calls_each_hook_once() {
    let batch = Batch::begin(Lines::new()).ok().expect("the first hook succeeds");
    let (printer, result) = batch.finish();
    assert_eq!(result, Ok(()));
    assert_eq!(printer.lines, vec!["<", ">"]);
}

#[test]
fn a_batch_does_not_begin_where_the_first_hook_fails() {
    let (printer, error) =
        Batch::begin(Lines::failing_at(0)).err().expect("the first hook fails");
    assert_eq!(error, "cannot write line 0");
    assert!(printer.lines.is_empty());
}

#[test]
fn a_batch_ends_with_the_second_hook_after_a_failed_print_call() {
    let tree = parse("f(1); f(2);");
    let matcher = pattern("f($X)");
    let mut batch = Batch::begin(Lines::failing_at(2)).ok().expect("the first hook succeeds");
    assert_eq!(
        batch.print_matches(matches_of(&tree, &matcher), Path::new("a.js")),
        Err(String::from("cannot write line 2"))
    );
    let (printer, result) = batch.finish();
    assert_eq!(result, Err(String::from("cannot write line 2")));
    assert_eq!(printer.lines, vec!["<", "a.js: f(1)"]);
}

#[test]
fn a_batch_on_a_renderer_without_hooks_begins_and_ends() {
    let tree = parse("f(1); f(2); f(3);");
    let matcher = pattern("f($X)");
    let mut batch = Batch::begin(Counter { shown: 0 }).ok().expect("the hook does nothing");
    assert_eq!(batch.print_matches(matches_of(&tree, &matcher), Path::new("a.js")), Ok(()));
    let (printer, result) = batch.finish();
    assert_eq!(result, Ok(()));
    assert_eq!(printer.shown, 3);
}

#[test]
fn the_recorder_logs_a_batch_of_three_print_calls_between_the_hooks() {
    let tree = parse("f(1); f(2);");
    let matcher = pattern("f($X)");
    let mut batch = Batch::begin(Recorder::new(100)).ok().expect("the first hook succeeds");
    for path in ["a.js", "b.js", "c.js"] {
        assert_eq!(batch.print_matches(matches_of(&tree, &matcher), Path::new(path)), Ok(()));
    }
    let (recorder, result) = batch.finish();
    assert_eq!(result, Ok(()));
    assert_eq!(
        recorder.calls,
        vec![Call::BeforePrint, Call::Print, Call::Print, Call::Print, Call::AfterPrint]
    );
    assert_eq!(recorder.taken, 6);
    assert_eq!(recorder.calls.iter().filter(|call| **call == Call::BeforePrint).count(), 1);
    assert_eq!(recorder.calls.iter().filter(|call| **call == Call::AfterPrint).count(), 1);
}

#[test]
fn the_recorder_logs_an_empty_batch_as_the_two_hooks() {
    let batch = Batch::begin(Recorder::new(0)).ok().expect("the first hook succeeds");
    let (recorder, result) = batch.finish();
    assert_eq!(result, Ok(()));
    assert_eq!(recorder.calls, vec![Call::BeforePrint, Call::AfterPrint]);
    assert_eq!(recorder.taken, 0);
}

#[test]
fn the_recorder_logs_every_kind_of_print_call() {
    let source = String::from("f(1); f(2);");
    let tree = parse(&source);
    let rule = no_call_rule();
    let matcher = pattern("f($X)");
    let mut recorder = Recorder::new(100);
    let file = SimpleFile::new(Cow::Borrowed("a.js"), &source);
    assert_eq!(recorder.print_rule(matches_of(&tree, &matcher), file, RuleHandle { inner: &rule }), Ok(()));
    assert_eq!(recorder.print_matches(matches_of(&tree, &matcher), Path::new("a.js")), Ok(()));
    assert_eq!(recorder.print_diffs(diffs_of(&tree, &matcher, "g($X)"), Path::new("a.js")), Ok(()));
    assert_eq!(
        recorder.print_rule_diffs(
            diffs_of(&tree, &matcher, "g($X)"),
            Path::new("a.js"),
            RuleHandle { inner: &rule }
        ),
        Ok(())
    );
    assert_eq!(recorder.calls, vec![Call::Print, Call::Print, Call::Print, Call::Print]);
    assert_eq!(recorder.taken, 8);
    assert_eq!(recorder.room, 100);
}

#[test]
fn the_recorder_takes_empty_input_without_room() {
    let tree = parse("h(1);");
    let matcher = pattern("f($X)");
    let mut recorder = Recorder::new(0);
    assert_eq!(recorder.print_matches(matches_of(&tree, &matcher), Path::new("a.js")), Ok(()));
    assert_eq!(recorder.calls, vec![Call::Print]);
    assert_eq!(recorder.taken, 0);
}

#[test]
fn the_recorder_fails_a_print_call_that_brings_more_than_it_has_room_for() {
    let tree = parse("f(1); f(2); f(3);");
    let matcher = pattern("f($X)");
    let mut recorder = Recorder::new(2);
    assert_eq!(
        recorder.print_matches(matches_of(&tree, &matcher), Path::new("a.js")),
        Err(RecorderFull)
    );
    assert_eq!(recorder.taken, 2);
    assert_eq!(recorder.calls, vec![Call::Print]);

    let mut exact = Recorder::new(3);
    assert_eq!(exact.print_matches(matches_of(&tree, &matcher), Path::new("a.js")), Ok(()));
    assert_eq!(exact.taken, 3);
}
