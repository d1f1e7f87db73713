use php_sasso::codes::{CompileError, InputSyntax, Style};
use php_sasso::compiler::{
    finish_compile, CompileSettings, Compiled, Compiler, ImportRoute, ImporterArg, ImporterRejected,
    RunOutcome,
};

fn paths(items: &[&str]) -> Vec<String> {
    items.iter().map(|s| s.to_string()).collect()
}

#[test]
fn new_compiler_has_the_defaults() {
    let c: Compiler<u32> = Compiler::new();
    assert_eq!(c.style(), 0);
    assert_eq!(c.syntax(), 0);
    assert!(c.unicode());
    assert_eq!(c.url(), None);
    assert!(c.import_paths().is_empty());
    assert_eq!(c.importer(), None);
    let d: Compiler<u32> = Compiler::default();
    assert_eq!(d.style(), 0);
    assert!(d.unicode());
}

#[test]
fn setters_chain_and_change_only_their_option() {
    let mut c: Compiler<u32> = Compiler::new();
    c.set_style(1).set_syntax(2).set_unicode(false).set_url(Some("app.scss".to_string()));
    assert_eq!(c.style(), 1);
    assert_eq!(c.syntax(), 2);
    assert!(!c.unicode());
    assert_eq!(c.url(), Some("app.scss"));
    assert!(c.import_paths().is_empty());
    c.set_url(None);
    assert_eq!(c.url(), None);
    assert_eq!(c.style(), 1);
}

#[test]
fn out_of_range_codes_are_accepted_by_the_setters() {
    let mut c: Compiler<u32> = Compiler::new();
    c.set_style(42).set_syntax(-3);
    assert_eq!(c.style(), 42);
    assert_eq!(c.syntax(), -3);
}

#[test]
fn import_paths_append_and_replace() {
    let mut c: Compiler<u32> = Compiler::new();
    c.add_import_path("a".to_string()).add_import_path("b".to_string());
    assert_eq!(c.import_paths(), &paths(&["a", "b"]));
    c.set_import_paths(paths(&["x"]));
    assert_eq!(c.import_paths(), &paths(&["x"]));
    c.set_import_paths(Vec::new());
    assert!(c.import_paths().is_empty());
}

#[test]
fn set_importer_sets_clears_and_rejects() {
    let mut c: Compiler<u32> = Compiler::new();
    assert!(c.set_importer(ImporterArg::Importer(7)).is_ok());
    assert_eq!(c.importer(), Some(&7));
    let rejected = c.set_importer(ImporterArg::NotAnImporter).err();
    assert_eq!(rejected, Some(ImporterRejected));
    assert_eq!(c.importer(), Some(&7));
    assert!(c.set_importer(ImporterArg::Null).is_ok());
    assert_eq!(c.importer(), None);
}

#[test]
fn set_importer_result_chains() {
    let mut c: Compiler<u32> = Compiler::new();
    c.set_importer(ImporterArg::Importer(3)).unwrap().set_style(1);
    assert_eq!(c.style(), 1);
    assert_eq!(c.importer(), Some(&3));
}

#[test]
fn rejected_importer_message() {
    assert_eq!(ImporterRejected.message(), "Sasso: importer must implement Sasso\\Importer");
}

#[test]
fn plan_without_importer_or_paths_resolves_nothing() {
    let c: Compiler<u32> = Compiler::new();
    let plan = c.plan().unwrap();
    assert_eq!(
        plan.settings,
        CompileSettings { style: Style::Expanded, syntax: InputSyntax::Scss, unicode: true, url: None }
    );
    assert_eq!(plan.route, ImportRoute::Unresolved);
}

#[test]
fn plan_with_paths_uses_the_filesystem() {
    let mut c: Compiler<u32> = Compiler::new();
    c.add_import_path("scss".to_string()).set_url(Some("in.scss".to_string())).set_syntax(1);
    let plan = c.plan().unwrap();
    assert_eq!(plan.route, ImportRoute::LoadPaths(paths(&["scss"])));
    assert_eq!(plan.settings.url, Some("in.scss".to_string()));
    assert_eq!(plan.settings.syntax, InputSyntax::Sass);
}

#[test]
fn plan_with_importer_uses_paths_as_fallback() {
    let mut c: Compiler<u32> = Compiler::new();
    c.set_importer(ImporterArg::Importer(1)).unwrap();
    assert_eq!(c.plan().unwrap().route, ImportRoute::UserImporter(None));
    c.add_import_path("lib".to_string());
    assert_eq!(c.plan().unwrap().route, ImportRoute::UserImporter(Some(paths(&["lib"]))));
}

#[test]
fn plan_checks_style_before_syntax() {
    let mut c: Compiler<u32> = Compiler::new();
    c.set_style(9).set_syntax(9);
    assert_eq!(c.plan().err(), Some(CompileError::InvalidStyle(9)));
    c.set_style(1);
    assert_eq!(c.plan().err(), Some(CompileError::InvalidSyntax(9)));
}

#[test]
fn compile_expanded() {
    let c: Compiler<u32> = Compiler::new();
    let out = c.compile(".a { color: red; }").unwrap();
    assert_eq!(out, Compiled::Css(".a {\n  color: red;\n}".to_string()));
}

#[test]
fn compile_compressed() {
    let mut c: Compiler<u32> = Compiler::new();
    c.set_style(1);
    let out = c.compile(".a { color: red; &:hover { color: blue; } }").unwrap();
    assert_eq!(out, Compiled::Css(".a{color:red}.a:hover{color:blue}".to_string()));
}

#[test]
fn compile_indented_syntax() {
    let mut c: Compiler<u32> = Compiler::new();
    c.set_syntax(1);
    let out = c.compile(".a\n  color: red").unwrap();
    assert_eq!(out, Compiled::Css(".a {\n  color: red;\n}".to_string()));
}

#[test]
fn compile_reports_invalid_codes() {
    let mut c: Compiler<u32> = Compiler::new();
    c.set_style(5);
    assert_eq!(c.compile(".a{}").err(), Some(CompileError::InvalidStyle(5)));
    c.set_style(0).set_syntax(4);
    let err = c.compile(".a{}").err().unwrap();
    assert_eq!(err, CompileError::InvalidSyntax(4));
    assert_eq!(
        err.message(),
        "Sasso: invalid syntax 4; expected Compiler::SYNTAX_SCSS, SYNTAX_SASS or SYNTAX_CSS"
    );
}

#[test]
fn compile_reports_a_parse_error() {
    let c: Compiler<u32> = Compiler::new();
    match c.compile(".a { color: ") {
        Err(CompileError::Failed(e)) => {
            assert_eq!(e.message, "Error: Expected expression. (1:13)")
        },
        other => panic!("unexpected {:?}", other),
    }
}

#[test]
fn compile_error_with_url_renders_a_snippet() {
    let mut c: Compiler<u32> = Compiler::new();
    c.set_url(Some("input.scss".to_string()));
    match c.compile(".a { color: ") {
        Err(CompileError::Failed(e)) => assert_eq!(
            e.message,
            "Error: Expected expression.\n  ╷\n1 │ .a { color: \n  │             ^\n  ╵\n  input.scss 1:13  root stylesheet"
        ),
        other => panic!("unexpected {:?}", other),
    }
}

#[test]
fn compile_with_user_importer_hands_back_the_plan() {
    let mut c: Compiler<u32> = Compiler::new();
    c.add_import_path("p".to_string());
    c.set_importer(ImporterArg::Importer(5)).unwrap();
    match c.compile("@use \"base\";") {
        Ok(Compiled::NeedsImporter(plan)) => {
            assert_eq!(plan.route, ImportRoute::UserImporter(Some(paths(&["p"]))));
        },
        other => panic!("unexpected {:?}", other),
    }
}

#[test]
fn compile_with_load_paths_compiles() {
    let mut c: Compiler<u32> = Compiler::new();
    c.add_import_path("no-such-directory".to_string()).set_style(1);
    let out = c.compile(".a { color: red; }").unwrap();
    assert_eq!(out, Compiled::Css(".a{color:red}".to_string()));
}

#[test]
fn compile_with_load_paths_reports_a_missing_stylesheet() {
    let mut c: Compiler<u32> = Compiler::new();
    c.add_import_path("no-such-directory".to_string());
    match c.compile("@use \"missing\";") {
        Err(CompileError::Failed(e)) => assert!(e.message.starts_with("Error: "), "{}", e.message),
        other => panic!("unexpected {:?}", other),
    }
}

#[test]
fn compile_error_in_ascii_has_no_box_drawing() {
    let mut c: Compiler<u32> = Compiler::new();
    c.set_unicode(false).set_url(Some("input.scss".to_string()));
    match c.compile(".a { color: ") {
        Err(CompileError::Failed(e)) => {
            assert!(e.message.is_ascii(), "{}", e.message);
            assert!(e.message.contains("input.scss 1:13"), "{}", e.message);
        },
        other => panic!("unexpected {:?}", other),
    }
}

#[test]
fn finish_compile_rethrows_a_pending_importer_exception() {
    assert_eq!(finish_compile(true, true, Ok("a{}".to_string())), RunOutcome::RethrowPending);
    assert_eq!(finish_compile(true, true, Err("Error: x".to_string())), RunOutcome::RethrowPending);
}

#[test]
fn finish_compile_reports_css_or_the_diagnostic() {
    assert_eq!(finish_compile(true, false, Ok("a{}".to_string())), RunOutcome::Css("a{}".to_string()));
    assert_eq!(finish_compile(false, true, Ok("b{}".to_string())), RunOutcome::Css("b{}".to_string()));
    match finish_compile(false, false, Err("Error: bad".to_string())) {
        RunOutcome::Failed(e) => assert_eq!(e.message(), "Error: bad"),
        other => panic!("unexpected {:?}", other),
    }
}
