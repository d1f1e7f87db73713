use php_sasso::codes::{
    importer_syntax, input_syntax, output_style, CompileError, CompileException, ImporterFailure,
    InputSyntax, Style, STYLE_COMPRESSED, STYLE_EXPANDED, SYNTAX_CSS, SYNTAX_SASS, SYNTAX_SCSS,
};
use php_sasso::decimal::append_decimal;

#[test]
fn constants_have_the_documented_values() {
    assert_eq!(STYLE_EXPANDED, 0);
    assert_eq!(STYLE_COMPRESSED, 1);
    assert_eq!(SYNTAX_SCSS, 0);
    assert_eq!(SYNTAX_SASS, 1);
    assert_eq!(SYNTAX_CSS, 2);
}

#[test]
fn output_style_accepts_the_two_codes() {
    assert_eq!(output_style(STYLE_EXPANDED), Ok(Style::Expanded));
    assert_eq!(output_style(STYLE_COMPRESSED), Ok(Style::Compressed));
}

#[test]
fn output_style_refuses_other_codes() {
    assert_eq!(output_style(2), Err(CompileError::InvalidStyle(2)));
    assert_eq!(output_style(-1), Err(CompileError::InvalidStyle(-1)));
    assert_eq!(output_style(i64::MAX), Err(CompileError::InvalidStyle(i64::MAX)));
}

#[test]
fn input_syntax_accepts_the_three_codes() {
    assert_eq!(input_syntax(SYNTAX_SCSS), Ok(InputSyntax::Scss));
    assert_eq!(input_syntax(SYNTAX_SASS), Ok(InputSyntax::Sass));
    assert_eq!(input_syntax(SYNTAX_CSS), Ok(InputSyntax::Css));
}

#[test]
fn input_syntax_refuses_other_codes() {
    assert_eq!(input_syntax(3), Err(CompileError::InvalidSyntax(3)));
    assert_eq!(input_syntax(-7), Err(CompileError::InvalidSyntax(-7)));
}

#[test]
fn invalid_style_message_names_the_code() {
    assert_eq!(
        CompileError::InvalidStyle(5).message(),
        "Sasso: invalid output style 5; expected Compiler::STYLE_EXPANDED or STYLE_COMPRESSED"
    );
    assert_eq!(
        CompileError::InvalidStyle(-42).message(),
        "Sasso: invalid output style -42; expected Compiler::STYLE_EXPANDED or STYLE_COMPRESSED"
    );
}

#[test]
fn invalid_syntax_message_names_the_code() {
    assert_eq!(
        CompileError::InvalidSyntax(99).message(),
        "Sasso: invalid syntax 99; expected Compiler::SYNTAX_SCSS, SYNTAX_SASS or SYNTAX_CSS"
    );
}

#[test]
fn failed_compile_message_is_the_diagnostic() {
    let e = CompileError::Failed(CompileException { message: "Error: boom".to_string() });
    assert_eq!(e.message(), "Error: boom");
}

#[test]
fn importer_syntax_accepts_the_three_codes() {
    assert_eq!(importer_syntax(0), Ok(InputSyntax::Scss));
    assert_eq!(importer_syntax(1), Ok(InputSyntax::Sass));
    assert_eq!(importer_syntax(2), Ok(InputSyntax::Css));
}

#[test]
fn importer_syntax_refuses_other_codes_with_a_message() {
    assert_eq!(
        importer_syntax(7),
        Err(ImporterFailure {
            message: "Sasso\\ImporterResult::$syntax is 7; expected Compiler::SYNTAX_SCSS, SYNTAX_SASS or SYNTAX_CSS"
                .to_string()
        })
    );
}

#[test]
fn decimal_rendering_matches_display() {
    for v in [0i64, 7, 10, 99, 100, 12345, -1, -10, -905, i64::MAX, i64::MIN] {
        let mut out = String::from("x=");
        append_decimal(&mut out, v);
        assert_eq!(out, format!("x={}", v));
    }
}
