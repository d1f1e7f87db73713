use vstd::prelude::*;

use crate::decimal::{append_decimal, decimal};

verus! {

/// Output style code: human-readable, indented CSS (the default).
pub const STYLE_EXPANDED: i64 = 0;
/// Output style code: minified, single-line CSS.
pub const STYLE_COMPRESSED: i64 = 1;

/// Input syntax code: brace/semicolon SCSS (the default).
pub const SYNTAX_SCSS: i64 = 0;
/// Input syntax code: indented `.sass`.
pub const SYNTAX_SASS: i64 = 1;
/// Input syntax code: plain CSS (Sass features rejected, values emitted verbatim).
pub const SYNTAX_CSS: i64 = 2;

/// The output style a compilation emits.
#[derive(Clone, Copy, Debug, PartialEq, Eq, Structural)]
pub enum Style {
    Expanded,
    Compressed,
}

/// The syntax a stylesheet is parsed with.
#[derive(Clone, Copy, Debug, PartialEq, Eq, Structural)]
pub enum InputSyntax {
    Scss,
    Sass,
    Css,
}

/// The style a `STYLE_*` code names, if any.
pub open spec fn style_for_code(code: int) -> Option<Style> {
    if code == STYLE_EXPANDED {
        Some(Style::Expanded)
    } else if code == STYLE_COMPRESSED {
        Some(Style::Compressed)
    } else {
        None
    }
}

/// The syntax a `SYNTAX_*` code names, if any.
pub open spec fn syntax_for_code(code: int) -> Option<InputSyntax> {
    if code == SYNTAX_SCSS {
        Some(InputSyntax::Scss)
    } else if code == SYNTAX_SASS {
        Some(InputSyntax::Sass)
    } else if code == SYNTAX_CSS {
        Some(InputSyntax::Css)
    } else {
        None
    }
}

/// The `STYLE_*` code of a style.
pub open spec fn style_code(style: Style) -> int {
    match style {
        Style::Expanded => STYLE_EXPANDED as int,
        Style::Compressed => STYLE_COMPRESSED as int,
    }
}

/// The `SYNTAX_*` code of a syntax.
pub open spec fn syntax_code(syntax: InputSyntax) -> int {
    match syntax {
        InputSyntax::Scss => SYNTAX_SCSS as int,
        InputSyntax::Sass => SYNTAX_SASS as int,
        InputSyntax::Css => SYNTAX_CSS as int,
    }
}

/// What `Sasso\CompileException` carries: the compiler's diagnostic text.
#[derive(Clone, Debug, PartialEq, Eq)]
pub struct CompileException {
    pub message: String,
}

/// Why `compile()` did not produce CSS.
#[derive(Clone, Debug, PartialEq, Eq)]
pub enum CompileError {
    /// The configured output style code is neither `STYLE_EXPANDED` nor `STYLE_COMPRESSED`.
    InvalidStyle(i64),
    /// The configured syntax code is none of the `SYNTAX_*` codes.
    InvalidSyntax(i64),
    /// The compiler rejected the stylesheet (a parse or evaluation error).
    Failed(CompileException),
}

/// A failure an importer reports to the compiler (as opposed to a plain miss).
#[derive(Clone, Debug, PartialEq, Eq)]
pub struct ImporterFailure {
    pub message: String,
}

/// The message for an unknown output style code.
pub open spec fn invalid_style_message(code: int) -> Seq<char> {
    "Sasso: invalid output style "@ + decimal(code)
        + "; expected Compiler::STYLE_EXPANDED or STYLE_COMPRESSED"@
}

/// The message for an unknown syntax code given to the compiler.
pub open spec fn invalid_syntax_message(code: int) -> Seq<char> {
    "Sasso: invalid syntax "@ + decimal(code)
        + "; expected Compiler::SYNTAX_SCSS, SYNTAX_SASS or SYNTAX_CSS"@
}

/// The message for an unknown syntax code in a `Sasso\ImporterResult`.
pub open spec fn invalid_result_syntax_message(code: int) -> Seq<char> {
    "Sasso\\ImporterResult::$syntax is "@ + decimal(code)
        + "; expected Compiler::SYNTAX_SCSS, SYNTAX_SASS or SYNTAX_CSS"@
}

impl CompileError {
    /// The text the error is reported with.
    pub open spec fn message_spec(&self) -> Seq<char> {
        match self {
            CompileError::InvalidStyle(code) => invalid_style_message(*code as int),
            CompileError::InvalidSyntax(code) => invalid_syntax_message(*code as int),
            CompileError::Failed(e) => e.message@,
        }
    }

    /// The text the error is reported with: for an invalid code the message of
    /// the generic PHP exception, for a failed compilation the diagnostic.
    pub fn message(&self) -> (res: String)
        ensures
            res@ == self.message_spec(),
    {
        match self {
            CompileError::InvalidStyle(code) => {
                let mut out = String::from_str("Sasso: invalid output style ");
                append_decimal(&mut out, *code);
                out.append("; expected Compiler::STYLE_EXPANDED or STYLE_COMPRESSED");
                out
            },
            CompileError::InvalidSyntax(code) => {
                let mut out = String::from_str("Sasso: invalid syntax ");
                append_decimal(&mut out, *code);
                out.append("; expected Compiler::SYNTAX_SCSS, SYNTAX_SASS or SYNTAX_CSS");
                out
            },
            CompileError::Failed(e) => e.message.clone(),
        }
    }
}

/// The output style a `STYLE_*` code names; any other code is refused with
/// `InvalidStyle` carrying the code.
pub fn output_style(style: i64) -> (res: Result<Style, CompileError>)
    ensures
        match style_for_code(style as int) {
            Some(s) => res == Ok::<Style, CompileError>(s),
            None => res == Err::<Style, CompileError>(CompileError::InvalidStyle(style)),
        },
{
    if style == STYLE_EXPANDED {
        Ok(Style::Expanded)
    } else if style == STYLE_COMPRESSED {
        Ok(Style::Compressed)
    } else {
        Err(CompileError::InvalidStyle(style))
    }
}

/// The input syntax a `SYNTAX_*` code names; any other code is refused with
/// `InvalidSyntax` carrying the code.
pub fn input_syntax(syntax: i64) -> (res: Result<InputSyntax, CompileError>)
    ensures
        match syntax_for_code(syntax as int) {
            Some(s) => res == Ok::<InputSyntax, CompileError>(s),
            None => res == Err::<InputSyntax, CompileError>(CompileError::InvalidSyntax(syntax)),
        },
{
    if syntax == SYNTAX_SCSS {
        Ok(InputSyntax::Scss)
    } else if syntax == SYNTAX_SASS {
        Ok(InputSyntax::Sass)
    } else if syntax == SYNTAX_CSS {
        Ok(InputSyntax::Css)
    } else {
        Err(CompileError::InvalidSyntax(syntax))
    }
}

/// The syntax a `Sasso\ImporterResult` asks for; an unknown code is an
/// importer failure whose message names the code.
pub fn importer_syntax(syntax: i64) -> (res: Result<InputSyntax, ImporterFailure>)
    ensures
        match syntax_for_code(syntax as int) {
            Some(s) => res matches Ok(r) && r == s,
            None => res matches Err(e) && e.message@ == invalid_result_syntax_message(syntax as int),
        },
{
    if syntax == SYNTAX_SCSS {
        Ok(InputSyntax::Scss)
    } else if syntax == SYNTAX_SASS {
        Ok(InputSyntax::Sass)
    } else if syntax == SYNTAX_CSS {
        Ok(InputSyntax::Css)
    } else {
        let mut message = String::from_str("Sasso\\ImporterResult::$syntax is ");
        append_decimal(&mut message, syntax);
        message.append("; expected Compiler::SYNTAX_SCSS, SYNTAX_SASS or SYNTAX_CSS");
        Err(ImporterFailure { message })
    }
}

} // verus!
