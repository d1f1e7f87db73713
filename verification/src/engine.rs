//! The calls into the `sasso` compiler.

use vstd::prelude::*;

use crate::codes::{InputSyntax, Style};

verus! {

/// The view of an optional string slice.
pub open spec fn opt_slice_view(s: Option<&str>) -> Option<Seq<char>> {
    match s {
        Some(v) => Some(v@),
        None => None,
    }
}

/// Whether `sasso::compile`, given `source` and options with this output style,
/// input syntax, glyph setting and display URL and no importer, may return
/// `outcome`: `Ok(css)`, or `Err(text)` with `text` the `Display` text of the
/// compiler's error. This is a relation, not a function: the same arguments
/// may give different outcomes, because the compiler reads the clock
/// (`math.random()`, `unique-id()`) and spells diagnostic paths relative to
/// the process's current directory.
pub uninterp spec fn sasso_may_compile(
    source: Seq<char>,
    style: Style,
    syntax: InputSyntax,
    unicode: bool,
    url: Option<Seq<char>>,
    outcome: Result<Seq<char>, Seq<char>>,
) -> bool;

/// Whether `sasso::compile`, given `source` and options with this output style,
/// input syntax, glyph setting and display URL and a `sasso::FsImporter` over
/// `load_paths` (searched in order), may return `outcome`: `Ok(css)`, or
/// `Err(text)` with `text` the `Display` text of the compiler's error. A
/// relation, not a function: besides the clock and the current directory, the
/// outcome depends on the files on disk.
pub uninterp spec fn sasso_may_compile_from_paths(
    source: Seq<char>,
    style: Style,
    syntax: InputSyntax,
    unicode: bool,
    url: Option<Seq<char>>,
    load_paths: Seq<Seq<char>>,
    outcome: Result<Seq<char>, Seq<char>>,
) -> bool;

/// Calls `sasso::compile` on `source` with options that set the output style,
/// the input syntax, the diagnostic glyph set and the display URL, and no
/// importer (so no `@use` / `@import` of a stylesheet can be resolved); a
/// `sasso::Error` is turned into its `Display` text.
///
/// The contract says only that the outcome is one the compiler may give for
/// exactly these arguments (see [`sasso_may_compile`]); which CSS, or which
/// diagnostic, is not stated. The call does not always return: the compiler
/// has no depth limit on calls of user `@function`s and `@mixin`s, so a
/// stylesheet whose function calls itself without end overflows the stack
/// and aborts the process. No precondition on the arguments can rule that
/// out, so none is stated.
#[verifier::external_body]
pub(crate) fn compile_stylesheet(
    source: &str,
    style: Style,
    syntax: InputSyntax,
    unicode: bool,
    url: Option<&str>,
) -> (res: Result<String, String>)
    ensures
        match res {
            Ok(css) => sasso_may_compile(source@, style, syntax, unicode, opt_slice_view(url), Ok(css@)),
            Err(text) => sasso_may_compile(source@, style, syntax, unicode, opt_slice_view(url), Err(text@)),
        },
{
    let mut options = sasso::Options::new();
    options.style = match style { Style::Expanded => sasso::OutputStyle::Expanded, Style::Compressed => sasso::OutputStyle::Compressed };
    options.syntax = match syntax { InputSyntax::Scss => sasso::Syntax::Scss, InputSyntax::Sass => sasso::Syntax::Sass, InputSyntax::Css => sasso::Syntax::Css };
    options.unicode = unicode;
    options.url = url;
    sasso::compile(source, &options).map_err(|e| e.to_string())
}

/// Calls `sasso::compile` on `source` with options that set the output style,
/// the input syntax, the diagnostic glyph set and the display URL, and a
/// `sasso::FsImporter` over `load_paths`, which reads the stylesheets that
/// `@use` / `@forward` / `@import` name from disk; a `sasso::Error` is turned
/// into its `Display` text.
///
/// The contract says only that the outcome is one the compiler may give for
/// exactly these arguments (see [`sasso_may_compile_from_paths`]); which CSS,
/// or which diagnostic, is not stated, since it depends on the files on disk.
/// Like [`compile_stylesheet`], the call does not return when a user function
/// recurses without end; no precondition can rule that out.
#[verifier::external_body]
pub(crate) fn compile_with_load_paths(
    source: &str,
    style: Style,
    syntax: InputSyntax,
    unicode: bool,
    url: Option<&str>,
    load_paths: &Vec<String>,
) -> (res: Result<String, String>)
    ensures
        match res {
            Ok(css) => sasso_may_compile_from_paths(
                source@, style, syntax, unicode, opt_slice_view(url), load_paths.deep_view(), Ok(css@),
            ),
            Err(text) => sasso_may_compile_from_paths(
                source@, style, syntax, unicode, opt_slice_view(url), load_paths.deep_view(), Err(text@),
            ),
        },
{
    let fs = sasso::FsImporter::new(load_paths.iter().map(std::path::PathBuf::from).collect());
    let mut options = sasso::Options::new();
    options.style = match style { Style::Expanded => sasso::OutputStyle::Expanded, Style::Compressed => sasso::OutputStyle::Compressed };
    options.syntax = match syntax { InputSyntax::Scss => sasso::Syntax::Scss, InputSyntax::Sass => sasso::Syntax::Sass, InputSyntax::Css => sasso::Syntax::Css };
    options.unicode = unicode;
    options.url = url;
    options.importer = Some(&fs);
    sasso::compile(source, &options).map_err(|e| e.to_string())
}

} // verus!
