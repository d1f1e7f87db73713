//! The fluent `Sasso\Compiler` configuration and what `compile()` decides.

use vstd::prelude::*;

use crate::codes::{
    input_syntax, output_style, style_for_code, syntax_for_code, CompileError, CompileException,
    InputSyntax, Style, STYLE_COMPRESSED, STYLE_EXPANDED, SYNTAX_CSS, SYNTAX_SASS, SYNTAX_SCSS,
};
use crate::engine::{
    compile_stylesheet, compile_with_load_paths, sasso_may_compile, sasso_may_compile_from_paths,
};

verus! {

/// The view of an optional string.
pub open spec fn opt_str_view(s: Option<String>) -> Option<Seq<char>> {
    match s {
        Some(v) => Some(v@),
        None => None,
    }
}

/// The abstract state of a [`Compiler`]: its raw style and syntax codes (checked
/// only when compiling), the diagnostic glyph set, the display URL, the load
/// paths in order and the userland importer handle, if one is set.
pub struct CompilerView<H> {
    pub style: i64,
    pub syntax: i64,
    pub unicode: bool,
    pub url: Option<Seq<char>>,
    pub load_paths: Seq<Seq<char>>,
    pub importer: Option<H>,
}

/// A fluent SCSS → CSS compiler configuration. `H` is the handle of a userland
/// importer (a `Sasso\Importer` object on the PHP side).
pub struct Compiler<H> {
    style: i64,
    syntax: i64,
    unicode: bool,
    url: Option<String>,
    load_paths: Vec<String>,
    importer: Option<H>,
}

impl<H> View for Compiler<H> {
    type V = CompilerView<H>;

    closed spec fn view(&self) -> CompilerView<H> {
        CompilerView {
            style: self.style,
            syntax: self.syntax,
            unicode: self.unicode,
            url: opt_str_view(self.url),
            load_paths: self.load_paths.deep_view(),
            importer: self.importer,
        }
    }
}

/// The configuration of a fresh compiler: expanded output, SCSS input, Unicode
/// diagnostics, no URL, no load paths, no importer.
pub open spec fn default_view<H>() -> CompilerView<H> {
    CompilerView {
        style: STYLE_EXPANDED,
        syntax: SYNTAX_SCSS,
        unicode: true,
        url: None,
        load_paths: Seq::empty(),
        importer: None,
    }
}

/// The argument of `setImporter()`, as the PHP side classifies it.
pub enum ImporterArg<H> {
    /// `null`: clear the importer.
    Null,
    /// An object that implements `Sasso\Importer`.
    Importer(H),
    /// Any other value.
    NotAnImporter,
}

/// `setImporter()` was given a value that does not implement `Sasso\Importer`.
#[derive(Clone, Copy, Debug, PartialEq, Eq, Structural)]
pub struct ImporterRejected;

impl ImporterRejected {
    /// The message of the exception thrown for a rejected importer.
    pub fn message(&self) -> (res: String)
        ensures
            res@ == "Sasso: importer must implement Sasso\\Importer"@,
    {
        String::from_str("Sasso: importer must implement Sasso\\Importer")
    }
}

/// The options one compilation runs with, after its codes were checked.
#[derive(Debug, PartialEq, Eq)]
pub struct CompileSettings {
    pub style: Style,
    pub syntax: InputSyntax,
    pub unicode: bool,
    pub url: Option<String>,
}

/// How `@use` / `@forward` / `@import` requests are resolved in a compilation.
#[derive(Debug, PartialEq, Eq)]
pub enum ImportRoute {
    /// No importer at all: no stylesheet can be loaded.
    Unresolved,
    /// A filesystem importer over these load paths, in order.
    LoadPaths(Vec<String>),
    /// The userland importer first; when it returns `null`, a filesystem importer
    /// over these load paths (if any were configured).
    UserImporter(Option<Vec<String>>),
}

/// Everything a compilation needs besides the source text.
#[derive(Debug, PartialEq, Eq)]
pub struct CompilePlan {
    pub settings: CompileSettings,
    pub route: ImportRoute,
}

/// What `compile()` hands back when its codes are valid.
#[derive(Debug, PartialEq, Eq)]
pub enum Compiled {
    /// The compiled CSS.
    Css(String),
    /// The imports must be resolved through the userland importer, whose calls
    /// go into PHP: the caller compiles with this plan and passes the result to
    /// [`finish_compile`].
    NeedsImporter(CompilePlan),
}

/// How a finished compilation is reported to PHP.
#[derive(Debug, PartialEq, Eq)]
pub enum RunOutcome {
    /// The compiled CSS.
    Css(String),
    /// A `Sasso\CompileException` (or other exception) with this error.
    Failed(CompileError),
    /// The userland importer threw: its exception, left pending, is re-thrown
    /// unchanged and `compile()` itself returns an empty string.
    RethrowPending,
}

/// `route` is how a compiler in state `v` resolves imports: the userland
/// importer (with the load paths as fallback when there are any) when one is
/// set, else the load paths when there are any, else nothing.
pub open spec fn route_matches<H>(route: ImportRoute, v: CompilerView<H>) -> bool {
    match route {
        ImportRoute::Unresolved => v.importer is None && v.load_paths.len() == 0,
        ImportRoute::LoadPaths(paths) => {
            &&& v.importer is None
            &&& v.load_paths.len() > 0
            &&& paths.deep_view() == v.load_paths
        },
        ImportRoute::UserImporter(fallback) => {
            &&& v.importer is Some
            &&& match fallback {
                None => v.load_paths.len() == 0,
                Some(paths) => v.load_paths.len() > 0 && paths.deep_view() == v.load_paths,
            }
        },
    }
}

/// Whether a compiler in state `v` resolves imports through a userland
/// importer, whose calls go into PHP.
pub open spec fn needs_importer<H>(v: CompilerView<H>) -> bool {
    v.importer is Some
}

/// Whether the style and syntax codes of a compiler in state `v` are valid.
pub open spec fn codes_valid<H>(v: CompilerView<H>) -> bool {
    style_for_code(v.style as int) is Some && syntax_for_code(v.syntax as int) is Some
}

/// Whether the compiler may give `outcome` for `source` under the
/// configuration `v` (valid codes, no userland importer): with `v`'s style,
/// syntax, glyph setting and URL, and, when load paths are set, a filesystem
/// importer over them.
pub open spec fn may_compile_as_configured<H>(
    source: Seq<char>,
    v: CompilerView<H>,
    outcome: Result<Seq<char>, Seq<char>>,
) -> bool {
    let style = style_for_code(v.style as int).unwrap();
    let syntax = syntax_for_code(v.syntax as int).unwrap();
    if v.load_paths.len() == 0 {
        sasso_may_compile(source, style, syntax, v.unicode, v.url, outcome)
    } else {
        sasso_may_compile_from_paths(source, style, syntax, v.unicode, v.url, v.load_paths, outcome)
    }
}

/// `p` is the plan of a compiler in state `v` whose codes are valid.
pub open spec fn plan_matches<H>(p: CompilePlan, v: CompilerView<H>) -> bool {
    &&& style_for_code(v.style as int) == Some(p.settings.style)
    &&& syntax_for_code(v.syntax as int) == Some(p.settings.syntax)
    &&& p.settings.unicode == v.unicode
    &&& opt_str_view(p.settings.url) == v.url
    &&& route_matches(p.route, v)
}

/// The outcome of a compilation: a pending userland exception wins when a
/// userland importer took part; otherwise the compiler's CSS, or its
/// diagnostic as a `Sasso\CompileException`.
pub open spec fn outcome_of(
    user_importer: bool,
    exception_pending: bool,
    result: Result<String, String>,
) -> RunOutcome {
    if user_importer && exception_pending {
        RunOutcome::RethrowPending
    } else {
        match result {
            Ok(css) => RunOutcome::Css(css),
            Err(message) => RunOutcome::Failed(CompileError::Failed(CompileException { message })),
        }
    }
}

/// Decides what a finished compilation reports: when a userland importer took
/// part and an exception it threw is pending, that exception is re-thrown;
/// otherwise the CSS, or the compiler's diagnostic text as a compile error.
pub fn finish_compile(
    user_importer: bool,
    exception_pending: bool,
    result: Result<String, String>,
) -> (res: RunOutcome)
    ensures
        res == outcome_of(user_importer, exception_pending, result),
        res is RethrowPending <==> (user_importer && exception_pending),
        !exception_pending ==> (result matches Ok(css) ==> res == RunOutcome::Css(css)),
        !exception_pending ==> (result matches Err(message) ==> res == RunOutcome::Failed(
            CompileError::Failed(CompileException { message }),
        )),
        !user_importer ==> (result matches Ok(css) ==> res == RunOutcome::Css(css)),
        !user_importer ==> (result matches Err(message) ==> res == RunOutcome::Failed(
            CompileError::Failed(CompileException { message }),
        )),
{
    if user_importer && exception_pending {
        RunOutcome::RethrowPending
    } else {
        match result {
            Ok(css) => RunOutcome::Css(css),
            Err(message) => RunOutcome::Failed(CompileError::Failed(CompileException { message })),
        }
    }
}

fn clone_paths(paths: &Vec<String>) -> (res: Vec<String>)
    ensures
        res.deep_view() == paths.deep_view(),
{
    let mut out: Vec<String> = Vec::new();
    let mut i: usize = 0;
    while i < paths.len()
        invariant
            i <= paths.len(),
            out.deep_view() == paths.deep_view().take(i as int),
        decreases paths.len() - i,
    {
        out.push(paths[i].clone());
        assert(paths.deep_view().take(i + 1) == paths.deep_view().take(i as int).push(paths[i as int]@));
        i = i + 1;
    }
    assert(paths.deep_view().take(paths.len() as int) == paths.deep_view());
    out
}

fn clone_url(url: &Option<String>) -> (res: Option<String>)
    ensures
        opt_str_view(res) == opt_str_view(*url),
{
    match url {
        Some(u) => Some(u.clone()),
        None => None,
    }
}

impl<H> Compiler<H> {
    /// A compiler with the default options: expanded output, SCSS input,
    /// Unicode diagnostics, no URL, no load paths, no importer.
    pub fn new() -> (res: Self)
        ensures
            res@ == default_view::<H>(),
    {
        let res = Compiler {
            style: STYLE_EXPANDED,
            syntax: SYNTAX_SCSS,
            unicode: true,
            url: None,
            load_paths: Vec::new(),
            importer: None,
        };
        assert(res.load_paths.deep_view() =~= Seq::<Seq<char>>::empty());
        res
    }

    /// The output style code, as set (checked only when compiling).
    pub fn style(&self) -> (res: i64)
        ensures
            res == self@.style,
    {
        self.style
    }

    /// The input syntax code, as set (checked only when compiling).
    pub fn syntax(&self) -> (res: i64)
        ensures
            res == self@.syntax,
    {
        self.syntax
    }

    /// Whether diagnostics use Unicode glyphs.
    pub fn unicode(&self) -> (res: bool)
        ensures
            res == self@.unicode,
    {
        self.unicode
    }

    /// The path / URL diagnostics show for the input.
    pub fn url(&self) -> (res: Option<&str>)
        ensures
            match self@.url {
                Some(u) => res matches Some(r) && r@ == u,
                None => res is None,
            },
    {
        match &self.url {
            Some(u) => Some(u.as_str()),
            None => None,
        }
    }

    /// The load paths, in the order they are searched.
    pub fn import_paths(&self) -> (res: &Vec<String>)
        ensures
            res.deep_view() == self@.load_paths,
    {
        &self.load_paths
    }

    /// The userland importer handle, if one is set.
    pub fn importer(&self) -> (res: Option<&H>)
        ensures
            match self@.importer {
                Some(h) => res == Some(&h),
                None => res is None,
            },
    {
        match &self.importer {
            Some(h) => Some(h),
            None => None,
        }
    }

    /// Sets the output style code. An unknown code is accepted here and
    /// refused by `compile()`. Returns the compiler for chaining.
    pub fn set_style(&mut self, style: i64) -> (res: &mut Self)
        ensures
            res@ == (CompilerView { style, ..old(self)@ }),
            *final(self) == *final(res),
    {
        self.style = style;
        self
    }

    /// Sets the input syntax code. An unknown code is accepted here and
    /// refused by `compile()`. Returns the compiler for chaining.
    pub fn set_syntax(&mut self, syntax: i64) -> (res: &mut Self)
        ensures
            res@ == (CompilerView { syntax, ..old(self)@ }),
            *final(self) == *final(res),
    {
        self.syntax = syntax;
        self
    }

    /// Chooses Unicode (`true`) or ASCII (`false`) glyphs for diagnostics.
    pub fn set_unicode(&mut self, unicode: bool) -> (res: &mut Self)
        ensures
            res@ == (CompilerView { unicode, ..old(self)@ }),
            *final(self) == *final(res),
    {
        self.unicode = unicode;
        self
    }

    /// Sets the path / URL diagnostics show for the input (`None` disables the
    /// byte-exact snippets).
    pub fn set_url(&mut self, url: Option<String>) -> (res: &mut Self)
        ensures
            res@ == (CompilerView { url: opt_str_view(url), ..old(self)@ }),
            *final(self) == *final(res),
    {
        self.url = url;
        self
    }

    /// Appends a load path searched for `@import` / `@use` / `@forward` partials.
    pub fn add_import_path(&mut self, path: String) -> (res: &mut Self)
        ensures
            res@ == (CompilerView { load_paths: old(self)@.load_paths.push(path@), ..old(self)@ }),
            *final(self) == *final(res),
    {
        self.load_paths.push(path);
        proof {
            assert(self.load_paths.deep_view() =~= old(self).load_paths.deep_view().push(path@));
        }
        self
    }

    /// Replaces all load paths at once.
    pub fn set_import_paths(&mut self, paths: Vec<String>) -> (res: &mut Self)
        ensures
            res@ == (CompilerView { load_paths: paths.deep_view(), ..old(self)@ }),
            *final(self) == *final(res),
    {
        self.load_paths = paths;
        self
    }

    /// Sets (an object implementing `Sasso\Importer`) or clears (`null`) the
    /// userland importer. Any other value is rejected and leaves the compiler
    /// unchanged.
    pub fn set_importer(&mut self, importer: ImporterArg<H>) -> (res: Result<&mut Self, ImporterRejected>)
        ensures
            match importer {
                ImporterArg::Null => res matches Ok(r) && r@ == (CompilerView { importer: None, ..old(self)@ })
                    && *final(self) == *final(r),
                ImporterArg::Importer(h) => res matches Ok(r) && r@ == (CompilerView { importer: Some(h), ..old(self)@ })
                    && *final(self) == *final(r),
                ImporterArg::NotAnImporter => res is Err && *final(self) == *old(self),
            },
    {
        match importer {
            ImporterArg::Null => {
                self.importer = None;
                Ok(self)
            },
            ImporterArg::Importer(h) => {
                self.importer = Some(h);
                Ok(self)
            },
            ImporterArg::NotAnImporter => Err(ImporterRejected),
        }
    }

    /// Checks the style and syntax codes (the style first) and gathers what a
    /// compilation runs with: the options and how imports are resolved.
    pub fn plan(&self) -> (res: Result<CompilePlan, CompileError>)
        ensures
            style_for_code(self@.style as int) is None ==> res == Err::<CompilePlan, CompileError>(
                CompileError::InvalidStyle(self@.style),
            ),
            style_for_code(self@.style as int) is Some && syntax_for_code(self@.syntax as int) is None
                ==> res == Err::<CompilePlan, CompileError>(CompileError::InvalidSyntax(self@.syntax)),
            style_for_code(self@.style as int) is Some && syntax_for_code(self@.syntax as int) is Some
                ==> (res matches Ok(p) && plan_matches(p, self@)),
            res matches Ok(p) ==> (self@.style == STYLE_EXPANDED ==> p.settings.style == Style::Expanded)
                && (self@.style == STYLE_COMPRESSED ==> p.settings.style == Style::Compressed)
                && (self@.syntax == SYNTAX_SCSS ==> p.settings.syntax == InputSyntax::Scss)
                && (self@.syntax == SYNTAX_SASS ==> p.settings.syntax == InputSyntax::Sass)
                && (self@.syntax == SYNTAX_CSS ==> p.settings.syntax == InputSyntax::Css)
                && p.settings.unicode == self@.unicode
                && (match p.settings.url {
                Some(u) => self@.url == Some(u@),
                None => self@.url is None,
            }),
            res matches Ok(p) ==> (self@.importer is Some && self@.load_paths.len() > 0 ==> (p.route matches
                ImportRoute::UserImporter(Some(paths)) && paths.deep_view() == self@.load_paths)),
            res matches Ok(p) ==> (self@.importer is Some && self@.load_paths.len() == 0 ==> p.route
                == ImportRoute::UserImporter(None)),
            res matches Ok(p) ==> (self@.importer is None && self@.load_paths.len() > 0 ==> (p.route matches
                ImportRoute::LoadPaths(paths) && paths.deep_view() == self@.load_paths)),
            res matches Ok(p) ==> (self@.importer is None && self@.load_paths.len() == 0 ==> p.route
                == ImportRoute::Unresolved),
    {
        let style = match output_style(self.style) {
            Ok(s) => s,
            Err(e) => return Err(e),
        };
        let syntax = match input_syntax(self.syntax) {
            Ok(s) => s,
            Err(e) => return Err(e),
        };
        let settings = CompileSettings {
            style,
            syntax,
            unicode: self.unicode,
            url: clone_url(&self.url),
        };
        let route = if self.importer.is_some() {
            if self.load_paths.len() == 0 {
                ImportRoute::UserImporter(None)
            } else {
                ImportRoute::UserImporter(Some(clone_paths(&self.load_paths)))
            }
        } else if self.load_paths.len() > 0 {
            ImportRoute::LoadPaths(clone_paths(&self.load_paths))
        } else {
            ImportRoute::Unresolved
        };
        Ok(CompilePlan { settings, route })
    }

    /// Compiles `source` with the configured options. Invalid style / syntax
    /// codes are reported here. Without a userland importer the source is
    /// compiled (reading imported stylesheets from the load paths, if any) to
    /// CSS, or to the compiler's diagnostic text as a compile error, with the
    /// configured style, syntax, glyph setting and URL. With a userland
    /// importer, whose calls go into PHP, the plan to compile with is handed
    /// back. The compiler does not always return: a stylesheet whose
    /// `@function` calls itself without end overflows the stack and aborts the
    /// process.
    pub fn compile(&self, source: &str) -> (res: Result<Compiled, CompileError>)
        ensures
            style_for_code(self@.style as int) is None ==> res == Err::<Compiled, CompileError>(
                CompileError::InvalidStyle(self@.style),
            ),
            style_for_code(self@.style as int) is Some && syntax_for_code(self@.syntax as int) is None
                ==> res == Err::<Compiled, CompileError>(CompileError::InvalidSyntax(self@.syntax)),
            codes_valid(self@) && needs_importer(self@) ==> (res matches Ok(Compiled::NeedsImporter(p))
                && plan_matches(p, self@)),
            codes_valid(self@) && !needs_importer(self@) ==> (res matches Ok(Compiled::Css(_)) || res matches Err(
                CompileError::Failed(_),
            )),
            codes_valid(self@) && !needs_importer(self@) ==> (res matches Ok(Compiled::Css(css))
                ==> may_compile_as_configured(source@, self@, Ok(css@))),
            codes_valid(self@) && !needs_importer(self@) ==> (res matches Err(CompileError::Failed(x))
                ==> may_compile_as_configured(source@, self@, Err(x.message@))),
            codes_valid(self@) && self@.importer is None && self@.load_paths.len() > 0 ==> (res matches Ok(
                Compiled::Css(css),
            ) ==> sasso_may_compile_from_paths(
                source@,
                style_for_code(self@.style as int).unwrap(),
                syntax_for_code(self@.syntax as int).unwrap(),
                self@.unicode,
                self@.url,
                self@.load_paths,
                Ok(css@),
            )),
            codes_valid(self@) && self@.importer is None && self@.load_paths.len() > 0 ==> (res matches Err(
                CompileError::Failed(x),
            ) ==> sasso_may_compile_from_paths(
                source@,
                style_for_code(self@.style as int).unwrap(),
                syntax_for_code(self@.syntax as int).unwrap(),
                self@.unicode,
                self@.url,
                self@.load_paths,
                Err(x.message@),
            )),
            codes_valid(self@) && self@.importer is None && self@.load_paths.len() == 0 ==> (res matches Ok(
                Compiled::Css(css),
            ) ==> sasso_may_compile(
                source@,
                style_for_code(self@.style as int).unwrap(),
                syntax_for_code(self@.syntax as int).unwrap(),
                self@.unicode,
                self@.url,
                Ok(css@),
            )),
            codes_valid(self@) && self@.importer is None && self@.load_paths.len() == 0 ==> (res matches Err(
                CompileError::Failed(x),
            ) ==> sasso_may_compile(
                source@,
                style_for_code(self@.style as int).unwrap(),
                syntax_for_code(self@.syntax as int).unwrap(),
                self@.unicode,
                self@.url,
                Err(x.message@),
            )),
    {
        let plan = match self.plan() {
            Ok(p) => p,
            Err(e) => return Err(e),
        };
        let settings = &plan.settings;
        let url: Option<&str> = match &settings.url {
            Some(u) => Some(u.as_str()),
            None => None,
        };
        let result = match &plan.route {
            ImportRoute::Unresolved => compile_stylesheet(
                source,
                settings.style,
                settings.syntax,
                settings.unicode,
                url,
            ),
            ImportRoute::LoadPaths(paths) => compile_with_load_paths(
                source,
                settings.style,
                settings.syntax,
                settings.unicode,
                url,
                paths,
            ),
            ImportRoute::UserImporter(_) => return Ok(Compiled::NeedsImporter(plan)),
        };
        match result {
            Ok(css) => Ok(Compiled::Css(css)),
            Err(message) => Err(CompileError::Failed(CompileException { message })),
        }
    }
}

impl<H> Default for Compiler<H> {
    /// The default options: expanded output, SCSS input, Unicode diagnostics.
    fn default() -> (res: Self)
        ensures
            res@ == default_view::<H>(),
    {
        Compiler::new()
    }
}

} // verus!
