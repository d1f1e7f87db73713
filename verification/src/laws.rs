//! Properties that span several steps of the library.

use vstd::prelude::*;

use crate::bridge::{
    canonicalize_action, canonicalize_next, load_action_matches, BridgeView, CanonicalizeAction,
    CanonicalizeEvent, LoadAction, LoadEvent, LoadReply,
};
use crate::bridge::ImporterResultClass;
use crate::codes::{
    style_code, style_for_code, syntax_code, syntax_for_code, CompileError, CompileException, InputSyntax,
    Style, STYLE_COMPRESSED, STYLE_EXPANDED, SYNTAX_CSS, SYNTAX_SASS, SYNTAX_SCSS,
};
use crate::compiler::{
    codes_valid, may_compile_as_configured, opt_str_view, outcome_of, plan_matches, CompilePlan,
    CompilerView, ImportRoute, RunOutcome,
};
use crate::engine::{sasso_may_compile, sasso_may_compile_from_paths};

verus! {

/// A canonical string the userland importer returned (with no exception
/// pending) is handed to the compiler, and a later `load` of that string is
/// routed back to the userland importer with the same string.
pub proof fn law_minted_key_loads_from_user_importer(v: BridgeView, canonical: String)
    ensures
        canonicalize_action(
            v,
            CanonicalizeEvent::UserAnswered { exception_pending: false, canonical: Some(canonical) },
        ) == CanonicalizeAction::Answer(Some(canonical)),
        forall|a: LoadAction|
            #[trigger] load_action_matches(
                canonicalize_next(
                    v,
                    CanonicalizeEvent::UserAnswered { exception_pending: false, canonical: Some(canonical) },
                ),
                LoadEvent::Start { canonical, exception_pending: false },
                a,
            ) ==> (a matches LoadAction::CallUser(key) && key@ == canonical@),
{
    let next = canonicalize_next(
        v,
        CanonicalizeEvent::UserAnswered { exception_pending: false, canonical: Some(canonical) },
    );
    if !v.minted.contains(canonical@) {
        assert(next.minted[next.minted.len() - 1] == canonical@);
    }
    assert(next.minted.contains(canonical@));
}

/// A canonical string the userland importer never minted is never passed to
/// its `load()`: it goes to the filesystem fallback, or is not found.
pub proof fn law_foreign_key_never_reaches_user_importer(
    v: BridgeView,
    canonical: String,
    exception_pending: bool,
    a: LoadAction,
)
    requires
        !v.minted.contains(canonical@),
        load_action_matches(v, LoadEvent::Start { canonical, exception_pending }, a),
    ensures
        v.has_fallback ==> a is CallFallback,
        !v.has_fallback ==> a matches LoadAction::Answer(Ok(None)),
{
}

/// Once a userland exception is pending, the userland importer is not called
/// again, in either phase.
pub proof fn law_pending_exception_stops_user_calls(
    v: BridgeView,
    canonical: Option<String>,
    key: String,
    reply: LoadReply,
    start: LoadAction,
    answered: LoadAction,
)
    requires
        load_action_matches(v, LoadEvent::Start { canonical: key, exception_pending: true }, start),
        load_action_matches(v, LoadEvent::UserAnswered { exception_pending: true, reply }, answered),
    ensures
        canonicalize_action(v, CanonicalizeEvent::Start { exception_pending: true })
            == CanonicalizeAction::Answer(None),
        canonicalize_action(v, CanonicalizeEvent::UserAnswered { exception_pending: true, canonical })
            == CanonicalizeAction::Answer(None),
        canonicalize_next(v, CanonicalizeEvent::UserAnswered { exception_pending: true, canonical }) == v,
        !(start is CallUser),
        answered matches LoadAction::Answer(Ok(None)),
{
}

/// The set of canonical strings the userland importer minted only grows, and
/// whether a fallback exists never changes.
pub proof fn law_minted_keys_persist(v: BridgeView, event: CanonicalizeEvent, key: Seq<char>)
    requires
        v.minted.contains(key),
    ensures
        canonicalize_next(v, event).minted.contains(key),
        canonicalize_next(v, event).has_fallback == v.has_fallback,
{
    let next = canonicalize_next(v, event);
    let i = choose|i: int| 0 <= i < v.minted.len() && v.minted[i] == key;
    assert(next.minted[i] == key);
}

/// The userland importer is consulted first; when it returns `null`, in either
/// phase, the load paths are tried if any were configured, and otherwise the
/// request is not resolved.
pub proof fn law_user_importer_first_then_load_paths<H>(
    v: CompilerView<H>,
    plan: CompilePlan,
    bridge: BridgeView,
)
    requires
        plan_matches(plan, v),
        v.importer is Some,
        match plan.route {
            ImportRoute::UserImporter(fallback) => bridge.has_fallback == fallback is Some,
            _ => false,
        },
    ensures
        canonicalize_action(bridge, CanonicalizeEvent::Start { exception_pending: false })
            == CanonicalizeAction::CallUser,
        v.load_paths.len() > 0 ==> canonicalize_action(
            bridge,
            CanonicalizeEvent::UserAnswered { exception_pending: false, canonical: None },
        ) == CanonicalizeAction::CallFallback,
        v.load_paths.len() == 0 ==> canonicalize_action(
            bridge,
            CanonicalizeEvent::UserAnswered { exception_pending: false, canonical: None },
        ) == CanonicalizeAction::Answer(None),
        forall|a: LoadAction|
            #[trigger] load_action_matches(
                bridge,
                LoadEvent::UserAnswered { exception_pending: false, reply: LoadReply::NotAnObject },
                a,
            ) ==> (v.load_paths.len() > 0 ==> a is CallFallback) && (v.load_paths.len() == 0 ==> a matches LoadAction::Answer(Ok(None))),
{
}

/// When a userland importer threw, its exception is what `compile()` reports,
/// whatever the compiler produced meanwhile.
pub proof fn law_importer_exception_wins(result: Result<String, String>)
    ensures
        outcome_of(true, true, result) == RunOutcome::RethrowPending,
        outcome_of(false, true, result) != RunOutcome::RethrowPending,
{
}

/// Every output style and input syntax has exactly one code, and the code is
/// accepted as that style or syntax.
pub proof fn law_codes_name_each_option_once(style: Style, syntax: InputSyntax, code: int)
    ensures
        style_for_code(style_code(style)) == Some(style),
        syntax_for_code(syntax_code(syntax)) == Some(syntax),
        style_for_code(code) == Some(style) ==> code == style_code(style),
        syntax_for_code(code) == Some(syntax) ==> code == syntax_code(syntax),
{
}

/// `event` is the userland `canonicalize()` returning `key` with no exception
/// pending.
pub open spec fn user_returned(event: CanonicalizeEvent, key: Seq<char>) -> bool {
    event matches CanonicalizeEvent::UserAnswered { exception_pending, canonical }
        && !exception_pending && canonical is Some && canonical->0@ == key
}

/// The state after a sequence of `canonicalize` events, in order.
pub open spec fn canonicalize_run(v: BridgeView, events: Seq<CanonicalizeEvent>) -> BridgeView
    decreases events.len(),
{
    if events.len() == 0 {
        v
    } else {
        canonicalize_next(canonicalize_run(v, events.drop_last()), events.last())
    }
}

proof fn lemma_run_minted(v: BridgeView, events: Seq<CanonicalizeEvent>, key: Seq<char>)
    ensures
        canonicalize_run(v, events).has_fallback == v.has_fallback,
        canonicalize_run(v, events).minted.contains(key) <==> (v.minted.contains(key) || exists|i: int|
            0 <= i < events.len() && #[trigger] user_returned(events[i], key)),
    decreases events.len(),
{
    if events.len() > 0 {
        let prev = events.drop_last();
        lemma_run_minted(v, prev, key);
        let pv = canonicalize_run(v, prev);
        let e = events.last();
        let nv = canonicalize_run(v, events);
        assert(nv == canonicalize_next(pv, e));
        if user_returned(e, key) {
            if !pv.minted.contains(key) {
                assert(nv.minted[nv.minted.len() - 1] == key);
            }
            assert(nv.minted.contains(key));
            assert(user_returned(events[events.len() - 1], key));
        } else {
            if nv.minted.contains(key) {
                let j = choose|j: int| 0 <= j < nv.minted.len() && nv.minted[j] == key;
                if nv.minted != pv.minted {
                    if j < pv.minted.len() {
                        assert(pv.minted[j] == key);
                    }
                }
                assert(pv.minted.contains(key));
            }
            if pv.minted.contains(key) {
                let j = choose|j: int| 0 <= j < pv.minted.len() && pv.minted[j] == key;
                assert(nv.minted[j] == key);
            }
            if exists|i: int| 0 <= i < events.len() && #[trigger] user_returned(events[i], key) {
                let i = choose|i: int| 0 <= i < events.len() && #[trigger] user_returned(events[i], key);
                assert(i < events.len() - 1);
                assert(prev[i] == events[i]);
            }
            if exists|i: int| 0 <= i < prev.len() && #[trigger] user_returned(prev[i], key) {
                let i = choose|i: int| 0 <= i < prev.len() && #[trigger] user_returned(prev[i], key);
                assert(events[i] == prev[i]);
            }
        }
    }
}

/// Each canonical string is remembered at most once, over any sequence of
/// `canonicalize` requests made to a fresh bridge.
pub proof fn law_minted_keys_are_unique(has_fallback: bool, events: Seq<CanonicalizeEvent>)
    ensures
        canonicalize_run(BridgeView { has_fallback, minted: Seq::empty() }, events).minted.no_duplicates(),
    decreases events.len(),
{
    if events.len() > 0 {
        law_minted_keys_are_unique(has_fallback, events.drop_last());
        let pv = canonicalize_run(BridgeView { has_fallback, minted: Seq::empty() }, events.drop_last());
        let nv = canonicalize_next(pv, events.last());
        if nv.minted != pv.minted {
            let k = nv.minted[nv.minted.len() - 1];
            assert(!pv.minted.contains(k));
            assert forall|i: int, j: int| 0 <= i < nv.minted.len() && 0 <= j < nv.minted.len() && i != j
                implies nv.minted[i] != nv.minted[j] by {
                if i == nv.minted.len() - 1 {
                    assert(pv.minted[j] == nv.minted[j]);
                } else if j == nv.minted.len() - 1 {
                    assert(pv.minted[i] == nv.minted[i]);
                }
            }
        }
    }
}

/// Over any sequence of `canonicalize` requests made to a fresh bridge, a
/// later `load` of `key` calls the userland `load()` only if the userland
/// `canonicalize()` returned `key` in one of those requests; any other key goes
/// to the filesystem fallback, or is not found when there is none.
pub proof fn law_user_load_only_for_returned_keys(
    has_fallback: bool,
    events: Seq<CanonicalizeEvent>,
    key: String,
    exception_pending: bool,
    a: LoadAction,
)
    requires
        load_action_matches(
            canonicalize_run(BridgeView { has_fallback, minted: Seq::empty() }, events),
            LoadEvent::Start { canonical: key, exception_pending },
            a,
        ),
    ensures
        a is CallUser ==> exists|i: int| 0 <= i < events.len() && #[trigger] user_returned(events[i], key@),
        !(exists|i: int| 0 <= i < events.len() && #[trigger] user_returned(events[i], key@)) ==> if has_fallback {
            a is CallFallback
        } else {
            a matches LoadAction::Answer(Ok(None))
        },
{
    lemma_run_minted(BridgeView { has_fallback, minted: Seq::empty() }, events, key@);
}

/// The codes name the options as documented: `STYLE_EXPANDED` (0) and
/// `STYLE_COMPRESSED` (1); `SYNTAX_SCSS` (0), `SYNTAX_SASS` (1) and `SYNTAX_CSS`
/// (2); every other code names nothing.
pub proof fn law_code_table(code: int)
    ensures
        style_for_code(0) == Some(Style::Expanded),
        style_for_code(1) == Some(Style::Compressed),
        syntax_for_code(0) == Some(InputSyntax::Scss),
        syntax_for_code(1) == Some(InputSyntax::Sass),
        syntax_for_code(2) == Some(InputSyntax::Css),
        style_for_code(code) is Some <==> 0 <= code <= 1,
        syntax_for_code(code) is Some <==> 0 <= code <= 2,
{
}

/// A compilation without a userland importer runs the compiler with the
/// configured style, syntax, glyph setting and URL; when load paths are set it
/// runs with a filesystem importer over exactly those paths, in order, and
/// otherwise with no importer.
pub proof fn law_compile_uses_the_configuration<H>(
    source: Seq<char>,
    v: CompilerView<H>,
    outcome: Result<Seq<char>, Seq<char>>,
)
    requires
        codes_valid(v),
        may_compile_as_configured(source, v, outcome),
    ensures
        v.load_paths.len() > 0 ==> sasso_may_compile_from_paths(
            source,
            style_for_code(v.style as int).unwrap(),
            syntax_for_code(v.syntax as int).unwrap(),
            v.unicode,
            v.url,
            v.load_paths,
            outcome,
        ),
        v.load_paths.len() == 0 ==> sasso_may_compile(
            source,
            style_for_code(v.style as int).unwrap(),
            syntax_for_code(v.syntax as int).unwrap(),
            v.unicode,
            v.url,
            outcome,
        ),
        v.style == STYLE_EXPANDED ==> style_for_code(v.style as int).unwrap() == Style::Expanded,
        v.style == STYLE_COMPRESSED ==> style_for_code(v.style as int).unwrap() == Style::Compressed,
        v.syntax == SYNTAX_SCSS ==> syntax_for_code(v.syntax as int).unwrap() == InputSyntax::Scss,
        v.syntax == SYNTAX_SASS ==> syntax_for_code(v.syntax as int).unwrap() == InputSyntax::Sass,
        v.syntax == SYNTAX_CSS ==> syntax_for_code(v.syntax as int).unwrap() == InputSyntax::Css,
{
}

/// A plan carries the configured options, whatever the import route: the
/// style and syntax the codes name, the glyph setting and the URL; and its
/// route holds exactly the configured load paths, in order, as the fallback of
/// a userland importer or as the filesystem importer's search list.
pub proof fn law_plan_follows_the_configuration<H>(p: CompilePlan, v: CompilerView<H>)
    requires
        plan_matches(p, v),
    ensures
        v.style == STYLE_EXPANDED ==> p.settings.style == Style::Expanded,
        v.style == STYLE_COMPRESSED ==> p.settings.style == Style::Compressed,
        v.syntax == SYNTAX_SCSS ==> p.settings.syntax == InputSyntax::Scss,
        v.syntax == SYNTAX_SASS ==> p.settings.syntax == InputSyntax::Sass,
        v.syntax == SYNTAX_CSS ==> p.settings.syntax == InputSyntax::Css,
        p.settings.unicode == v.unicode,
        match p.settings.url {
            Some(u) => v.url == Some(u@),
            None => v.url is None,
        },
        v.importer is Some && v.load_paths.len() > 0 ==> (p.route matches ImportRoute::UserImporter(Some(paths))
            && paths.deep_view() == v.load_paths),
        v.importer is Some && v.load_paths.len() == 0 ==> p.route == ImportRoute::UserImporter(None),
        v.importer is None && v.load_paths.len() > 0 ==> (p.route matches ImportRoute::LoadPaths(paths)
            && paths.deep_view() == v.load_paths),
        v.importer is None && v.load_paths.len() == 0 ==> p.route == ImportRoute::Unresolved,
{
}

/// A `Sasso\ImporterResult` that the userland `load()` returns (with no
/// exception pending) is handed to the compiler as is: its contents, its
/// source-map URL, and the syntax its code names.
pub proof fn law_importer_result_is_loaded_as_given(v: BridgeView, r: ImporterResultClass, a: LoadAction)
    requires
        load_action_matches(v, LoadEvent::UserAnswered { exception_pending: false, reply: LoadReply::Result(r) }, a),
        0 <= r.syntax <= 2,
    ensures
        a matches LoadAction::Answer(Ok(Some(l))) && l.contents@ == r.contents@
            && opt_str_view(l.source_map_url) == opt_str_view(r.source_map_url)
            && (r.syntax == SYNTAX_SCSS ==> l.syntax == InputSyntax::Scss)
            && (r.syntax == SYNTAX_SASS ==> l.syntax == InputSyntax::Sass)
            && (r.syntax == SYNTAX_CSS ==> l.syntax == InputSyntax::Css),
{
}

/// With no exception pending, a compilation reports the compiler's CSS, or its
/// diagnostic as a compile error, whether or not a userland importer took
/// part; a pending exception is re-thrown only when a userland importer took
/// part and an exception is pending.
pub proof fn law_compile_result_reported_unless_exception(
    user_importer: bool,
    exception_pending: bool,
    result: Result<String, String>,
)
    ensures
        outcome_of(user_importer, exception_pending, result) is RethrowPending ==> user_importer
            && exception_pending,
        !exception_pending ==> (result matches Ok(css) ==> outcome_of(user_importer, false, result)
            == RunOutcome::Css(css)),
        !exception_pending ==> (result matches Err(message) ==> outcome_of(user_importer, false, result)
            == RunOutcome::Failed(CompileError::Failed(CompileException { message }))),
{
}

} // verus!
