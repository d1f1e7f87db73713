//! The userland importer bridge: how `@use` / `@forward` / `@import` requests
//! are routed between a `Sasso\Importer` object and the load-path fallback.
//!
//! Resolution has two phases. `canonicalize` maps a URL to a canonical string;
//! `load` fetches the source of a canonical string. Canonical strings the
//! userland importer minted are remembered, so `load` knows whether to ask the
//! userland importer again or the filesystem fallback, which owns every other
//! key. When the userland importer answers `null` in either phase, the
//! filesystem fallback, if there is one, is asked instead. Once a userland
//! exception is pending, the userland importer is not called again. The calls
//! themselves are made by the PHP side: each step here takes what happened
//! and says what to do next.

use vstd::prelude::*;

use crate::codes::{
    importer_syntax, syntax_for_code, ImporterFailure, InputSyntax, SYNTAX_CSS, SYNTAX_SASS, SYNTAX_SCSS,
};
use crate::compiler::{opt_str_view, CompilePlan, ImportRoute};

verus! {

/// The source a `Sasso\Importer::load()` produced: a `Sasso\ImporterResult`.
#[derive(Debug, PartialEq, Eq)]
pub struct ImporterResultClass {
    /// The stylesheet source text.
    pub contents: String,
    /// The `SYNTAX_*` code the contents are parsed with.
    pub syntax: i64,
    /// The URL recorded for this source in source maps; `None` means the
    /// canonical URL.
    pub source_map_url: Option<String>,
}

/// A loaded stylesheet, as handed to the compiler.
#[derive(Debug, PartialEq, Eq)]
pub struct LoadedSource {
    pub contents: String,
    pub syntax: InputSyntax,
    pub source_map_url: Option<String>,
}

fn clone_opt_string(s: &Option<String>) -> (res: Option<String>)
    ensures
        opt_str_view(res) == opt_str_view(*s),
{
    match s {
        Some(v) => Some(v.clone()),
        None => None,
    }
}

impl ImporterResultClass {
    /// An importer result from its contents, an optional `SYNTAX_*` code
    /// (SCSS when absent) and an optional source-map URL.
    pub fn new(contents: String, syntax: Option<i64>, source_map_url: Option<String>) -> (res: Self)
        ensures
            res.contents == contents,
            res.syntax == match syntax {
                Some(code) => code,
                None => SYNTAX_SCSS,
            },
            res.source_map_url == source_map_url,
    {
        let syntax = match syntax {
            Some(code) => code,
            None => SYNTAX_SCSS,
        };
        ImporterResultClass { contents, syntax, source_map_url }
    }

    /// The loaded source this result describes; an unknown syntax code is an
    /// importer failure.
    pub fn to_loaded(&self) -> (res: Result<LoadedSource, ImporterFailure>)
        ensures
            match syntax_for_code(self.syntax as int) {
                Some(s) => res matches Ok(l) && l.contents@ == self.contents@ && l.syntax == s
                    && opt_str_view(l.source_map_url) == opt_str_view(self.source_map_url),
                None => res matches Err(e) && e.message@
                    == crate::codes::invalid_result_syntax_message(self.syntax as int),
            },
    {
        let syntax = match importer_syntax(self.syntax) {
            Ok(s) => s,
            Err(e) => return Err(e),
        };
        Ok(LoadedSource {
            contents: self.contents.clone(),
            syntax,
            source_map_url: clone_opt_string(&self.source_map_url),
        })
    }
}

/// What a call of the userland `load()` returned.
#[derive(Debug, PartialEq, Eq)]
pub enum LoadReply {
    /// `null`, any other non-object, or a call that failed.
    NotAnObject,
    /// An object that is not a `Sasso\ImporterResult`.
    Foreign,
    /// A `Sasso\ImporterResult`.
    Result(ImporterResultClass),
}

/// What happened in a `canonicalize` request.
#[derive(Debug, PartialEq, Eq)]
pub enum CanonicalizeEvent {
    /// The request arrives; `exception_pending` tells whether a userland
    /// exception is already pending.
    Start { exception_pending: bool },
    /// The userland `canonicalize()` returned: a string, or `None` for `null`
    /// (or any non-string); `exception_pending` is read after the call.
    UserAnswered { exception_pending: bool, canonical: Option<String> },
}

/// What to do next in a `canonicalize` request.
#[derive(Debug, PartialEq, Eq)]
pub enum CanonicalizeAction {
    /// Answer the compiler with this canonical URL (`None`: not handled).
    Answer(Option<String>),
    /// Call the userland `canonicalize()`.
    CallUser,
    /// Answer with whatever the filesystem fallback answers.
    CallFallback,
}

/// What happened in a `load` request.
#[derive(Debug, PartialEq, Eq)]
pub enum LoadEvent {
    /// The request for `canonical` arrives.
    Start { canonical: String, exception_pending: bool },
    /// The userland `load()` returned; `exception_pending` is read after the call.
    UserAnswered { exception_pending: bool, reply: LoadReply },
}

/// What to do next in a `load` request.
#[derive(Debug, PartialEq, Eq)]
pub enum LoadAction {
    /// Answer the compiler.
    Answer(Result<Option<LoadedSource>, ImporterFailure>),
    /// Call the userland `load()` with this canonical URL.
    CallUser(String),
    /// Answer with whatever the filesystem fallback answers.
    CallFallback,
}

/// The state of the bridge: whether a filesystem fallback exists, and the
/// canonical strings the userland importer minted so far.
pub struct BridgeView {
    pub has_fallback: bool,
    pub minted: Seq<Seq<char>>,
}

/// The bridge between the compiler and one userland importer.
pub struct ImporterBridge {
    has_fallback: bool,
    minted: Vec<String>,
}

impl View for ImporterBridge {
    type V = BridgeView;

    closed spec fn view(&self) -> BridgeView {
        BridgeView { has_fallback: self.has_fallback, minted: self.minted.deep_view() }
    }
}

/// The state after a `canonicalize` event: a string the userland importer
/// returned, with no exception pending, is remembered.
pub open spec fn canonicalize_next(v: BridgeView, event: CanonicalizeEvent) -> BridgeView {
    match event {
        CanonicalizeEvent::UserAnswered { exception_pending, canonical } => {
            if !exception_pending && canonical is Some && !v.minted.contains(canonical->0@) {
                BridgeView { minted: v.minted.push(canonical->0@), ..v }
            } else {
                v
            }
        },
        _ => v,
    }
}

/// What to do after a `canonicalize` event: stop once a userland exception is
/// pending; otherwise ask the userland importer, take its string, or, when it
/// returned `null`, ask the fallback if there is one.
pub open spec fn canonicalize_action(v: BridgeView, event: CanonicalizeEvent) -> CanonicalizeAction {
    match event {
        CanonicalizeEvent::Start { exception_pending } => {
            if exception_pending {
                CanonicalizeAction::Answer(None)
            } else {
                CanonicalizeAction::CallUser
            }
        },
        CanonicalizeEvent::UserAnswered { exception_pending, canonical } => {
            if exception_pending {
                CanonicalizeAction::Answer(None)
            } else if canonical is Some {
                CanonicalizeAction::Answer(canonical)
            } else if v.has_fallback {
                CanonicalizeAction::CallFallback
            } else {
                CanonicalizeAction::Answer(None)
            }
        },
    }
}

/// The message for a `load()` that returned an object of another class.
pub open spec fn foreign_result_message() -> Seq<char> {
    "Sasso\\Importer::load() must return a Sasso\\ImporterResult or null"@
}

/// `action` is what to do after a `load` event: a key the userland importer
/// did not mint goes to the fallback (or is not found without one); a minted
/// key goes back to the userland importer unless an exception is pending; a
/// `null` reply goes to the fallback (or is not found without one), another
/// object is an error, and a `Sasso\ImporterResult` is the answer when its
/// syntax code is valid.
pub open spec fn load_action_matches(v: BridgeView, event: LoadEvent, action: LoadAction) -> bool {
    match event {
        LoadEvent::Start { canonical, exception_pending } => {
            if !v.minted.contains(canonical@) {
                if v.has_fallback {
                    action is CallFallback
                } else {
                    action matches LoadAction::Answer(Ok(None))
                }
            } else if exception_pending {
                action matches LoadAction::Answer(Ok(None))
            } else {
                action matches LoadAction::CallUser(key) && key@ == canonical@
            }
        },
        LoadEvent::UserAnswered { exception_pending, reply } => {
            if exception_pending {
                action matches LoadAction::Answer(Ok(None))
            } else {
                match reply {
                    LoadReply::NotAnObject => if v.has_fallback {
                        action is CallFallback
                    } else {
                        action matches LoadAction::Answer(Ok(None))
                    },
                    LoadReply::Foreign => action matches LoadAction::Answer(Err(e))
                        && e.message@ == foreign_result_message(),
                    LoadReply::Result(r) => match syntax_for_code(r.syntax as int) {
                        Some(s) => action matches LoadAction::Answer(Ok(Some(l)))
                            && l.contents@ == r.contents@ && l.syntax == s
                            && opt_str_view(l.source_map_url) == opt_str_view(r.source_map_url),
                        None => action matches LoadAction::Answer(Err(e))
                            && e.message@ == crate::codes::invalid_result_syntax_message(r.syntax as int),
                    },
                }
            }
        },
    }
}

impl ImporterBridge {
    /// A bridge that has minted nothing yet, with or without a fallback.
    pub fn new(has_fallback: bool) -> (res: Self)
        ensures
            res@.has_fallback == has_fallback,
            res@.minted == Seq::<Seq<char>>::empty(),
    {
        let res = ImporterBridge { has_fallback, minted: Vec::new() };
        assert(res.minted.deep_view() =~= Seq::<Seq<char>>::empty());
        res
    }

    /// Whether the userland importer minted `key`.
    pub fn minted(&self, key: &String) -> (res: bool)
        ensures
            res == self@.minted.contains(key@),
    {
        let mut i: usize = 0;
        while i < self.minted.len()
            invariant
                i <= self.minted.len(),
                forall|j: int| 0 <= j < i ==> self.minted.deep_view()[j] != key@,
            decreases self.minted.len() - i,
        {
            if self.minted[i] == *key {
                assert(self.minted.deep_view()[i as int] == key@);
                return true;
            }
            i = i + 1;
        }
        proof {
            if self@.minted.contains(key@) {
                let j = choose|j: int| 0 <= j < self@.minted.len() && self@.minted[j] == key@;
                assert(self.minted.deep_view()[j] == key@);
            }
        }
        false
    }

    /// Takes a `canonicalize` event and says what to do next.
    pub fn canonicalize_step(&mut self, event: CanonicalizeEvent) -> (res: CanonicalizeAction)
        ensures
            final(self)@ == canonicalize_next(old(self)@, event),
            res == canonicalize_action(old(self)@, event),
    {
        match event {
            CanonicalizeEvent::Start { exception_pending } => {
                if exception_pending {
                    CanonicalizeAction::Answer(None)
                } else {
                    CanonicalizeAction::CallUser
                }
            },
            CanonicalizeEvent::UserAnswered { exception_pending, canonical } => {
                if exception_pending {
                    CanonicalizeAction::Answer(None)
                } else {
                    match canonical {
                        Some(c) => {
                            if !self.minted(&c) {
                                self.minted.push(c.clone());
                                proof {
                                    assert(self.minted.deep_view() =~= old(self).minted.deep_view().push(c@));
                                }
                            }
                            CanonicalizeAction::Answer(Some(c))
                        },
                        None => {
                            if self.has_fallback {
                                CanonicalizeAction::CallFallback
                            } else {
                                CanonicalizeAction::Answer(None)
                            }
                        },
                    }
                }
            },
        }
    }

    /// Takes a `load` event and says what to do next.
    pub fn load_step(&self, event: LoadEvent) -> (res: LoadAction)
        ensures
            load_action_matches(self@, event, res),
            event matches LoadEvent::UserAnswered { exception_pending, reply } ==> !exception_pending ==> (
            reply matches LoadReply::Result(r) ==> (0 <= r.syntax <= 2 ==> (res matches LoadAction::Answer(
                Ok(Some(l)),
            ) && l.contents@ == r.contents@ && opt_str_view(l.source_map_url) == opt_str_view(
                r.source_map_url,
            ) && (r.syntax == SYNTAX_SCSS ==> l.syntax == InputSyntax::Scss) && (r.syntax == SYNTAX_SASS
                ==> l.syntax == InputSyntax::Sass) && (r.syntax == SYNTAX_CSS ==> l.syntax
                == InputSyntax::Css)))),
    {
        match event {
            LoadEvent::Start { canonical, exception_pending } => {
                if !self.minted(&canonical) {
                    if self.has_fallback {
                        LoadAction::CallFallback
                    } else {
                        LoadAction::Answer(Ok(None))
                    }
                } else if exception_pending {
                    LoadAction::Answer(Ok(None))
                } else {
                    LoadAction::CallUser(canonical)
                }
            },
            LoadEvent::UserAnswered { exception_pending, reply } => {
                if exception_pending {
                    LoadAction::Answer(Ok(None))
                } else {
                    match reply {
                        LoadReply::NotAnObject => {
                            if self.has_fallback {
                                LoadAction::CallFallback
                            } else {
                                LoadAction::Answer(Ok(None))
                            }
                        },
                        LoadReply::Foreign => LoadAction::Answer(Err(ImporterFailure {
                            message: String::from_str("Sasso\\Importer::load() must return a Sasso\\ImporterResult or null"),
                        })),
                        LoadReply::Result(r) => match r.to_loaded() {
                            Ok(l) => LoadAction::Answer(Ok(Some(l))),
                            Err(e) => LoadAction::Answer(Err(e)),
                        },
                    }
                }
            },
        }
    }
}

impl CompilePlan {
    /// The bridge a compilation with this plan routes imports through: one
    /// exactly when a userland importer is set, with a fallback exactly when
    /// load paths were configured.
    pub fn user_importer_bridge(&self) -> (res: Option<ImporterBridge>)
        ensures
            match self.route {
                ImportRoute::UserImporter(fallback) => res matches Some(b)
                    && b@.has_fallback == fallback is Some && b@.minted.len() == 0,
                _ => res is None,
            },
    {
        match &self.route {
            ImportRoute::UserImporter(fallback) => Some(ImporterBridge::new(fallback.is_some())),
            _ => None,
        }
    }
}

} // verus!
