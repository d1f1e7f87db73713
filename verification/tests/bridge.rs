use php_sasso::bridge::{
    CanonicalizeAction, CanonicalizeEvent, ImporterBridge, ImporterResultClass, LoadAction, LoadEvent,
    LoadReply, LoadedSource,
};
use php_sasso::codes::{ImporterFailure, InputSyntax};
use php_sasso::compiler::{Compiler, ImporterArg};

fn answered(canonical: Option<&str>) -> CanonicalizeEvent {
    CanonicalizeEvent::UserAnswered { exception_pending: false, canonical: canonical.map(|s| s.to_string()) }
}

fn load(canonical: &str) -> LoadEvent {
    LoadEvent::Start { canonical: canonical.to_string(), exception_pending: false }
}

#[test]
fn importer_result_defaults_to_scss() {
    let r = ImporterResultClass::new(".a{}".to_string(), None, None);
    assert_eq!(r.syntax, 0);
    let r = ImporterResultClass::new(".a".to_string(), Some(1), Some("map.sass".to_string()));
    assert_eq!(r.syntax, 1);
    assert_eq!(r.source_map_url, Some("map.sass".to_string()));
}

#[test]
fn importer_result_converts_to_loaded_source() {
    let r = ImporterResultClass::new("x".to_string(), Some(2), None);
    assert_eq!(
        r.to_loaded(),
        Ok(LoadedSource { contents: "x".to_string(), syntax: InputSyntax::Css, source_map_url: None })
    );
    let bad = ImporterResultClass::new("x".to_string(), Some(-4), None);
    assert_eq!(
        bad.to_loaded().err().unwrap().message,
        "Sasso\\ImporterResult::$syntax is -4; expected Compiler::SYNTAX_SCSS, SYNTAX_SASS or SYNTAX_CSS"
    );
}

#[test]
fn canonicalize_asks_the_user_importer_first() {
    let mut b = ImporterBridge::new(true);
    assert_eq!(
        b.canonicalize_step(CanonicalizeEvent::Start { exception_pending: false }),
        CanonicalizeAction::CallUser
    );
    assert_eq!(b.canonicalize_step(answered(Some("array:base"))), CanonicalizeAction::Answer(Some("array:base".to_string())));
}

#[test]
fn canonicalize_falls_back_to_load_paths_on_null() {
    let mut with_paths = ImporterBridge::new(true);
    assert_eq!(with_paths.canonicalize_step(answered(None)), CanonicalizeAction::CallFallback);
    let mut without = ImporterBridge::new(false);
    assert_eq!(without.canonicalize_step(answered(None)), CanonicalizeAction::Answer(None));
}

#[test]
fn minted_keys_load_from_the_user_importer() {
    let mut b = ImporterBridge::new(true);
    b.canonicalize_step(answered(Some("array:base")));
    assert!(b.minted(&"array:base".to_string()));
    assert_eq!(b.load_step(load("array:base")), LoadAction::CallUser("array:base".to_string()));
}

#[test]
fn other_keys_load_from_the_fallback() {
    let mut b = ImporterBridge::new(true);
    b.canonicalize_step(answered(Some("array:base")));
    assert_eq!(b.load_step(load("/abs/_other.scss")), LoadAction::CallFallback);
    let plain = ImporterBridge::new(false);
    assert_eq!(plain.load_step(load("/abs/_other.scss")), LoadAction::Answer(Ok(None)));
}

#[test]
fn minting_twice_is_remembered_once() {
    let mut b = ImporterBridge::new(false);
    b.canonicalize_step(answered(Some("k")));
    b.canonicalize_step(answered(Some("k")));
    assert!(b.minted(&"k".to_string()));
    assert!(!b.minted(&"j".to_string()));
}

#[test]
fn a_pending_exception_stops_the_user_importer() {
    let mut b = ImporterBridge::new(true);
    assert_eq!(
        b.canonicalize_step(CanonicalizeEvent::Start { exception_pending: true }),
        CanonicalizeAction::Answer(None)
    );
    assert_eq!(
        b.canonicalize_step(CanonicalizeEvent::UserAnswered {
            exception_pending: true,
            canonical: Some("k".to_string())
        }),
        CanonicalizeAction::Answer(None)
    );
    assert!(!b.minted(&"k".to_string()));
    b.canonicalize_step(answered(Some("k")));
    assert_eq!(
        b.load_step(LoadEvent::Start { canonical: "k".to_string(), exception_pending: true }),
        LoadAction::Answer(Ok(None))
    );
    let reply = LoadReply::Result(ImporterResultClass::new("x".to_string(), None, None));
    assert_eq!(
        b.load_step(LoadEvent::UserAnswered { exception_pending: true, reply }),
        LoadAction::Answer(Ok(None))
    );
}

#[test]
fn user_load_replies() {
    let b = ImporterBridge::new(false);
    assert_eq!(
        b.load_step(LoadEvent::UserAnswered { exception_pending: false, reply: LoadReply::NotAnObject }),
        LoadAction::Answer(Ok(None))
    );
    assert_eq!(
        b.load_step(LoadEvent::UserAnswered { exception_pending: false, reply: LoadReply::Foreign }),
        LoadAction::Answer(Err(ImporterFailure {
            message: "Sasso\\Importer::load() must return a Sasso\\ImporterResult or null".to_string()
        }))
    );
    let reply = LoadReply::Result(ImporterResultClass::new("$brand: red;".to_string(), None, Some("u".to_string())));
    assert_eq!(
        b.load_step(LoadEvent::UserAnswered { exception_pending: false, reply }),
        LoadAction::Answer(Ok(Some(LoadedSource {
            contents: "$brand: red;".to_string(),
            syntax: InputSyntax::Scss,
            source_map_url: Some("u".to_string())
        })))
    );
    let reply = LoadReply::Result(ImporterResultClass::new("x".to_string(), Some(8), None));
    match b.load_step(LoadEvent::UserAnswered { exception_pending: false, reply }) {
        LoadAction::Answer(Err(e)) => assert!(e.message.contains("is 8;")),
        other => panic!("unexpected {:?}", other),
    }
}

#[test]
fn a_null_load_falls_back_to_load_paths() {
    let mut b = ImporterBridge::new(true);
    b.canonicalize_step(answered(Some("array:base")));
    assert_eq!(b.load_step(load("array:base")), LoadAction::CallUser("array:base".to_string()));
    assert_eq!(
        b.load_step(LoadEvent::UserAnswered { exception_pending: false, reply: LoadReply::NotAnObject }),
        LoadAction::CallFallback
    );
    assert_eq!(
        b.load_step(LoadEvent::UserAnswered { exception_pending: true, reply: LoadReply::NotAnObject }),
        LoadAction::Answer(Ok(None))
    );
}

#[test]
fn plan_builds_the_bridge_for_the_user_importer() {
    let mut c: Compiler<u32> = Compiler::new();
    assert!(c.plan().unwrap().user_importer_bridge().is_none());
    c.add_import_path("lib".to_string());
    assert!(c.plan().unwrap().user_importer_bridge().is_none());
    c.set_importer(ImporterArg::Importer(1)).unwrap();
    let mut b = c.plan().unwrap().user_importer_bridge().unwrap();
    assert_eq!(b.canonicalize_step(answered(None)), CanonicalizeAction::CallFallback);
    c.set_import_paths(Vec::new());
    let mut b = c.plan().unwrap().user_importer_bridge().unwrap();
    assert_eq!(b.canonicalize_step(answered(None)), CanonicalizeAction::Answer(None));
}
