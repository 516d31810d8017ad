use zjs::loader::{BuiltinStep, EntryStep, ModuleLoader, ModuleStep, ResolveRequest};

#[test]
fn uncached_path_needs_source() {
    let loader = ModuleLoader::new();
    assert_eq!(loader.get_or_compile_module(b"/tmp/a.js"), ModuleStep::NeedsSource);
}

#[test]
fn cached_module_is_returned_and_file_read_once() {
    let mut loader = ModuleLoader::new();
    assert_eq!(loader.get_or_compile_module(b"/tmp/a.js"), ModuleStep::NeedsSource);
    loader.record_compiled(41, b"/tmp/a.js");
    loader.record_instantiated(b"/tmp/a.js", 9000);
    // repeated asks hand back the same persistent handle without a read
    assert_eq!(loader.get_or_compile_module(b"/tmp/a.js"), ModuleStep::Cached(9000));
    assert_eq!(loader.get_or_compile_module(b"/tmp/a.js"), ModuleStep::Cached(9000));
    assert_eq!(loader.get_or_compile_module(b"/tmp/a.js"), ModuleStep::Cached(9000));
    // another module does not disturb the entry
    loader.record_instantiated(b"/tmp/b.js", 9001);
    assert_eq!(loader.get_or_compile_module(b"/tmp/a.js"), ModuleStep::Cached(9000));
}

#[test]
fn failed_instantiation_leaves_no_cache_entry() {
    let mut loader = ModuleLoader::new();
    loader.record_compiled(41, b"/tmp/bad.js");
    // instantiation failed: nothing was recorded in the cache
    assert_eq!(loader.get_or_compile_module(b"/tmp/bad.js"), ModuleStep::NeedsSource);
}

#[test]
fn entry_module_steps() {
    let mut loader = ModuleLoader::new();
    assert_eq!(loader.create_first_module(None), EntryStep::BadPath);
    let canonical = b"/tmp/main.js".to_vec();
    assert_eq!(loader.create_first_module(Some(&canonical)), EntryStep::NeedsSource);
    loader.record_instantiated(b"/tmp/main.js", 7);
    assert_eq!(loader.create_first_module(Some(&canonical)), EntryStep::Cached(7));
}

#[test]
fn builtin_synthesized_once_per_specifier() {
    let mut loader = ModuleLoader::new();
    assert_eq!(loader.load_builtin_module(b"fs"), BuiltinStep::NeedsInit);
    loader.record_builtin(b"fs", 4242);
    // both importers of the bare specifier get the same synthetic module
    assert_eq!(loader.load_builtin_module(b"fs"), BuiltinStep::Cached(4242));
    assert_eq!(loader.load_builtin_module(b"fs"), BuiltinStep::Cached(4242));
    assert_eq!(loader.load_builtin_module(b"net"), BuiltinStep::NeedsInit);
}

#[test]
fn resolve_request_dispatches_builtin() {
    let loader = ModuleLoader::new();
    assert!(matches!(loader.resolve_request(1, b"fs"), ResolveRequest::Builtin));
}

#[test]
fn resolve_request_fails_for_unknown_referrer() {
    let loader = ModuleLoader::new();
    assert!(matches!(
        loader.resolve_request(1, b"./b.js"),
        ResolveRequest::MissingReferrer
    ));
}

#[test]
fn resolve_request_builds_candidates_from_referrer_dir() {
    let mut loader = ModuleLoader::new();
    loader.record_compiled(7, b"/tmp/a.js");
    match loader.resolve_request(7, b"./b.js") {
        ResolveRequest::Candidates(cands) => {
            assert_eq!(cands.len(), 2);
            assert_eq!(cands[0], b"/tmp/./b.js".to_vec());
            assert_eq!(cands[1], b"/tmp/./b.js".to_vec());
        }
        _ => panic!("expected candidates"),
    }
}

/// The whole load of a small graph, driven as the embedder drives it: two
/// modules both import a shared one, and the shared module is read, compiled
/// and instantiated exactly once.
#[test]
fn shared_import_is_loaded_once_across_the_graph() {
    let mut loader = ModuleLoader::new();

    // entry /tmp/a.js compiles; its identity is recorded before instantiation
    loader.record_compiled(1, b"/tmp/a.js");

    // during instantiation, a.js imports "./shared.js"
    let request = loader.resolve_request(1, b"./shared.js");
    let candidates = match request {
        ResolveRequest::Candidates(c) => c,
        _ => panic!("a relative specifier resolves through candidates"),
    };
    // the literal candidate exists on disk and canonicalizes
    let canon: Vec<Option<Vec<u8>>> = vec![Some(b"/tmp/shared.js".to_vec()), None];
    let shared = zjs::resolve::pick_resolved(&canon).expect("the shared module exists");
    assert_eq!(candidates.len(), 2);
    assert_eq!(shared, b"/tmp/shared.js".to_vec());

    // first import: uncached, so the file is read once and recorded
    assert_eq!(loader.get_or_compile_module(&shared), ModuleStep::NeedsSource);
    loader.record_compiled(2, &shared);
    loader.record_instantiated(&shared, 20);

    // a second module /tmp/c.js imports the same specifier
    loader.record_compiled(3, b"/tmp/c.js");
    let request = loader.resolve_request(3, b"./shared.js");
    assert!(matches!(request, ResolveRequest::Candidates(_)));
    // the same canonical path is answered from the cache: no second read
    assert_eq!(loader.get_or_compile_module(&shared), ModuleStep::Cached(20));
}

#[test]
fn import_meta_dirname_comes_from_recorded_path() {
    let mut loader = ModuleLoader::new();
    loader.record_compiled(7, b"/tmp/a.js");
    assert_eq!(loader.import_meta_dirname(7), Some(b"/tmp".to_vec()));
    assert_eq!(loader.import_meta_dirname(8), None);
}
