use jet_host::capability::{
    args_match, arity, capability_catalog, is_async, settle_fetch, settle_read_file,
    settle_remove_file, settle_write_file, CapabilityName,
};
use jet_host::driver::{
    bootstrap_source, default_context, default_request, entry_export_name, plan_entry, Driver,
    DriverAction, EngineEvent, EntryMode, Phase,
};
use jet_host::errors::{CapabilityError, GraphFailure, LoadError, RunError};
use jet_host::specifier::{ModuleSpecifier, Scheme};
use jet_host::value::{host_value_eq, to_json_text, HostValue};

fn file_referrer(path: &str) -> ModuleSpecifier {
    ModuleSpecifier { scheme: Scheme::File, path: path.to_string() }
}

fn mapping(fields: Vec<(&str, HostValue)>) -> HostValue {
    let mut out: Vec<(String, HostValue)> = Vec::new();
    for (k, v) in fields {
        out.push((k.to_string(), v));
    }
    HostValue::Mapping(out)
}

#[test]
fn identity_handler_returns_the_request_unchanged() {
    // A minimal typed-surface module exporting `handle` that returns its
    // first argument: the engine decodes the settled return back into the
    // request value.
    let mut driver = Driver::new(default_request(), default_context());
    assert!(matches!(driver.next_action(), DriverAction::BuildModuleGraph));
    driver.step(EngineEvent::GraphReady);
    driver.step(EngineEvent::Evaluated);
    driver.step(EngineEvent::Drained);
    driver.step(EngineEvent::ExportFound { callable: true });
    let echoed = default_request();
    driver.step(EngineEvent::Returned(echoed));
    match &driver.phase {
        Phase::Finished(Ok(v)) => {
            assert!(host_value_eq(v, &default_request()));
            assert_eq!(to_json_text(v), "{\"to\":\"Alice\"}");
            assert_eq!(to_json_text(&driver.request), "{\"to\":\"Alice\"}");
            assert_eq!(
                to_json_text(&driver.context),
                "{\"current_user\":{\"name\":\"Alice\"}}"
            );
        },
        other => panic!("expected a delivered value, got {:?}", to_phase_name(other)),
    }
}

#[test]
fn pending_results_settle_losslessly() {
    let mut driver = Driver::new(default_request(), default_context());
    driver.step(EngineEvent::GraphReady);
    driver.step(EngineEvent::Evaluated);
    driver.step(EngineEvent::Drained);
    driver.step(EngineEvent::ExportFound { callable: true });
    driver.step(EngineEvent::ReturnedPending);
    assert!(matches!(driver.next_action(), DriverAction::AwaitSettlement));
    let settled = mapping(vec![
        ("status", HostValue::Int(200)),
        ("data", HostValue::Text("ok".to_string())),
    ]);
    driver.step(EngineEvent::Settled(settled));
    match &driver.phase {
        Phase::Finished(Ok(v)) => {
            let expected = mapping(vec![
                ("status", HostValue::Int(200)),
                ("data", HostValue::Text("ok".to_string())),
            ]);
            assert!(host_value_eq(v, &expected));
            assert_eq!(to_json_text(v), "{\"status\":200,\"data\":\"ok\"}");
        },
        other => panic!("expected a delivered value, got {:?}", to_phase_name(other)),
    }
}

#[test]
fn missing_or_uncallable_exports_are_entry_not_found() {
    let mut driver = Driver::new(default_request(), default_context());
    driver.step(EngineEvent::GraphReady);
    driver.step(EngineEvent::Evaluated);
    driver.step(EngineEvent::Drained);
    driver.step(EngineEvent::ExportMissing);
    assert!(matches!(&driver.phase, Phase::Finished(Err(RunError::EntryNotFound))));

    let mut driver = Driver::new(default_request(), default_context());
    driver.step(EngineEvent::GraphReady);
    driver.step(EngineEvent::Evaluated);
    driver.step(EngineEvent::Drained);
    driver.step(EngineEvent::ExportFound { callable: false });
    assert!(matches!(&driver.phase, Phase::Finished(Err(RunError::EntryNotFound))));
}

#[test]
fn unsupported_media_kind_reaches_the_caller_of_run() {
    let mut driver = Driver::new(default_request(), default_context());
    driver.step(EngineEvent::GraphFailed(GraphFailure::Load(LoadError::UnsupportedMediaKind)));
    match &driver.phase {
        Phase::Finished(Err(RunError::ModuleGraphFailure(GraphFailure::Load(
            LoadError::UnsupportedMediaKind,
        )))) => {},
        other => panic!("expected a module-graph failure, got {:?}", to_phase_name(other)),
    }
    // A finished run is final.
    let mut driver2 = Driver::new(default_request(), default_context());
    driver2.step(EngineEvent::GraphFailed(GraphFailure::Load(LoadError::UnsupportedMediaKind)));
    driver2.step(EngineEvent::GraphReady);
    assert!(matches!(&driver2.phase, Phase::Finished(Err(_))));
}

#[test]
fn uncaught_script_failures_keep_their_message() {
    let mut driver = Driver::new(default_request(), default_context());
    driver.step(EngineEvent::GraphReady);
    driver.step(EngineEvent::ScriptFailed("boom".to_string()));
    match &driver.phase {
        Phase::Finished(Err(RunError::UncaughtScriptFailure(m))) => assert_eq!(m, "boom"),
        other => panic!("expected an uncaught failure, got {:?}", to_phase_name(other)),
    }
}

fn to_phase_name(p: &Phase) -> &'static str {
    match p {
        Phase::BuildGraph => "BuildGraph",
        Phase::Evaluate => "Evaluate",
        Phase::DrainBeforeLookup => "DrainBeforeLookup",
        Phase::Lookup => "Lookup",
        Phase::Invoke => "Invoke",
        Phase::DrainAfterInvoke => "DrainAfterInvoke",
        Phase::Finished(_) => "Finished",
    }
}

#[test]
fn entry_modes_cover_both_run_shapes() {
    let referrer = file_referrer("/work/.");
    let entry = plan_entry(Some("./main.ts"), &referrer).unwrap();
    match entry {
        EntryMode::ModuleGraph(m) => {
            assert_eq!(m.scheme, Scheme::File);
            assert_eq!(m.path, "/work/main.ts");
        },
        EntryMode::Bootstrap => panic!("expected a module-graph entry"),
    }
    assert!(matches!(plan_entry(None, &referrer), Ok(EntryMode::Bootstrap)));
    match plan_entry(Some("bare.ts"), &referrer).unwrap() {
        EntryMode::ModuleGraph(m) => assert_eq!(m.path, "/work/bare.ts"),
        EntryMode::Bootstrap => panic!("expected a module-graph entry"),
    }
    assert!(matches!(
        plan_entry(Some(""), &referrer),
        Err(RunError::ModuleGraphFailure(GraphFailure::Resolution(_)))
    ));
    assert!(bootstrap_source().contains("jet:query"));
    assert_eq!(entry_export_name(), "handle");
}

#[test]
fn the_capability_catalog_is_fixed() {
    let catalog = capability_catalog();
    assert_eq!(
        catalog,
        vec![
            CapabilityName::ReadFile,
            CapabilityName::WriteFile,
            CapabilityName::RemoveFile,
            CapabilityName::Fetch,
        ]
    );
    assert_eq!(arity(CapabilityName::ReadFile), 1);
    assert_eq!(arity(CapabilityName::WriteFile), 2);
    assert_eq!(arity(CapabilityName::RemoveFile), 1);
    assert_eq!(arity(CapabilityName::Fetch), 1);
    assert!(is_async(CapabilityName::ReadFile));
    assert!(is_async(CapabilityName::WriteFile));
    assert!(!is_async(CapabilityName::RemoveFile));
    assert!(is_async(CapabilityName::Fetch));
    let two = vec!["a".to_string(), "b".to_string()];
    assert!(args_match(CapabilityName::WriteFile, &two));
    assert!(!args_match(CapabilityName::ReadFile, &two));
}

#[test]
fn write_then_read_returns_the_written_contents() {
    let rt = tokio::runtime::Builder::new_current_thread().enable_all().build().unwrap();
    let path = "/tmp/host_write_then_read.tmp";
    let written = rt
        .block_on(tokio::fs::write(path, "payload from the same execution"))
        .map_err(|e| e.to_string());
    assert_eq!(settle_write_file(written), Ok(HostValue::Null));
    let read = rt.block_on(tokio::fs::read_to_string(path)).map_err(|e| e.to_string());
    assert_eq!(
        settle_read_file(read),
        Ok(HostValue::Text("payload from the same execution".to_string()))
    );
    let removed = rt.block_on(tokio::fs::remove_file(path)).map_err(|e| e.to_string());
    assert_eq!(settle_remove_file(removed), Ok(HostValue::Null));
}

#[test]
fn removing_a_nonexistent_path_is_an_io_error_not_a_panic() {
    let rt = tokio::runtime::Builder::new_current_thread().enable_all().build().unwrap();
    let removed = rt
        .block_on(tokio::fs::remove_file("/tmp/definitely_not_present.tmp"))
        .map_err(|e| e.to_string());
    match settle_remove_file(removed) {
        Err(CapabilityError::Io(cause)) => assert!(!cause.is_empty()),
        other => panic!("expected an io capability error, got {:?}", other),
    }
}

#[test]
fn read_failures_are_io_and_fetch_failures_are_network() {
    let r = settle_read_file(Err("denied".to_string()));
    assert_eq!(r, Err(CapabilityError::Io("denied".to_string())));
    let r = settle_fetch(Err("unreachable".to_string()));
    assert_eq!(r, Err(CapabilityError::Network("unreachable".to_string())));
    let r = settle_fetch(Ok("body".to_string()));
    assert_eq!(r, Ok(HostValue::Text("body".to_string())));
}
