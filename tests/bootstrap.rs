use redoc_try_it_out::{
    asset_url, Action, Bootstrap, BootstrapError, Configuration, Event, LoadState, Phase,
    ScriptRegistry, ScriptRequest, Value,
};

fn config(entries: Vec<(&str, Value)>) -> Configuration {
    let payload = Value::Object(entries.into_iter().map(|(k, v)| (k.to_string(), v)).collect());
    Configuration::parse(&payload).unwrap()
}

const URL: &str = "https://cdn.jsdelivr.net/npm/redoc@2.1.3/bundles/redoc.standalone.min.js";

#[test]
fn asset_url_follows_the_version() {
    assert_eq!(asset_url("2.1.3"), URL);
    assert_eq!(
        asset_url("9.9.9"),
        "https://cdn.jsdelivr.net/npm/redoc@9.9.9/bundles/redoc.standalone.min.js"
    );
    assert_eq!(Bootstrap::new(config(vec![])).url, URL);
}

#[test]
fn first_call_appends_one_tag_and_succeeds() {
    let mut scripts = ScriptRegistry::new();
    let mut call = Bootstrap::new(config(vec![("hideLoading", Value::Bool(true))]));
    assert_eq!(call.phase, Phase::Idle);
    let a = call.step(&mut scripts, Event::Start { element_supplied: false });
    assert!(matches!(a, Action::LookupContainer { ref id } if id == "redoc-container"));
    assert_eq!(scripts.len(), 0);
    let a = call.step(&mut scripts, Event::ContainerLookup { found: true });
    assert!(matches!(a, Action::AppendScript { ref url } if url == URL));
    assert_eq!(scripts.len(), 1);
    assert_eq!(scripts.state(URL), Some(LoadState::Loading));
    scripts.settle(URL, true);
    assert_eq!(scripts.state(URL), Some(LoadState::Loaded));
    let a = call.step(&mut scripts, Event::AssetLoaded);
    match a {
        Action::CallInit { options: Value::Object(entries) } => {
            assert_eq!(entries.len(), 1);
            assert_eq!(entries[0].0, "hideLoading");
        },
        other => panic!("unexpected {:?}", other),
    }
    let a = call.step(&mut scripts, Event::InitCompleted { error: None });
    assert!(matches!(a, Action::Resolve));
    assert_eq!(call.phase, Phase::Ready);
    assert_eq!(scripts.len(), 1);
}

#[test]
fn present_tag_is_not_added_again() {
    let mut scripts = ScriptRegistry::new();
    assert_eq!(scripts.request(URL), ScriptRequest::Append);
    assert_eq!(scripts.request(URL), ScriptRequest::Await);
    assert_eq!(scripts.len(), 1);
    let mut waiting = Bootstrap::new(config(vec![]));
    let a = waiting.step(&mut scripts, Event::Start { element_supplied: true });
    assert!(matches!(a, Action::AwaitScript { ref url } if url == URL));
    assert_eq!(scripts.len(), 1);
    scripts.settle(URL, true);
    let mut later = Bootstrap::new(config(vec![]));
    let a = later.step(&mut scripts, Event::Start { element_supplied: true });
    assert!(matches!(a, Action::CallInit { .. }));
    assert_eq!(later.phase, Phase::Initializing);
    assert_eq!(scripts.len(), 1);
    assert_eq!(scripts.request(URL), ScriptRequest::Ready);
}

#[test]
fn adopted_tag_counts_as_loaded() {
    let mut scripts = ScriptRegistry::new();
    scripts.adopt(URL);
    scripts.adopt(URL);
    assert_eq!(scripts.len(), 1);
    assert_eq!(scripts.state(URL), Some(LoadState::Loaded));
    assert_eq!(scripts.state("https://example.org/other.js"), None);
}

#[test]
fn missing_container_fails_the_call() {
    let mut scripts = ScriptRegistry::new();
    let mut call = Bootstrap::new(config(vec![]));
    call.step(&mut scripts, Event::Start { element_supplied: false });
    let a = call.step(&mut scripts, Event::ContainerLookup { found: false });
    assert!(matches!(a, Action::Reject(BootstrapError::ContainerNotFound)));
    assert_eq!(call.phase, Phase::Failed(BootstrapError::ContainerNotFound));
    assert_eq!(scripts.len(), 0);
}

#[test]
fn failed_script_fails_the_call_without_calling_the_renderer() {
    let mut scripts = ScriptRegistry::new();
    let mut call = Bootstrap::new(config(vec![]));
    call.step(&mut scripts, Event::Start { element_supplied: true });
    scripts.settle(URL, false);
    assert_eq!(scripts.state(URL), Some(LoadState::Failed));
    let a = call.step(&mut scripts, Event::AssetFailed);
    assert!(matches!(a, Action::Reject(BootstrapError::AssetLoadError)));
    for event in [
        Event::AssetLoaded,
        Event::InitCompleted { error: None },
        Event::Start { element_supplied: true },
    ] {
        assert!(matches!(call.step(&mut scripts, event), Action::Ignore));
    }
    assert_eq!(call.phase, Phase::Failed(BootstrapError::AssetLoadError));
    let mut again = Bootstrap::new(config(vec![]));
    let a = again.step(&mut scripts, Event::Start { element_supplied: true });
    assert!(matches!(a, Action::Reject(BootstrapError::AssetLoadError)));
    assert_eq!(scripts.len(), 1);
}

#[test]
fn renderer_error_is_passed_on_and_later_callbacks_ignored() {
    let mut scripts = ScriptRegistry::new();
    scripts.adopt(URL);
    let mut call = Bootstrap::new(config(vec![]));
    let a = call.step(&mut scripts, Event::Start { element_supplied: true });
    assert!(matches!(a, Action::CallInit { .. }));
    let a = call.step(&mut scripts, Event::InitCompleted { error: Some("spec not found".to_string()) });
    assert!(matches!(a, Action::Reject(BootstrapError::RendererInitError(ref m)) if m == "spec not found"));
    let a = call.step(&mut scripts, Event::InitCompleted { error: None });
    assert!(matches!(a, Action::Ignore));
    assert_eq!(
        call.phase,
        Phase::Failed(BootstrapError::RendererInitError("spec not found".to_string()))
    );
}

#[test]
fn events_out_of_order_are_ignored() {
    let mut scripts = ScriptRegistry::new();
    let mut call = Bootstrap::new(config(vec![]));
    assert!(matches!(call.step(&mut scripts, Event::AssetLoaded), Action::Ignore));
    assert!(matches!(
        call.step(&mut scripts, Event::InitCompleted { error: None }),
        Action::Ignore
    ));
    assert_eq!(call.phase, Phase::Idle);
    call.step(&mut scripts, Event::Start { element_supplied: false });
    assert!(matches!(call.step(&mut scripts, Event::AssetLoaded), Action::Ignore));
    assert_eq!(call.phase, Phase::ResolvingContainer);
}

#[test]
fn settling_a_settled_tag_changes_nothing() {
    let mut scripts = ScriptRegistry::new();
    scripts.request(URL);
    scripts.settle(URL, true);
    scripts.settle(URL, false);
    assert_eq!(scripts.state(URL), Some(LoadState::Loaded));
    scripts.settle("https://example.org/none.js", true);
    assert_eq!(scripts.len(), 1);
}

#[test]
fn malformed_payload_never_makes_a_call() {
    let payload = Value::Object(vec![("tryItOutEnabled".to_string(), Value::Text("yes".to_string()))]);
    match Bootstrap::start(&payload) {
        Err(BootstrapError::Config(e)) => {
            assert_eq!(e.field_name(), "tryItOutEnabled");
        },
        _ => panic!("a malformed payload must fail"),
    }
    let ok = Value::Object(vec![("redocVersion".to_string(), Value::Text("9.9.9".to_string()))]);
    let call = Bootstrap::start(&ok).unwrap();
    assert_eq!(call.phase, Phase::Idle);
    assert_eq!(call.url, "https://cdn.jsdelivr.net/npm/redoc@9.9.9/bundles/redoc.standalone.min.js");
}
