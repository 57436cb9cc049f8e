//! The step descriptors, the registry, and the pure step computations.

use workflows::{
    bool_flag, Echo, Http, Payload, Registry, StrMap, SupportedWorkflows,
};

#[test]
fn registry_holds_every_variant() {
    let registry = Registry::standard();
    assert!(matches!(registry.lookup("http"), Some(SupportedWorkflows::Http(_))));
    assert!(matches!(registry.lookup("echo"), Some(SupportedWorkflows::Echo(_))));
    assert!(matches!(registry.lookup("wechat"), Some(SupportedWorkflows::WeChat(_))));
    assert!(matches!(registry.lookup("gist"), Some(SupportedWorkflows::Gist(_))));
    assert!(matches!(registry.lookup("command"), Some(SupportedWorkflows::Command(_))));
    assert!(matches!(registry.lookup("download"), Some(SupportedWorkflows::Download(_))));
    assert!(matches!(registry.lookup("decompress"), Some(SupportedWorkflows::Decompress(_))));
}

#[test]
fn registry_lookup_ignores_ascii_case() {
    let registry = Registry::standard();
    assert!(matches!(registry.lookup("HTTP"), Some(SupportedWorkflows::Http(_))));
    assert!(matches!(registry.lookup("Echo"), Some(SupportedWorkflows::Echo(_))));
    assert!(matches!(registry.lookup("DownLoad"), Some(SupportedWorkflows::Download(_))));
}

#[test]
fn registry_lookup_rejects_unknown_names() {
    let registry = Registry::standard();
    assert!(registry.lookup("nope").is_none());
    assert!(registry.lookup("").is_none());
    assert!(registry.lookup("httpx").is_none());
}

#[test]
fn a_substitute_registry_can_rebind_a_name() {
    let mut registry = Registry::new();
    assert!(registry.lookup("run").is_none());
    registry.register("Run".to_string(), SupportedWorkflows::Echo(Echo {}));
    assert!(matches!(registry.lookup("run"), Some(SupportedWorkflows::Echo(_))));
    registry.register("run".to_string(), SupportedWorkflows::Http(Http {}));
    assert!(matches!(registry.lookup("RUN"), Some(SupportedWorkflows::Http(_))));
}

#[test]
fn descriptors_list_the_declared_names() {
    let registry = Registry::standard();
    let http = registry.lookup("http").unwrap();
    assert_eq!(http.parameters(), vec!["url", "method"]);
    assert_eq!(http.outputs(), vec!["status_code", "text"]);
    let echo = registry.lookup("echo").unwrap();
    assert_eq!(echo.parameters(), vec!["text"]);
    assert_eq!(echo.outputs(), vec!["text"]);
    let command = registry.lookup("command").unwrap();
    assert_eq!(command.parameters(), vec!["program", "daemon", "inherit_io"]);
    assert_eq!(command.outputs(), Vec::<&str>::new());
}

#[test]
fn echo_repeats_its_text_parameter() {
    let mut m = StrMap::new();
    m.insert("text".to_string(), "payload".to_string());
    let out = Echo {}.execute(&Payload::new(m));
    assert_eq!(out.parameter("text"), "payload");
}

#[test]
fn echo_defaults_to_the_empty_string() {
    let out = Echo {}.execute(&Payload::new(StrMap::new()));
    assert_eq!(out.parameter("text"), "");
}

#[test]
fn http_output_holds_status_and_text() {
    let out = Http::make_output("200".to_string(), "body".to_string());
    assert_eq!(out.parameter("status_code"), "200");
    assert_eq!(out.parameter("text"), "body");
    assert_eq!(out.parameter("url"), "");
}

#[test]
fn bool_flag_accepts_exactly_true() {
    assert!(bool_flag("true"));
    assert!(!bool_flag("false"));
    assert!(!bool_flag(""));
    assert!(!bool_flag("True"));
    assert!(!bool_flag("1"));
    assert!(!bool_flag("true "));
}

#[test]
fn payload_yields_empty_for_absent_keys() {
    let mut m = StrMap::new();
    m.insert("k".to_string(), "v".to_string());
    let p = Payload::new(m);
    assert_eq!(p.parameter("k"), "v");
    assert_eq!(p.parameter("absent"), "");
}

#[test]
fn payload_keeps_the_latest_binding() {
    let mut m = StrMap::new();
    m.insert("k".to_string(), "old".to_string());
    m.insert("k".to_string(), "new".to_string());
    let p = Payload::new(m);
    assert_eq!(p.parameter("k"), "new");
}
