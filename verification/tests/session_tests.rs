use kubedash::session::{
    contexts_from_config, namespace_names, ConfigData, ConnectError, ContextInfo,
    RawContextBody, RawContextEntry, Session,
};

fn ctx(name: &str, cluster: &str) -> ContextInfo {
    ContextInfo {
        name: name.to_string(),
        cluster: cluster.to_string(),
        user: "admin".to_string(),
        namespace: None,
    }
}

fn config_with(names: &[&str]) -> ConfigData {
    ConfigData {
        current_context: names.first().map(|n| n.to_string()),
        contexts: names.iter().map(|n| ctx(n, "cluster")).collect(),
    }
}

#[test]
fn contexts_from_config_drops_bodyless_entries() {
    let entries = vec![
        RawContextEntry {
            name: "prod".to_string(),
            context: Some(RawContextBody {
                cluster: "c1".to_string(),
                user: Some("alice".to_string()),
                namespace: Some("default".to_string()),
            }),
        },
        RawContextEntry { name: "broken".to_string(), context: None },
        RawContextEntry {
            name: "dev".to_string(),
            context: Some(RawContextBody {
                cluster: "c2".to_string(),
                user: None,
                namespace: None,
            }),
        },
    ];
    let out = contexts_from_config(&entries);
    assert_eq!(out.len(), 2);
    assert_eq!(out[0].name, "prod");
    assert_eq!(out[0].cluster, "c1");
    assert_eq!(out[0].user, "alice");
    assert_eq!(out[0].namespace.as_deref(), Some("default"));
    assert_eq!(out[1].name, "dev");
    assert_eq!(out[1].user, "");
    assert!(out[1].namespace.is_none());
}

#[test]
fn namespace_names_keeps_named_items() {
    let out = namespace_names(vec![
        Some("default".to_string()),
        None,
        Some("kube-system".to_string()),
    ]);
    assert_eq!(out, vec!["default".to_string(), "kube-system".to_string()]);
}

#[test]
fn initialize_success_records_config_and_handle() {
    let mut s = Session::new();
    let r = s.initialize(Ok(config_with(&["prod", "dev"])), Ok(1));
    assert!(r.is_ok());
    assert_eq!(s.current_connection(), Some(1));
    assert_eq!(s.get_current_context().as_deref(), Some("prod"));
    assert_eq!(s.list_contexts().len(), 2);
}

#[test]
fn initialize_config_failure_leaves_session() {
    let mut s = Session::new();
    s.initialize(Ok(config_with(&["prod"])), Ok(1)).unwrap();
    let r = s.initialize(Err("no kubeconfig".to_string()), Err("unused".to_string()));
    match r {
        Err(ConnectError::ConfigUnavailable { detail }) => assert_eq!(detail, "no kubeconfig"),
        _ => panic!("expected a configuration error"),
    }
    // the previously established connection is untouched
    assert_eq!(s.current_connection(), Some(1));
    assert_eq!(s.get_current_context().as_deref(), Some("prod"));
}

#[test]
fn initialize_connect_failure_leaves_session() {
    let mut s = Session::new();
    s.initialize(Ok(config_with(&["prod"])), Ok(1)).unwrap();
    let r = s.initialize(Ok(config_with(&["prod"])), Err("timeout".to_string()));
    match r {
        Err(ConnectError::Unreachable { detail }) => assert_eq!(detail, "timeout"),
        _ => panic!("expected an unreachable error"),
    }
    assert_eq!(s.current_connection(), Some(1));
}

#[test]
fn initialize_twice_with_same_config_is_equivalent() {
    let mut a = Session::new();
    a.initialize(Ok(config_with(&["prod", "dev"])), Ok(1)).unwrap();
    let mut b = Session::new();
    b.initialize(Ok(config_with(&["prod", "dev"])), Ok(2)).unwrap();
    // the handles differ, the observable session state does not
    assert_eq!(a.current_connection().is_some(), b.current_connection().is_some());
    assert_eq!(a.get_current_context(), b.get_current_context());
    let an: Vec<&str> = a.list_contexts().iter().map(|c| c.name.as_str()).collect();
    let bn: Vec<&str> = b.list_contexts().iter().map(|c| c.name.as_str()).collect();
    assert_eq!(an, bn);

    // initializing the same session again with the same config also
    // yields an equivalent session: last successful call wins
    a.initialize(Ok(config_with(&["prod", "dev"])), Ok(3)).unwrap();
    assert_eq!(a.get_current_context().as_deref(), Some("prod"));
    assert!(a.current_connection().is_some());
    assert_eq!(a.list_contexts().len(), 2);
}

#[test]
fn switch_to_unknown_context_fails_and_keeps_handle() {
    let mut s = Session::new();
    s.initialize(Ok(config_with(&["prod", "dev"])), Ok(7)).unwrap();
    let r = s.switch_context("nowhere".to_string(), Ok(8));
    match r {
        Err(ConnectError::UnknownContext { name }) => assert_eq!(name, "nowhere"),
        _ => panic!("expected an unknown-context error"),
    }
    // the previous, still-working handle remains current
    assert_eq!(s.current_connection(), Some(7));
    assert_eq!(s.get_current_context().as_deref(), Some("prod"));
}

#[test]
fn switch_connect_failure_keeps_previous_connection() {
    let mut s = Session::new();
    s.initialize(Ok(config_with(&["prod", "dev"])), Ok(7)).unwrap();
    let r = s.switch_context("dev".to_string(), Err("refused".to_string()));
    assert!(r.is_err());
    assert_eq!(s.current_connection(), Some(7));
    assert_eq!(s.get_current_context().as_deref(), Some("prod"));
}

#[test]
fn switch_success_replaces_connection_and_context() {
    let mut s = Session::new();
    s.initialize(Ok(config_with(&["prod", "dev"])), Ok(7)).unwrap();
    s.switch_context("dev".to_string(), Ok(8)).unwrap();
    assert_eq!(s.current_connection(), Some(8));
    assert_eq!(s.get_current_context().as_deref(), Some("dev"));
    assert_eq!(s.list_contexts().len(), 2);
}

#[test]
fn connect_error_messages() {
    let e = ConnectError::ConfigUnavailable { detail: "gone".to_string() };
    assert_eq!(e.message(), "Failed to read kubeconfig: gone");
    let e = ConnectError::UnknownContext { name: "x".to_string() };
    assert_eq!(e.message(), "Unknown context: x");
    let e = ConnectError::Unreachable { detail: "timeout".to_string() };
    assert_eq!(e.message(), "Failed to connect: timeout");
}
