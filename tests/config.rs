use shpool_daemon::config::{load_config, parse_config, ConfigError};

#[test]
fn no_file_gives_defaults() {
    let c = load_config(None).unwrap();
    assert!(c.table().is_none());
}

#[test]
fn well_formed_document_is_parsed() {
    let c = load_config(Some("norc = true\n[env]\nTERM = \"xterm\"\n")).unwrap();
    let t = c.table().unwrap();
    assert_eq!(t.len(), 2);
    assert_eq!(t.get("norc").and_then(|v| v.as_bool()), Some(true));
    assert!(t.get("env").unwrap().as_table().unwrap().contains_key("TERM"));
}

#[test]
fn empty_document_is_an_empty_table() {
    let c = parse_config("").unwrap();
    assert_eq!(c.table().unwrap().len(), 0);
}

#[test]
fn malformed_document_is_rejected() {
    match parse_config("norc = \n[[") {
        Err(ConfigError::Malformed { message }) => assert!(!message.is_empty()),
        other => panic!("expected a parse error, got {:?}", other),
    }
    assert!(matches!(load_config(Some("a = = b")), Err(ConfigError::Malformed { .. })));
}
