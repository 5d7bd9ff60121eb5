use mdviewer::keybindings::{
    keybindings_from_file, keybindings_from_parse, validate_or_fallback_keybindings, DEFAULT_KEYBINDINGS, KEYBINDINGS_FILE,
};

#[test]
fn test_valid_keybindings() {
    let valid_json = r#"{"preview":{"scroll_down":"j"},"settings":{"scroll_step_y":60}}"#.to_string();
    let (content, err) = validate_or_fallback_keybindings(Ok(valid_json.clone()));
    assert_eq!(content, valid_json);
    assert!(err.is_none());
}

#[test]
fn test_corrupted_keybindings_fallback() {
    let corrupted_json = r#"{"preview": { invalid json "#.to_string();
    let (content, err) = validate_or_fallback_keybindings(Ok(corrupted_json));
    assert_eq!(content, DEFAULT_KEYBINDINGS);
    assert!(err.is_some());
    assert!(err.unwrap().contains("corrupted"));
}

#[test]
fn test_io_error_keybindings_fallback() {
    let io_err: Result<String, std::io::Error> =
        Err(std::io::Error::new(std::io::ErrorKind::PermissionDenied, "access denied"));
    let (content, err) = validate_or_fallback_keybindings(io_err.map_err(|e| e.to_string()));
    assert_eq!(content, DEFAULT_KEYBINDINGS);
    assert!(err.is_some());
    assert!(err.unwrap().contains("Failed to read"));
}

#[test]
fn corrupted_message_names_file_and_parser_detail() {
    let (_, err) = validate_or_fallback_keybindings(Ok("{".to_string()));
    assert_eq!(
        err.unwrap(),
        "'keybindings.json' is corrupted (EOF while parsing an object at line 1 column 1). Reverted to default settings."
    );
}

#[test]
fn unreadable_message_carries_read_error() {
    let io_err: Result<String, std::io::Error> =
        Err(std::io::Error::new(std::io::ErrorKind::PermissionDenied, "access denied"));
    let (_, err) = validate_or_fallback_keybindings(io_err.map_err(|e| e.to_string()));
    assert_eq!(
        err.unwrap(),
        "Failed to read 'keybindings.json' (access denied). Reverted to default settings."
    );
}

#[test]
fn default_keybindings_are_json() {
    let (content, err) = validate_or_fallback_keybindings(Ok(DEFAULT_KEYBINDINGS.to_string()));
    assert_eq!(content, DEFAULT_KEYBINDINGS);
    assert!(err.is_none());
}

#[test]
fn empty_file_is_not_json() {
    let (content, err) = validate_or_fallback_keybindings(Ok(String::new()));
    assert_eq!(content, DEFAULT_KEYBINDINGS);
    assert!(err.unwrap().contains("corrupted"));
}

#[test]
fn json_with_surrounding_white_space_is_kept() {
    let text = "  [1, 2, 3]\n".to_string();
    let (content, err) = validate_or_fallback_keybindings(Ok(text.clone()));
    assert_eq!(content, text);
    assert!(err.is_none());
}

#[test]
fn trailing_text_after_json_is_rejected() {
    let (content, err) = validate_or_fallback_keybindings(Ok("{} {}".to_string()));
    assert_eq!(content, DEFAULT_KEYBINDINGS);
    assert!(err.is_some());
}

#[test]
fn missing_file_gives_defaults_without_warning() {
    let (content, err) = keybindings_from_file(None);
    assert_eq!(content, DEFAULT_KEYBINDINGS);
    assert!(err.is_none());
}

#[test]
fn present_file_is_validated() {
    let (content, err) = keybindings_from_file(Some(Ok("{\"a\":1}".to_string())));
    assert_eq!(content, "{\"a\":1}");
    assert!(err.is_none());
    let (content, err) = keybindings_from_file(Some(Ok("nope".to_string())));
    assert_eq!(content, DEFAULT_KEYBINDINGS);
    assert!(err.unwrap().contains("corrupted"));
}

#[test]
fn unreadable_file_warning_equals_validation_warning() {
    let from_file = keybindings_from_file(Some(Err("gone".to_string())));
    let direct = validate_or_fallback_keybindings(Err("gone".to_string()));
    assert_eq!(from_file, direct);
    assert_eq!(
        from_file.1.as_deref(),
        Some("Failed to read 'keybindings.json' (gone). Reverted to default settings.")
    );
}

#[test]
fn keybindings_file_name() {
    assert_eq!(KEYBINDINGS_FILE, "keybindings.json");
}

#[test]
fn parser_verdict_decides_keybindings() {
    let (content, err) = keybindings_from_parse("{\"a\":1}".to_string(), Ok(()));
    assert_eq!(content, "{\"a\":1}");
    assert!(err.is_none());
    let complaint = serde_json::from_str::<serde_json::Value>("[1,").unwrap_err();
    let (content, err) = keybindings_from_parse("[1,".to_string(), Err(complaint.to_string()));
    assert_eq!(content, DEFAULT_KEYBINDINGS);
    assert_eq!(
        err.unwrap(),
        "'keybindings.json' is corrupted (EOF while parsing a value at line 1 column 3). Reverted to default settings."
    );
}
