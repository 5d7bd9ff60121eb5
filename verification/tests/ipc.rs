use mdviewer::ipc::{
    accept_keybindings_update, keybindings_update_from_parse, display_name, error_response, file_opened_response, init_response,
    interpret_request, keybindings_reset_response, keybindings_saved_response, loaded_document,
    picked_file_response, receive_script, save_outcome_response, Command, IpcRequest,
    LoadedDocument, ResponseType,
};
use mdviewer::keybindings::DEFAULT_KEYBINDINGS;

fn request(cmd: &str) -> IpcRequest {
    IpcRequest { cmd: cmd.to_string(), path: None, content: None, default_name: None, title: None, json: None }
}

fn is_ignore(c: &Command) -> bool {
    matches!(c, Command::Ignore)
}

#[test]
fn window_commands() {
    assert!(matches!(interpret_request(request("drag_window")), Command::DragWindow));
    assert!(matches!(interpret_request(request("minimize_window")), Command::MinimizeWindow));
    assert!(matches!(interpret_request(request("maximize_window")), Command::ToggleMaximize));
    assert!(matches!(interpret_request(request("close_window")), Command::CloseWindow));
    assert!(matches!(interpret_request(request("get_init_data")), Command::GetInitData));
    assert!(matches!(interpret_request(request("open_file")), Command::OpenFileDialog));
    assert!(matches!(interpret_request(request("reset_default_keybindings")), Command::ResetKeybindings));
}

#[test]
fn unknown_or_incomplete_commands_are_ignored() {
    assert!(is_ignore(&interpret_request(request("explode"))));
    assert!(is_ignore(&interpret_request(request(""))));
    assert!(is_ignore(&interpret_request(request("Drag_Window"))));
    assert!(is_ignore(&interpret_request(request("read_file"))));
    assert!(is_ignore(&interpret_request(request("save_file"))));
    assert!(is_ignore(&interpret_request(request("save_file_as"))));
    assert!(is_ignore(&interpret_request(request("save_keybindings"))));
    assert!(is_ignore(&interpret_request(request("set_title"))));
    let mut r = request("save_file");
    r.path = Some("a.md".to_string());
    assert!(is_ignore(&interpret_request(r)));
}

#[test]
fn commands_carry_their_arguments() {
    let mut r = request("read_file");
    r.path = Some("/x/a.md".to_string());
    match interpret_request(r) {
        Command::ReadFile { path } => assert_eq!(path, "/x/a.md"),
        _ => panic!("expected ReadFile"),
    }
    let mut r = request("save_file");
    r.path = Some("/x/a.md".to_string());
    r.content = Some("# hi".to_string());
    match interpret_request(r) {
        Command::SaveFile { path, content } => {
            assert_eq!(path, "/x/a.md");
            assert_eq!(content, "# hi");
        }
        _ => panic!("expected SaveFile"),
    }
    let mut r = request("save_keybindings");
    r.json = Some("{}".to_string());
    match interpret_request(r) {
        Command::SaveKeybindings { json } => assert_eq!(json, "{}"),
        _ => panic!("expected SaveKeybindings"),
    }
    let mut r = request("set_title");
    r.title = Some("a.md - MDViewer".to_string());
    match interpret_request(r) {
        Command::SetTitle { title } => assert_eq!(title, "a.md - MDViewer"),
        _ => panic!("expected SetTitle"),
    }
}

#[test]
fn save_as_proposes_document_md_by_default() {
    let mut r = request("save_file_as");
    r.content = Some("text".to_string());
    match interpret_request(r) {
        Command::SaveFileAs { content, default_name } => {
            assert_eq!(content, "text");
            assert_eq!(default_name, "document.md");
        }
        _ => panic!("expected SaveFileAs"),
    }
    let mut r = request("save_file_as");
    r.content = Some("text".to_string());
    r.default_name = Some("notes.md".to_string());
    match interpret_request(r) {
        Command::SaveFileAs { default_name, .. } => assert_eq!(default_name, "notes.md"),
        _ => panic!("expected SaveFileAs"),
    }
}

#[test]
fn wire_names() {
    assert_eq!(ResponseType::Init.wire_name(), "init");
    assert_eq!(ResponseType::FileOpened.wire_name(), "file_opened");
    assert_eq!(ResponseType::FileSaved.wire_name(), "file_saved");
    assert_eq!(ResponseType::KeybindingsSaved.wire_name(), "keybindings_saved");
    assert_eq!(ResponseType::KeybindingsReset.wire_name(), "keybindings_reset");
    assert_eq!(ResponseType::Error.wire_name(), "error");
}

#[test]
fn untitled_when_no_file_name() {
    assert_eq!(display_name(None), "Untitled.md");
    assert_eq!(display_name(Some("a.md".to_string())), "a.md");
}

#[test]
fn init_with_document() {
    let doc = LoadedDocument { path: "/d/a.md".to_string(), file_name: Some("a.md".to_string()), content: "# A".to_string() };
    let r = init_response(Some(doc), "welcome".to_string(), ("{}".to_string(), Some("warn".to_string())));
    assert_eq!(r.response_type, ResponseType::Init);
    assert_eq!(r.path.as_deref(), Some("/d/a.md"));
    assert_eq!(r.name.as_deref(), Some("a.md"));
    assert_eq!(r.content.as_deref(), Some("# A"));
    assert_eq!(r.message.as_deref(), Some("warn"));
    assert_eq!(r.json.as_deref(), Some("{}"));
}

#[test]
fn init_without_document_shows_welcome() {
    let r = init_response(None, "# Welcome".to_string(), ("{}".to_string(), None));
    assert_eq!(r.response_type, ResponseType::Init);
    assert_eq!(r.path, None);
    assert_eq!(r.name.as_deref(), Some("Welcome.md"));
    assert_eq!(r.content.as_deref(), Some("# Welcome"));
    assert_eq!(r.message, None);
    assert_eq!(r.json.as_deref(), Some("{}"));
}

#[test]
fn opened_file_reply() {
    let r = file_opened_response(LoadedDocument { path: "p".to_string(), file_name: None, content: "c".to_string() });
    assert_eq!(r.response_type, ResponseType::FileOpened);
    assert_eq!(r.path.as_deref(), Some("p"));
    assert_eq!(r.name.as_deref(), Some("Untitled.md"));
    assert_eq!(r.content.as_deref(), Some("c"));
    assert_eq!(r.message, None);
    assert_eq!(r.json, None);
}

#[test]
fn documents_load_only_when_read() {
    assert!(loaded_document("p".to_string(), None, None).is_none());
    let e = std::io::Error::new(std::io::ErrorKind::NotFound, "gone");
    assert!(loaded_document("p".to_string(), None, Some(Err(e.to_string()))).is_none());
    let d = loaded_document("p".to_string(), Some("p".to_string()), Some(Ok("t".to_string()))).unwrap();
    assert_eq!((d.path.as_str(), d.file_name.as_deref(), d.content.as_str()), ("p", Some("p"), "t"));
}

#[test]
fn picked_file_that_cannot_be_read() {
    let e = std::io::Error::new(std::io::ErrorKind::InvalidData, "stream did not contain valid UTF-8");
    let r = picked_file_response("p".to_string(), None, Err(e.to_string()));
    assert_eq!(r.response_type, ResponseType::Error);
    assert_eq!(r.message.as_deref(), Some("Failed to open file: stream did not contain valid UTF-8"));
    assert_eq!((r.path, r.name, r.content, r.json), (None, None, None, None));
    let r = picked_file_response("p".to_string(), Some("p".to_string()), Ok("x".to_string()));
    assert_eq!(r.response_type, ResponseType::FileOpened);
    assert_eq!(r.content.as_deref(), Some("x"));
}

#[test]
fn save_outcomes() {
    let r = save_outcome_response("/d/a.md".to_string(), Some("a.md".to_string()), Ok(()));
    assert_eq!(r.response_type, ResponseType::FileSaved);
    assert_eq!(r.path.as_deref(), Some("/d/a.md"));
    assert_eq!(r.name.as_deref(), Some("a.md"));
    assert_eq!(r.content, None);
    let e = std::io::Error::new(std::io::ErrorKind::PermissionDenied, "denied");
    let r = save_outcome_response("/d/a.md".to_string(), None, Err(e.to_string()));
    assert_eq!(r.response_type, ResponseType::Error);
    assert_eq!(r.message.as_deref(), Some("Failed to save file: denied"));
    assert_eq!(r.path, None);
}

#[test]
fn keybindings_update_is_validated() {
    let ok = accept_keybindings_update("{\"k\":\"j\"}".to_string());
    assert_eq!(ok.ok().as_deref(), Some("{\"k\":\"j\"}"));
    match accept_keybindings_update("{bad".to_string()) {
        Err(r) => {
            assert_eq!(r.response_type, ResponseType::Error);
            assert!(r.message.unwrap().starts_with("Invalid keybindings JSON: "));
            assert_eq!(r.json, None);
        }
        Ok(_) => panic!("invalid JSON accepted"),
    }
}

#[test]
fn keybindings_saved_outcomes() {
    let r = keybindings_saved_response("{}".to_string(), Ok(()));
    assert_eq!(r.response_type, ResponseType::KeybindingsSaved);
    assert_eq!(r.message.as_deref(), Some("Keybindings saved successfully."));
    assert_eq!(r.json.as_deref(), Some("{}"));
    let e = std::io::Error::new(std::io::ErrorKind::Other, "disk full");
    let r = keybindings_saved_response("{}".to_string(), Err(e.to_string()));
    assert_eq!(r.response_type, ResponseType::Error);
    assert_eq!(r.message.as_deref(), Some("Failed to save keybindings: disk full"));
    assert_eq!(r.json, None);
}

#[test]
fn keybindings_reset_reply() {
    let r = keybindings_reset_response();
    assert_eq!(r.response_type, ResponseType::KeybindingsReset);
    assert_eq!(r.message.as_deref(), Some("Keybindings reset to default settings."));
    assert_eq!(r.json.as_deref(), Some(DEFAULT_KEYBINDINGS));
}

#[test]
fn error_reply_carries_only_message() {
    let r = error_response("m".to_string());
    assert_eq!(r.response_type, ResponseType::Error);
    assert_eq!(r.message.as_deref(), Some("m"));
    assert_eq!((r.path, r.name, r.content, r.json), (None, None, None, None));
}

#[test]
fn delivery_script() {
    assert_eq!(receive_script("{\"type\":\"init\"}"), "window.receiveFromRust({\"type\":\"init\"});");
    assert_eq!(receive_script(""), "window.receiveFromRust();");
}

#[test]
fn parser_verdict_decides_keybindings_update() {
    let ok = keybindings_update_from_parse("{}".to_string(), Ok(()));
    assert_eq!(ok.ok().as_deref(), Some("{}"));
    let complaint = serde_json::from_str::<serde_json::Value>("{bad").unwrap_err();
    match keybindings_update_from_parse("{bad".to_string(), Err(complaint.to_string())) {
        Err(r) => {
            assert_eq!(r.response_type, ResponseType::Error);
            assert_eq!(
                r.message.as_deref(),
                Some("Invalid keybindings JSON: key must be a string at line 1 column 2")
            );
        }
        Ok(_) => panic!("rejected keybindings accepted"),
    }
}
