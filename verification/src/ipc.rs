//! The command protocol between the web view and the native side: what a
//! request asks for, and the replies that the web view receives.

use vstd::prelude::*;
use crate::json::{json_document_valid, json_syntax_error, parse_json_document};
use crate::keybindings::{DEFAULT_KEYBINDINGS, default_keybindings, keybindings_in_use};
use crate::text::{join3, opt_text, same_text};

verus! {

/// A request from the web view, as its JSON object carries it.
pub struct IpcRequest {
    pub cmd: String,
    pub path: Option<String>,
    pub content: Option<String>,
    pub default_name: Option<String>,
    pub title: Option<String>,
    pub json: Option<String>,
}

/// The characters of a request.
pub struct IpcRequestView {
    pub cmd: Seq<char>,
    pub path: Option<Seq<char>>,
    pub content: Option<Seq<char>>,
    pub default_name: Option<Seq<char>>,
    pub title: Option<Seq<char>>,
    pub json: Option<Seq<char>>,
}

impl View for IpcRequest {
    type V = IpcRequestView;

    open spec fn view(&self) -> IpcRequestView {
        IpcRequestView {
            cmd: self.cmd@,
            path: opt_text(self.path),
            content: opt_text(self.content),
            default_name: opt_text(self.default_name),
            title: opt_text(self.title),
            json: opt_text(self.json),
        }
    }
}

/// What the native side is asked to do.
pub enum Command {
    /// Let the user drag the borderless window.
    DragWindow,
    /// Minimise the window.
    MinimizeWindow,
    /// Maximise the window, or restore it when it is maximised.
    ToggleMaximize,
    /// End the program.
    CloseWindow,
    /// Send the initial document and the keybindings.
    GetInitData,
    /// Open the file at `path`, if it exists and can be read.
    ReadFile { path: String },
    /// Let the user pick a file to open.
    OpenFileDialog,
    /// Write `content` to `path`.
    SaveFile { path: String, content: String },
    /// Let the user pick where to write `content`, proposing `default_name`.
    SaveFileAs { content: String, default_name: String },
    /// Validate `json` and store it as the keybindings.
    SaveKeybindings { json: String },
    /// Store the built-in keybindings.
    ResetKeybindings,
    /// Set the window's title.
    SetTitle { title: String },
    /// Nothing: an unknown command, or one that lacks what it needs.
    Ignore,
}

/// The characters of a command.
pub enum CommandView {
    DragWindow,
    MinimizeWindow,
    ToggleMaximize,
    CloseWindow,
    GetInitData,
    ReadFile(Seq<char>),
    OpenFileDialog,
    SaveFile(Seq<char>, Seq<char>),
    SaveFileAs(Seq<char>, Seq<char>),
    SaveKeybindings(Seq<char>),
    ResetKeybindings,
    SetTitle(Seq<char>),
    Ignore,
}

impl View for Command {
    type V = CommandView;

    open spec fn view(&self) -> CommandView {
        match self {
            Command::DragWindow => CommandView::DragWindow,
            Command::MinimizeWindow => CommandView::MinimizeWindow,
            Command::ToggleMaximize => CommandView::ToggleMaximize,
            Command::CloseWindow => CommandView::CloseWindow,
            Command::GetInitData => CommandView::GetInitData,
            Command::ReadFile { path } => CommandView::ReadFile(path@),
            Command::OpenFileDialog => CommandView::OpenFileDialog,
            Command::SaveFile { path, content } => CommandView::SaveFile(path@, content@),
            Command::SaveFileAs { content, default_name } => CommandView::SaveFileAs(
                content@,
                default_name@,
            ),
            Command::SaveKeybindings { json } => CommandView::SaveKeybindings(json@),
            Command::ResetKeybindings => CommandView::ResetKeybindings,
            Command::SetTitle { title } => CommandView::SetTitle(title@),
            Command::Ignore => CommandView::Ignore,
        }
    }
}

/// The name proposed for a document saved under a new name, when the web
/// view proposes none.
pub open spec fn default_document_name() -> Seq<char> {
    "document.md"@
}

/// The command that a request asks for.
pub open spec fn command_for(req: IpcRequestView) -> CommandView {
    if req.cmd == "drag_window"@ {
        CommandView::DragWindow
    } else if req.cmd == "minimize_window"@ {
        CommandView::MinimizeWindow
    } else if req.cmd == "maximize_window"@ {
        CommandView::ToggleMaximize
    } else if req.cmd == "close_window"@ {
        CommandView::CloseWindow
    } else if req.cmd == "get_init_data"@ {
        CommandView::GetInitData
    } else if req.cmd == "read_file"@ {
        match req.path {
            Some(p) => CommandView::ReadFile(p),
            None => CommandView::Ignore,
        }
    } else if req.cmd == "open_file"@ {
        CommandView::OpenFileDialog
    } else if req.cmd == "save_file"@ {
        match (req.path, req.content) {
            (Some(p), Some(c)) => CommandView::SaveFile(p, c),
            _ => CommandView::Ignore,
        }
    } else if req.cmd == "save_file_as"@ {
        match req.content {
            Some(c) => CommandView::SaveFileAs(
                c,
                match req.default_name {
                    Some(d) => d,
                    None => default_document_name(),
                },
            ),
            None => CommandView::Ignore,
        }
    } else if req.cmd == "save_keybindings"@ {
        match req.json {
            Some(j) => CommandView::SaveKeybindings(j),
            None => CommandView::Ignore,
        }
    } else if req.cmd == "reset_default_keybindings"@ {
        CommandView::ResetKeybindings
    } else if req.cmd == "set_title"@ {
        match req.title {
            Some(t) => CommandView::SetTitle(t),
            None => CommandView::Ignore,
        }
    } else {
        CommandView::Ignore
    }
}

/// Reads what a request from the web view asks for.
pub fn interpret_request(req: IpcRequest) -> (r: Command)
    ensures
        r@ == command_for(req@),
{
    let IpcRequest { cmd, path, content, default_name, title, json } = req;
    let c = cmd.as_str();
    if same_text(c, "drag_window") {
        Command::DragWindow
    } else if same_text(c, "minimize_window") {
        Command::MinimizeWindow
    } else if same_text(c, "maximize_window") {
        Command::ToggleMaximize
    } else if same_text(c, "close_window") {
        Command::CloseWindow
    } else if same_text(c, "get_init_data") {
        Command::GetInitData
    } else if same_text(c, "read_file") {
        match path {
            Some(p) => Command::ReadFile { path: p },
            None => Command::Ignore,
        }
    } else if same_text(c, "open_file") {
        Command::OpenFileDialog
    } else if same_text(c, "save_file") {
        match (path, content) {
            (Some(p), Some(t)) => Command::SaveFile { path: p, content: t },
            _ => Command::Ignore,
        }
    } else if same_text(c, "save_file_as") {
        match content {
            Some(t) => {
                let name = match default_name {
                    Some(d) => d,
                    None => "document.md".to_owned(),
                };
                Command::SaveFileAs { content: t, default_name: name }
            },
            None => Command::Ignore,
        }
    } else if same_text(c, "save_keybindings") {
        match json {
            Some(j) => Command::SaveKeybindings { json: j },
            None => Command::Ignore,
        }
    } else if same_text(c, "reset_default_keybindings") {
        Command::ResetKeybindings
    } else if same_text(c, "set_title") {
        match title {
            Some(t) => Command::SetTitle { title: t },
            None => Command::Ignore,
        }
    } else {
        Command::Ignore
    }
}


/// The kind of a reply, which the web view reads from its `type` field.
#[derive(PartialEq, Eq, Debug, Clone, Copy)]
pub enum ResponseType {
    Init,
    FileOpened,
    FileSaved,
    KeybindingsSaved,
    KeybindingsReset,
    Error,
}

/// The text of a reply's `type` field.
pub open spec fn wire_name_of(t: ResponseType) -> Seq<char> {
    match t {
        ResponseType::Init => "init"@,
        ResponseType::FileOpened => "file_opened"@,
        ResponseType::FileSaved => "file_saved"@,
        ResponseType::KeybindingsSaved => "keybindings_saved"@,
        ResponseType::KeybindingsReset => "keybindings_reset"@,
        ResponseType::Error => "error"@,
    }
}

impl ResponseType {
    /// The text of the reply's `type` field.
    pub fn wire_name(&self) -> (r: &'static str)
        ensures
            r@ == wire_name_of(*self),
    {
        match self {
            ResponseType::Init => "init",
            ResponseType::FileOpened => "file_opened",
            ResponseType::FileSaved => "file_saved",
            ResponseType::KeybindingsSaved => "keybindings_saved",
            ResponseType::KeybindingsReset => "keybindings_reset",
            ResponseType::Error => "error",
        }
    }
}

/// A reply to the web view.
pub struct IpcResponse {
    pub response_type: ResponseType,
    pub path: Option<String>,
    pub name: Option<String>,
    pub content: Option<String>,
    pub message: Option<String>,
    pub json: Option<String>,
}

/// The characters of a reply.
pub struct IpcResponseView {
    pub response_type: ResponseType,
    pub path: Option<Seq<char>>,
    pub name: Option<Seq<char>>,
    pub content: Option<Seq<char>>,
    pub message: Option<Seq<char>>,
    pub json: Option<Seq<char>>,
}

impl View for IpcResponse {
    type V = IpcResponseView;

    open spec fn view(&self) -> IpcResponseView {
        IpcResponseView {
            response_type: self.response_type,
            path: opt_text(self.path),
            name: opt_text(self.name),
            content: opt_text(self.content),
            message: opt_text(self.message),
            json: opt_text(self.json),
        }
    }
}

/// A reply that reports a failure with `message` and carries nothing else.
pub open spec fn error_reply(message: Seq<char>) -> IpcResponseView {
    IpcResponseView {
        response_type: ResponseType::Error,
        path: None,
        name: None,
        content: None,
        message: Some(message),
        json: None,
    }
}

/// A file that was read: its path as shown, its file name (when the path
/// has one that is valid Unicode) and its text.
pub struct LoadedDocument {
    pub path: String,
    pub file_name: Option<String>,
    pub content: String,
}

/// The document at `path` when it exists and could be read (`read` is
/// `None` when the path does not exist); nothing otherwise.
pub fn loaded_document(
    path: String,
    file_name: Option<String>,
    read: Option<Result<String, String>>,
) -> (r: Option<LoadedDocument>)
    ensures
        match read {
            Some(Ok(content)) => r matches Some(d) && d.path == path && d.file_name == file_name
                && d.content == content,
            _ => r is None,
        },
{
    match read {
        Some(Ok(content)) => Some(LoadedDocument { path, file_name, content }),
        _ => None,
    }
}

/// The name shown for a file without a usable file name.
pub open spec fn untitled_name() -> Seq<char> {
    "Untitled.md"@
}

/// The name shown for a document with the given file name.
pub open spec fn shown_name(file_name: Option<Seq<char>>) -> Seq<char> {
    match file_name {
        Some(n) => n,
        None => untitled_name(),
    }
}

/// The name shown for the welcome document.
pub open spec fn welcome_name() -> Seq<char> {
    "Welcome.md"@
}

/// The name shown for a document with the given file name.
pub fn display_name(file_name: Option<String>) -> (r: String)
    ensures
        r@ == shown_name(opt_text(file_name)),
        file_name matches Some(n) ==> r == n,
        file_name is None ==> r@ == "Untitled.md"@,
{
    match file_name {
        Some(n) => n,
        None => "Untitled.md".to_owned(),
    }
}

/// The reply that announces an opened file.
pub open spec fn opened_reply(path: Seq<char>, file_name: Option<Seq<char>>, content: Seq<
    char,
>) -> IpcResponseView {
    IpcResponseView {
        response_type: ResponseType::FileOpened,
        path: Some(path),
        name: Some(shown_name(file_name)),
        content: Some(content),
        message: None,
        json: None,
    }
}

/// The reply that announces an opened file.
pub fn file_opened_response(doc: LoadedDocument) -> (r: IpcResponse)
    ensures
        r@ == opened_reply(doc.path@, opt_text(doc.file_name), doc.content@),
        r.response_type == ResponseType::FileOpened,
        r.path == Some(doc.path),
        r.content == Some(doc.content),
        r.message is None && r.json is None,
        doc.file_name matches Some(n) ==> opt_text(r.name) == Some(n@),
        doc.file_name is None ==> opt_text(r.name) == Some("Untitled.md"@),
{
    let LoadedDocument { path, file_name, content } = doc;
    IpcResponse {
        response_type: ResponseType::FileOpened,
        path: Some(path),
        name: Some(display_name(file_name)),
        content: Some(content),
        message: None,
        json: None,
    }
}

/// The first reply: the document given on the command line when it could
/// be read, else the welcome document; with the keybindings in use and the
/// warning about them, if any.
pub open spec fn init_reply(
    document: Option<(Seq<char>, Option<Seq<char>>, Seq<char>)>,
    welcome: Seq<char>,
    keybindings: Seq<char>,
    warning: Option<Seq<char>>,
) -> IpcResponseView {
    match document {
        Some((path, file_name, content)) => IpcResponseView {
            response_type: ResponseType::Init,
            path: Some(path),
            name: Some(shown_name(file_name)),
            content: Some(content),
            message: warning,
            json: Some(keybindings),
        },
        None => IpcResponseView {
            response_type: ResponseType::Init,
            path: None,
            name: Some(welcome_name()),
            content: Some(welcome),
            message: warning,
            json: Some(keybindings),
        },
    }
}

/// The first reply to the web view.
pub fn init_response(
    document: Option<LoadedDocument>,
    welcome: String,
    keybindings: (String, Option<String>),
) -> (r: IpcResponse)
    ensures
        r@ == init_reply(
            match document {
                Some(d) => Some((d.path@, opt_text(d.file_name), d.content@)),
                None => None,
            },
            welcome@,
            keybindings.0@,
            opt_text(keybindings.1),
        ),
        r.response_type == ResponseType::Init,
        r.message == keybindings.1,
        r.json == Some(keybindings.0),
        document is None ==> (r.path is None && r.content == Some(welcome) && opt_text(r.name)
            == Some("Welcome.md"@)),
        document matches Some(d) ==> (r.path == Some(d.path) && r.content == Some(d.content)),
        document matches Some(d) ==> (d.file_name matches Some(n) ==> opt_text(r.name) == Some(
            n@,
        )),
        document matches Some(d) ==> (d.file_name is None ==> opt_text(r.name) == Some(
            "Untitled.md"@,
        )),
{
    let (kb_json, kb_warning) = keybindings;
    match document {
        Some(doc) => {
            let LoadedDocument { path, file_name, content } = doc;
            IpcResponse {
                response_type: ResponseType::Init,
                path: Some(path),
                name: Some(display_name(file_name)),
                content: Some(content),
                message: kb_warning,
                json: Some(kb_json),
            }
        },
        None => IpcResponse {
            response_type: ResponseType::Init,
            path: None,
            name: Some("Welcome.md".to_owned()),
            content: Some(welcome),
            message: kb_warning,
            json: Some(kb_json),
        },
    }
}

/// A reply that reports a failure with `message`.
pub fn error_response(message: String) -> (r: IpcResponse)
    ensures
        r@ == error_reply(message@),
{
    IpcResponse {
        response_type: ResponseType::Error,
        path: None,
        name: None,
        content: None,
        message: Some(message),
        json: None,
    }
}

/// The message for a file that the user picked but that could not be read.
pub open spec fn open_failed_message(detail: Seq<char>) -> Seq<char> {
    "Failed to open file: "@ + detail
}

/// The message for a document that could not be written.
pub open spec fn save_failed_message(detail: Seq<char>) -> Seq<char> {
    "Failed to save file: "@ + detail
}

/// The message for keybindings that are not JSON.
pub open spec fn invalid_keybindings_message(detail: Seq<char>) -> Seq<char> {
    "Invalid keybindings JSON: "@ + detail
}

/// The message for keybindings that could not be written.
pub open spec fn keybindings_write_failed_message(detail: Seq<char>) -> Seq<char> {
    "Failed to save keybindings: "@ + detail
}

/// The reply to a file that the user picked: the opened document, or the
/// read error.
pub fn picked_file_response(
    path: String,
    file_name: Option<String>,
    read: Result<String, String>,
) -> (r: IpcResponse)
    ensures
        match read {
            Ok(content) => r@ == opened_reply(path@, opt_text(file_name), content@),
            Err(d) => r@ == error_reply(open_failed_message(d@)),
        },
{
    match read {
        Ok(content) => file_opened_response(LoadedDocument { path, file_name, content }),
        Err(detail) => {
            let r = error_response(join3("Failed to open file: ", detail.as_str(), ""));
            proof {
                reveal_strlit("");
                assert(r@ == error_reply(open_failed_message(detail@)));
            }
            r
        },
    }
}

/// The reply that announces a saved document.
pub open spec fn saved_reply(path: Seq<char>, file_name: Option<Seq<char>>) -> IpcResponseView {
    IpcResponseView {
        response_type: ResponseType::FileSaved,
        path: Some(path),
        name: Some(shown_name(file_name)),
        content: None,
        message: None,
        json: None,
    }
}

/// The reply to writing a document to `path`: saved, or the write error.
pub fn save_outcome_response(
    path: String,
    file_name: Option<String>,
    written: Result<(), String>,
) -> (r: IpcResponse)
    ensures
        match written {
            Ok(()) => r@ == saved_reply(path@, opt_text(file_name)),
            Err(d) => r@ == error_reply(save_failed_message(d@)),
        },
{
    match written {
        Ok(()) => IpcResponse {
            response_type: ResponseType::FileSaved,
            path: Some(path),
            name: Some(display_name(file_name)),
            content: None,
            message: None,
            json: None,
        },
        Err(detail) => {
            let r = error_response(join3("Failed to save file: ", detail.as_str(), ""));
            proof {
                reveal_strlit("");
                assert(r@ == error_reply(save_failed_message(detail@)));
            }
            r
        },
    }
}

/// Decides what becomes of keybindings that the web view asks to store,
/// from the JSON parser's verdict on them: when they parsed they are handed
/// back for writing (`Ok`); otherwise nothing is written and the reply
/// reports the parser's complaint.
pub fn keybindings_update_from_parse(json: String, parsed: Result<(), String>) -> (r:
    Result<String, IpcResponse>)
    ensures
        match parsed {
            Ok(()) => r == Ok::<String, IpcResponse>(json),
            Err(d) => r matches Err(reply) && reply@ == error_reply(
                invalid_keybindings_message(d@),
            ),
        },
{
    match parsed {
        Ok(()) => Ok(json),
        Err(detail) => {
            let r = error_response(join3("Invalid keybindings JSON: ", detail.as_str(), ""));
            proof {
                reveal_strlit("");
                assert(r@ == error_reply(invalid_keybindings_message(detail@)));
            }
            Err(r)
        },
    }
}

/// Validates keybindings that the web view asks to store: they are written
/// only when they are JSON (`Ok` hands them back for writing); otherwise
/// the reply reports the parser's complaint and nothing is written.
pub fn accept_keybindings_update(json: String) -> (r: Result<String, IpcResponse>)
    ensures
        json_document_valid(json@) ==> r == Ok::<String, IpcResponse>(json),
        json_syntax_error(json@) matches Some(d) ==> (r matches Err(reply) && reply@
            == error_reply(invalid_keybindings_message(d))),
{
    let parsed = parse_json_document(json.as_str());
    keybindings_update_from_parse(json, parsed)
}

/// The reply that confirms stored keybindings.
pub open spec fn keybindings_saved_reply(json: Seq<char>) -> IpcResponseView {
    IpcResponseView {
        response_type: ResponseType::KeybindingsSaved,
        path: None,
        name: None,
        content: None,
        message: Some("Keybindings saved successfully."@),
        json: Some(json),
    }
}

/// The reply to writing checked keybindings: confirmed with the stored text,
/// or the write error.
pub fn keybindings_saved_response(json: String, written: Result<(), String>) -> (r:
    IpcResponse)
    ensures
        match written {
            Ok(()) => r@ == keybindings_saved_reply(json@),
            Err(d) => r@ == error_reply(keybindings_write_failed_message(d@)),
        },
{
    match written {
        Ok(()) => IpcResponse {
            response_type: ResponseType::KeybindingsSaved,
            path: None,
            name: None,
            content: None,
            message: Some("Keybindings saved successfully.".to_owned()),
            json: Some(json),
        },
        Err(detail) => {
            let r = error_response(join3("Failed to save keybindings: ", detail.as_str(), ""));
            proof {
                reveal_strlit("");
                assert(r@ == error_reply(keybindings_write_failed_message(detail@)));
            }
            r
        },
    }
}

/// The reply after the built-in keybindings were stored.
pub open spec fn keybindings_reset_reply() -> IpcResponseView {
    IpcResponseView {
        response_type: ResponseType::KeybindingsReset,
        path: None,
        name: None,
        content: None,
        message: Some("Keybindings reset to default settings."@),
        json: Some(DEFAULT_KEYBINDINGS@),
    }
}

/// The reply after the built-in keybindings were stored; it is sent whether
/// or not the file could be written.
pub fn keybindings_reset_response() -> (r: IpcResponse)
    ensures
        r@ == keybindings_reset_reply(),
{
    IpcResponse {
        response_type: ResponseType::KeybindingsReset,
        path: None,
        name: None,
        content: None,
        message: Some("Keybindings reset to default settings.".to_owned()),
        json: Some(default_keybindings()),
    }
}

/// The script that hands a serialised reply to the web view.
pub open spec fn delivery_script(json: Seq<char>) -> Seq<char> {
    "window.receiveFromRust("@ + json + ");"@
}

/// Frames a reply, already serialised as JSON, as the script that the web
/// view evaluates.
pub fn receive_script(json: &str) -> (r: String)
    ensures
        r@ == delivery_script(json@),
        r@.len() == json@.len() + 25,
        r@.subrange(23, 23 + json@.len() as int) == json@,
        r@.take(23) == "window.receiveFromRust("@,
        r@.skip(23 + json@.len() as int) == ");"@,
{
    proof {
        law_delivery_script(json@);
    }
    join3("window.receiveFromRust(", json, ");")
}

/// The delivery law: the script holds the whole serialised reply, unchanged
/// and in one piece, between `window.receiveFromRust(` and `);`, and
/// nothing else.
pub proof fn law_delivery_script(json: Seq<char>)
    ensures
        delivery_script(json).len() == json.len() + 25,
        delivery_script(json).take(23) == "window.receiveFromRust("@,
        delivery_script(json).subrange(23, 23 + json.len() as int) == json,
        delivery_script(json).skip(23 + json.len() as int) == ");"@,
        forall|i: int| 0 <= i < json.len() ==> #[trigger] delivery_script(json)[23 + i] == json[i],
{
    reveal_strlit("window.receiveFromRust(");
    reveal_strlit(");");
    let d = delivery_script(json);
    assert("window.receiveFromRust("@.len() == 23);
    assert(");"@.len() == 2);
    assert(d.take(23) =~= "window.receiveFromRust("@);
    assert(d.subrange(23, 23 + json.len() as int) =~= json);
    assert(d.skip(23 + json.len() as int) =~= ");"@);
}


/// The keybindings law: keybindings that the viewer agrees to store are
/// exactly those that it then loads back unchanged, and a reset stores the
/// very keybindings that stand in for a file that cannot be used.
pub proof fn law_keybindings_round_trip(json: Seq<char>)
    ensures
        json_document_valid(json) ==> keybindings_in_use(json) == json,
        !json_document_valid(json) ==> keybindings_in_use(json) == DEFAULT_KEYBINDINGS@,
        keybindings_reset_reply().json == Some(DEFAULT_KEYBINDINGS@),
{
}


/// The naming law: a document is shown under its own file name whenever it
/// has one, and as `Untitled.md` only when it has none; this holds of opened
/// files, saved files and the first reply alike.
pub proof fn law_shown_names(
    path: Seq<char>,
    file_name: Option<Seq<char>>,
    content: Seq<char>,
    welcome: Seq<char>,
    keybindings: Seq<char>,
    warning: Option<Seq<char>>,
)
    ensures
        file_name matches Some(n) ==> opened_reply(path, file_name, content).name == Some(n),
        file_name matches Some(n) ==> saved_reply(path, file_name).name == Some(n),
        file_name matches Some(n) ==> init_reply(
            Some((path, file_name, content)),
            welcome,
            keybindings,
            warning,
        ).name == Some(n),
        file_name is None ==> opened_reply(path, file_name, content).name == Some("Untitled.md"@),
        file_name is None ==> saved_reply(path, file_name).name == Some("Untitled.md"@),
        file_name is None ==> init_reply(
            Some((path, file_name, content)),
            welcome,
            keybindings,
            warning,
        ).name == Some("Untitled.md"@),
        opened_reply(path, file_name, content).response_type == ResponseType::FileOpened,
        opened_reply(path, file_name, content).path == Some(path),
        opened_reply(path, file_name, content).content == Some(content),
        opened_reply(path, file_name, content).message is None,
        opened_reply(path, file_name, content).json is None,
        saved_reply(path, file_name).response_type == ResponseType::FileSaved,
        saved_reply(path, file_name).path == Some(path),
        saved_reply(path, file_name).content is None,
{
}

/// The first-reply law: whatever document is shown, the first reply carries
/// the keybindings in use and the warning about them unchanged; with a
/// document it carries that document's path and text, and without one the
/// welcome text under the name `Welcome.md` and no path.
pub proof fn law_init_reply(
    document: Option<(Seq<char>, Option<Seq<char>>, Seq<char>)>,
    welcome: Seq<char>,
    keybindings: Seq<char>,
    warning: Option<Seq<char>>,
)
    ensures
        init_reply(document, welcome, keybindings, warning).response_type == ResponseType::Init,
        init_reply(document, welcome, keybindings, warning).message == warning,
        init_reply(document, welcome, keybindings, warning).json == Some(keybindings),
        document matches Some(d) ==> init_reply(document, welcome, keybindings, warning).path
            == Some(d.0),
        document matches Some(d) ==> init_reply(document, welcome, keybindings, warning).content
            == Some(d.2),
        document is None ==> init_reply(document, welcome, keybindings, warning).path is None,
        document is None ==> init_reply(document, welcome, keybindings, warning).content == Some(
            welcome,
        ),
        document is None ==> init_reply(document, welcome, keybindings, warning).name == Some(
            "Welcome.md"@,
        ),
{
}

/// Command names are told apart.
proof fn lemma_command_names_differ()
    ensures
        "drag_window"@ != "minimize_window"@,
        "drag_window"@ != "maximize_window"@,
        "minimize_window"@ != "maximize_window"@,
        "drag_window"@ != "close_window"@,
        "minimize_window"@ != "close_window"@,
        "maximize_window"@ != "close_window"@,
        "drag_window"@ != "get_init_data"@,
        "minimize_window"@ != "get_init_data"@,
        "maximize_window"@ != "get_init_data"@,
        "close_window"@ != "get_init_data"@,
        "drag_window"@ != "read_file"@,
        "minimize_window"@ != "read_file"@,
        "maximize_window"@ != "read_file"@,
        "close_window"@ != "read_file"@,
        "get_init_data"@ != "read_file"@,
        "drag_window"@ != "open_file"@,
        "minimize_window"@ != "open_file"@,
        "maximize_window"@ != "open_file"@,
        "close_window"@ != "open_file"@,
        "get_init_data"@ != "open_file"@,
        "read_file"@ != "open_file"@,
        "drag_window"@ != "save_file"@,
        "minimize_window"@ != "save_file"@,
        "maximize_window"@ != "save_file"@,
        "close_window"@ != "save_file"@,
        "get_init_data"@ != "save_file"@,
        "read_file"@ != "save_file"@,
        "open_file"@ != "save_file"@,
        "drag_window"@ != "save_file_as"@,
        "minimize_window"@ != "save_file_as"@,
        "maximize_window"@ != "save_file_as"@,
        "close_window"@ != "save_file_as"@,
        "get_init_data"@ != "save_file_as"@,
        "read_file"@ != "save_file_as"@,
        "open_file"@ != "save_file_as"@,
        "save_file"@ != "save_file_as"@,
        "drag_window"@ != "save_keybindings"@,
        "minimize_window"@ != "save_keybindings"@,
        "maximize_window"@ != "save_keybindings"@,
        "close_window"@ != "save_keybindings"@,
        "get_init_data"@ != "save_keybindings"@,
        "read_file"@ != "save_keybindings"@,
        "open_file"@ != "save_keybindings"@,
        "save_file"@ != "save_keybindings"@,
        "save_file_as"@ != "save_keybindings"@,
        "drag_window"@ != "reset_default_keybindings"@,
        "minimize_window"@ != "reset_default_keybindings"@,
        "maximize_window"@ != "reset_default_keybindings"@,
        "close_window"@ != "reset_default_keybindings"@,
        "get_init_data"@ != "reset_default_keybindings"@,
        "read_file"@ != "reset_default_keybindings"@,
        "open_file"@ != "reset_default_keybindings"@,
        "save_file"@ != "reset_default_keybindings"@,
        "save_file_as"@ != "reset_default_keybindings"@,
        "save_keybindings"@ != "reset_default_keybindings"@,
        "drag_window"@ != "set_title"@,
        "minimize_window"@ != "set_title"@,
        "maximize_window"@ != "set_title"@,
        "close_window"@ != "set_title"@,
        "get_init_data"@ != "set_title"@,
        "read_file"@ != "set_title"@,
        "open_file"@ != "set_title"@,
        "save_file"@ != "set_title"@,
        "save_file_as"@ != "set_title"@,
        "save_keybindings"@ != "set_title"@,
        "reset_default_keybindings"@ != "set_title"@,
{
    reveal_strlit("drag_window");
    reveal_strlit("minimize_window");
    reveal_strlit("maximize_window");
    reveal_strlit("close_window");
    reveal_strlit("get_init_data");
    reveal_strlit("read_file");
    reveal_strlit("open_file");
    reveal_strlit("save_file");
    reveal_strlit("save_file_as");
    reveal_strlit("save_keybindings");
    reveal_strlit("reset_default_keybindings");
    reveal_strlit("set_title");
    assert("drag_window"@.len() == 11);
    assert("minimize_window"@.len() == 15);
    assert("maximize_window"@.len() == 15);
    assert("close_window"@.len() == 12);
    assert("get_init_data"@.len() == 13);
    assert("read_file"@.len() == 9);
    assert("open_file"@.len() == 9);
    assert("save_file"@.len() == 9);
    assert("save_file_as"@.len() == 12);
    assert("save_keybindings"@.len() == 16);
    assert("reset_default_keybindings"@.len() == 25);
    assert("set_title"@.len() == 9);
    assert("minimize_window"@[1] != "maximize_window"@[1]);
    assert("read_file"@[0] != "open_file"@[0]);
    assert("read_file"@[0] != "save_file"@[0]);
    assert("open_file"@[0] != "save_file"@[0]);
    assert("close_window"@[0] != "save_file_as"@[0]);
    assert("read_file"@[0] != "set_title"@[0]);
    assert("open_file"@[0] != "set_title"@[0]);
    assert("save_file"@[1] != "set_title"@[1]);
}

/// The command law: each command name selects its own command; a command
/// that carries data carries exactly what the request sent, whatever else
/// the request holds (in particular Save As writes the sent content whether
/// or not a name is proposed, and only the proposed name falls back to
/// `document.md`); a command without the data it needs, or an unknown name,
/// does nothing.
pub proof fn law_commands_carry_arguments(req: IpcRequestView)
    ensures
        req.cmd == "save_file_as"@ ==> (req.content matches Some(c) ==> (req.default_name matches Some(
            n,
        ) ==> command_for(req) == CommandView::SaveFileAs(c, n))),
        req.cmd == "save_file_as"@ ==> (req.content matches Some(c) ==> (req.default_name is None
            ==> command_for(req) == CommandView::SaveFileAs(c, "document.md"@))),
        req.cmd == "save_file_as"@ ==> (req.content is None ==> command_for(req)
            == CommandView::Ignore),
        req.cmd == "read_file"@ ==> (req.path matches Some(p) ==> command_for(req)
            == CommandView::ReadFile(p)),
        req.cmd == "save_file"@ ==> (req.path matches Some(p) ==> (req.content matches Some(c)
            ==> command_for(req) == CommandView::SaveFile(p, c))),
        req.cmd == "save_keybindings"@ ==> (req.json matches Some(j) ==> command_for(req)
            == CommandView::SaveKeybindings(j)),
        req.cmd == "set_title"@ ==> (req.title matches Some(t) ==> command_for(req)
            == CommandView::SetTitle(t)),
        req.cmd == "read_file"@ ==> (req.path is None ==> command_for(req) == CommandView::Ignore),
        req.cmd == "save_file"@ ==> (req.path is None || req.content is None ==> command_for(req)
            == CommandView::Ignore),
        req.cmd == "save_keybindings"@ ==> (req.json is None ==> command_for(req)
            == CommandView::Ignore),
        req.cmd == "set_title"@ ==> (req.title is None ==> command_for(req) == CommandView::Ignore),
        req.cmd == "drag_window"@ ==> command_for(req) == CommandView::DragWindow,
        req.cmd == "minimize_window"@ ==> command_for(req) == CommandView::MinimizeWindow,
        req.cmd == "maximize_window"@ ==> command_for(req) == CommandView::ToggleMaximize,
        req.cmd == "close_window"@ ==> command_for(req) == CommandView::CloseWindow,
        req.cmd == "get_init_data"@ ==> command_for(req) == CommandView::GetInitData,
        req.cmd == "open_file"@ ==> command_for(req) == CommandView::OpenFileDialog,
        req.cmd == "reset_default_keybindings"@ ==> command_for(req)
            == CommandView::ResetKeybindings,
        !(req.cmd == "drag_window"@ || req.cmd == "minimize_window"@ || req.cmd
            == "maximize_window"@ || req.cmd == "close_window"@ || req.cmd == "get_init_data"@
            || req.cmd == "read_file"@ || req.cmd == "open_file"@ || req.cmd == "save_file"@
            || req.cmd == "save_file_as"@ || req.cmd == "save_keybindings"@ || req.cmd
            == "reset_default_keybindings"@ || req.cmd == "set_title"@) ==> command_for(req)
            == CommandView::Ignore,
{
    lemma_command_names_differ();
}


/// The reply-text law: every failure reply carries only its message, which
/// is a fixed phrase followed by the description of the fault, unchanged;
/// confirmations carry their fixed phrase, the stored keybindings, and the
/// built-in keybindings after a reset.
pub proof fn law_reply_texts(detail: Seq<char>, json: Seq<char>)
    ensures
        open_failed_message(detail) == "Failed to open file: "@ + detail,
        save_failed_message(detail) == "Failed to save file: "@ + detail,
        invalid_keybindings_message(detail) == "Invalid keybindings JSON: "@ + detail,
        keybindings_write_failed_message(detail) == "Failed to save keybindings: "@ + detail,
        error_reply(detail).response_type == ResponseType::Error,
        error_reply(detail).message == Some(detail),
        error_reply(detail).path is None && error_reply(detail).name is None,
        error_reply(detail).content is None && error_reply(detail).json is None,
        keybindings_saved_reply(json).response_type == ResponseType::KeybindingsSaved,
        keybindings_saved_reply(json).json == Some(json),
        keybindings_saved_reply(json).message == Some("Keybindings saved successfully."@),
        keybindings_saved_reply(json).path is None && keybindings_saved_reply(json).content is None,
        keybindings_reset_reply().response_type == ResponseType::KeybindingsReset,
        keybindings_reset_reply().json == Some(DEFAULT_KEYBINDINGS@),
        keybindings_reset_reply().message == Some("Keybindings reset to default settings."@),
        keybindings_reset_reply().path is None && keybindings_reset_reply().content is None,
{
}

/// The reply-kind law: each kind of reply has its own name on the wire,
/// and no two kinds share one.
pub proof fn law_wire_names(a: ResponseType, b: ResponseType)
    ensures
        wire_name_of(ResponseType::Init) == "init"@,
        wire_name_of(ResponseType::FileOpened) == "file_opened"@,
        wire_name_of(ResponseType::FileSaved) == "file_saved"@,
        wire_name_of(ResponseType::KeybindingsSaved) == "keybindings_saved"@,
        wire_name_of(ResponseType::KeybindingsReset) == "keybindings_reset"@,
        wire_name_of(ResponseType::Error) == "error"@,
        a != b ==> wire_name_of(a) != wire_name_of(b),
{
    reveal_strlit("init");
    reveal_strlit("file_opened");
    reveal_strlit("file_saved");
    reveal_strlit("keybindings_saved");
    reveal_strlit("keybindings_reset");
    reveal_strlit("error");
    assert("init"@.len() == 4);
    assert("file_opened"@.len() == 11);
    assert("file_saved"@.len() == 10);
    assert("keybindings_saved"@.len() == 17);
    assert("keybindings_reset"@.len() == 17);
    assert("error"@.len() == 5);
    assert("keybindings_saved"@[12] != "keybindings_reset"@[12]);
}

} // verus!
