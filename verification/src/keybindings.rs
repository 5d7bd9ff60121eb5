//! The keybindings file: its contents are used only when they are JSON;
//! otherwise the built-in defaults stand in and a warning says why.

use vstd::prelude::*;
use crate::json::{json_document_valid, json_syntax_error, parse_json_document};
use crate::text::opt_text;
use crate::text::join3;

verus! {

/// Name of the keybindings file, next to the program.
pub const KEYBINDINGS_FILE: &'static str = "keybindings.json";

/// The built-in keybindings.
pub const DEFAULT_KEYBINDINGS: &'static str = "{\"preview\":{\"scroll_down\":\"j\",\"scroll_up\":\"k\",\"scroll_top\":\"g\",\"scroll_bottom\":\"G\"},\"settings\":{\"scroll_step_y\":60}}";

/// The warning given when the file is not JSON; `detail` is the parser's
/// description of the fault.
pub open spec fn corrupted_message(detail: Seq<char>) -> Seq<char> {
    "'keybindings.json' is corrupted ("@ + detail + "). Reverted to default settings."@
}

/// The warning given when the file cannot be read; `detail` is the
/// description of the read error.
pub open spec fn unreadable_message(detail: Seq<char>) -> Seq<char> {
    "Failed to read 'keybindings.json' ("@ + detail + "). Reverted to default settings."@
}

/// The keybindings in use when the file holds `content`: the file's text
/// when it is JSON, else the built-in ones.
pub open spec fn keybindings_in_use(content: Seq<char>) -> Seq<char> {
    if json_document_valid(content) {
        content
    } else {
        DEFAULT_KEYBINDINGS@
    }
}

/// The built-in keybindings, owned.
pub fn default_keybindings() -> (r: String)
    ensures
        r@ == DEFAULT_KEYBINDINGS@,
{
    DEFAULT_KEYBINDINGS.to_owned()
}

/// The keybindings in use, and the warning given, when reading the file
/// gave `read`: its text, or the description of the read error.
pub open spec fn keybindings_outcome(read: Result<Seq<char>, Seq<char>>) -> (
    Seq<char>,
    Option<Seq<char>>,
) {
    match read {
        Ok(content) => match json_syntax_error(content) {
            None => (content, None),
            Some(d) => (DEFAULT_KEYBINDINGS@, Some(corrupted_message(d))),
        },
        Err(d) => (DEFAULT_KEYBINDINGS@, Some(unreadable_message(d))),
    }
}

/// The text of a read outcome.
pub open spec fn read_text(read: Result<String, String>) -> Result<Seq<char>, Seq<char>> {
    match read {
        Ok(c) => Ok(c@),
        Err(d) => Err(d@),
    }
}

/// Decides the keybindings from the text of the file and the JSON parser's
/// verdict on it (`Err` holds the parser's complaint): the text itself when
/// it parsed, else the defaults with a warning that carries the complaint.
pub fn keybindings_from_parse(content: String, parsed: Result<(), String>) -> (r: (
    String,
    Option<String>,
))
    ensures
        match parsed {
            Ok(()) => r.0 == content && r.1 is None,
            Err(d) => r.0@ == DEFAULT_KEYBINDINGS@ && opt_text(r.1) == Some(corrupted_message(d@)),
        },
{
    match parsed {
        Ok(()) => (content, None),
        Err(detail) => {
            let msg = join3(
                "'keybindings.json' is corrupted (",
                detail.as_str(),
                "). Reverted to default settings.",
            );
            (default_keybindings(), Some(msg))
        },
    }
}

/// Decides which keybindings the viewer uses, given the outcome of reading
/// the file (its text, or the description of the read error): its text when
/// it is JSON, else the defaults together with a warning.
pub fn validate_or_fallback_keybindings(read_res: Result<String, String>) -> (r: (
    String,
    Option<String>,
))
    ensures
        (r.0@, opt_text(r.1)) == keybindings_outcome(read_text(read_res)),
        read_res matches Ok(content) ==> (r.0@ == keybindings_in_use(content@) && (
        json_document_valid(content@) ==> r.0 == content)),
{
    match read_res {
        Ok(content) => {
            let parsed = parse_json_document(content.as_str());
            keybindings_from_parse(content, parsed)
        },
        Err(detail) => {
            let msg = join3(
                "Failed to read 'keybindings.json' (",
                detail.as_str(),
                "). Reverted to default settings.",
            );
            (default_keybindings(), Some(msg))
        },
    }
}

/// The keybindings in use when the file is absent (`None`) or was read
/// with the given outcome: the same as `validate_or_fallback_keybindings`
/// gives for that outcome, and the defaults without a warning when there is
/// no file.
pub fn keybindings_from_file(read: Option<Result<String, String>>) -> (r: (
    String,
    Option<String>,
))
    ensures
        match read {
            None => r.0@ == DEFAULT_KEYBINDINGS@ && r.1 is None,
            Some(read_res) => (r.0@, opt_text(r.1)) == keybindings_outcome(read_text(read_res)),
        },
{
    match read {
        None => (default_keybindings(), None),
        Some(read_res) => validate_or_fallback_keybindings(read_res),
    }
}

/// The fallback law: a file whose text is JSON is used as it is, with no
/// warning; a file that is not JSON, or cannot be read, gives way to the
/// built-in keybindings, and the warning names the file, carries the
/// parser's or the reader's description unchanged, and says that the
/// defaults were restored; an absent file gives the defaults silently.
pub proof fn law_keybindings_outcome(content: Seq<char>, detail: Seq<char>)
    ensures
        json_syntax_error(content) is None ==> keybindings_outcome(Ok(content)) == (content, None::<
            Seq<char>,
        >),
        json_syntax_error(content) matches Some(d) ==> keybindings_outcome(Ok(content)) == (
            DEFAULT_KEYBINDINGS@,
            Some("'keybindings.json' is corrupted ("@ + d + "). Reverted to default settings."@),
        ),
        keybindings_outcome(Err(detail)) == (
            DEFAULT_KEYBINDINGS@,
            Some("Failed to read 'keybindings.json' ("@ + detail + "). Reverted to default settings."@),
        ),
        keybindings_outcome(Ok(content)).1 is None <==> keybindings_outcome(Ok(content)).0 == content
            && json_document_valid(content),
{
    reveal_strlit("'keybindings.json' is corrupted (");
    reveal_strlit("). Reverted to default settings.");
    let m = "'keybindings.json' is corrupted ("@;
    assert(m.len() > 0);
}

} // verus!
