//! Recognising JSON documents, which `serde_json` does.

use vstd::prelude::*;

verus! {

/// What `serde_json` says of `text` when it reads it as one JSON value:
/// `None` when `text` is one complete JSON document (any JSON value,
/// surrounded by nothing but white space, nested at most as deep as its
/// recursion limit allows), else the description of the first fault that
/// its error reports (such as "EOF while parsing a value at line 1 column
/// 3").
pub uninterp spec fn json_syntax_error(text: Seq<char>) -> Option<Seq<char>>;

/// Whether `serde_json` accepts `text` as one complete JSON document.
pub open spec fn json_document_valid(text: Seq<char>) -> bool {
    json_syntax_error(text) is None
}

/// Reads `text` with `serde_json::from_str` as a `serde_json::Value` and
/// hands back `Ok` when that succeeds, else the message of the error that
/// it reports (its `to_string`). Both depend on `text` alone, and
/// `json_syntax_error` names them.
#[verifier::external_body]
pub(crate) fn parse_json_document(text: &str) -> (r: Result<(), String>)
    ensures
        match r {
            Ok(()) => json_syntax_error(text@) is None,
            Err(d) => json_syntax_error(text@) == Some(d@),
        },
{
    match serde_json::from_str::<serde_json::Value>(text) {
        Ok(_) => Ok(()),
        Err(e) => Err(e.to_string()),
    }
}

} // verus!
