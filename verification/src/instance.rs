//! The single-instance hand-off: a second launch passes its file to the
//! running viewer over a named pipe, one line per request, and the running
//! viewer answers `OK`, then opens the file or comes to the front.

use vstd::prelude::*;
use crate::text::{
    chars_of, is_white_space, join3, lemma_trim_bounds, lemma_trim_end_stops, lemma_trim_start_stops,
    trim, trim_end, trim_start, trim_str,
};

verus! {

/// Name of the pipe on which the running instance listens.
pub const PIPE_NAME: &'static str = "\\\\.\\pipe\\mdviewer_single_instance_ipc";

/// Open mode of the pipe: duplex.
pub const PIPE_ACCESS_DUPLEX: u32 = 0x00000003;

/// Pipe mode: byte stream, read as bytes, blocking.
pub const PIPE_MODE_BYTE_WAIT: u32 = 0x00000000;

/// Most pipe instances at one time.
pub const PIPE_MAX_INSTANCES: u32 = 255;

/// Size of the pipe's buffers in each direction, in bytes.
pub const PIPE_BUFFER_SIZE: u32 = 4096;

/// Default time-out of the pipe, in milliseconds.
pub const PIPE_TIMEOUT_MS: u32 = 5000;

/// The handle value that reports a failure to create the pipe.
pub const INVALID_HANDLE_VALUE: isize = -1;

/// The error code by which `ConnectNamedPipe` reports that a client
/// connected before the server waited for it.
pub const ERROR_PIPE_CONNECTED: u32 = 535;

/// Pause before the next attempt after the pipe could not be created.
pub const RETRY_DELAY_MS: u64 = 200;

/// What the running instance is asked to do.
#[derive(PartialEq, Eq, Debug)]
pub enum AppEvent {
    /// Open this file.
    OpenFile(String),
    /// Come to the front.
    FocusWindow,
}

/// The request line that a second instance sends: its payload (the
/// resolved path, or nothing) and a line end.
pub open spec fn request_frame(payload: Option<Seq<char>>) -> Seq<char> {
    match payload {
        Some(p) => p.push('\n'),
        None => seq!['\n'],
    }
}

/// The file that a received request line names, if any: the line without
/// surrounding white space, when something is left.
pub open spec fn requested_file(line: Seq<char>) -> Option<Seq<char>> {
    if trim(line).len() == 0 {
        None
    } else {
        Some(trim(line))
    }
}

/// Builds the request line for the running instance.
pub fn encode_request(payload: Option<String>) -> (r: String)
    ensures
        r@ == request_frame(
            match payload {
                Some(p) => Some(p@),
                None => None,
            },
        ),
{
    proof {
        reveal_strlit("\n");
        reveal_strlit("");
    }
    let r = match payload {
        Some(p) => join3(p.as_str(), "\n", ""),
        None => join3("", "\n", ""),
    };
    r
}

/// Decides what a received request line asks for: an empty (or blank) line
/// brings the window to the front, anything else is a file to open.
pub fn decode_request(line: &str) -> (r: AppEvent)
    ensures
        match r {
            AppEvent::FocusWindow => requested_file(line@) is None,
            AppEvent::OpenFile(p) => requested_file(line@) == Some(p@),
        },
{
    let trimmed = trim_str(line);
    if trimmed.is_empty() {
        AppEvent::FocusWindow
    } else {
        AppEvent::OpenFile(trimmed.to_owned())
    }
}

/// A line end at the back of a sequence is trimmed at the front only
/// together with everything before it.
proof fn lemma_trim_start_push_newline(p: Seq<char>)
    ensures
        trim_start(p).len() == 0 ==> trim_start(p.push('\n')).len() == 0,
        trim_start(p).len() > 0 ==> trim_start(p.push('\n')) == trim_start(p).push('\n'),
    decreases p.len(),
{
    assert(is_white_space('\n'));
    if p.len() == 0 {
        assert(p.push('\n').drop_first() =~= Seq::<char>::empty());
        assert(trim_start(Seq::<char>::empty()).len() == 0);
    } else if is_white_space(p[0]) {
        assert(p.push('\n').drop_first() =~= p.drop_first().push('\n'));
        lemma_trim_start_push_newline(p.drop_first());
    } else {
    }
}

/// The line end of a request line disappears when the line is trimmed.
pub proof fn lemma_trim_drops_line_end(p: Seq<char>)
    ensures
        trim(p.push('\n')) == trim(p),
{
    assert(is_white_space('\n'));
    lemma_trim_start_push_newline(p);
    let t = trim_start(p);
    if t.len() == 0 {
        assert(trim_end(trim_start(p.push('\n'))) == trim_start(p.push('\n')));
        assert(trim_end(t) == t);
    } else {
        assert(t.push('\n').drop_last() =~= t);
    }
}

/// The hand-off law: a request line holds exactly one line end, at its
/// end, whenever the path has none, so the running instance reads it whole;
/// it then acts on the payload as sent, trimmed: a path without white space
/// around it is opened as it was sent, and no path, or a blank one, brings
/// the window to the front.
pub proof fn law_handoff(payload: Option<Seq<char>>)
    ensures
        payload matches Some(p) ==> (request_frame(payload).len() == p.len() + 1
            && request_frame(payload).take(p.len() as int) == p),
        payload is None ==> request_frame(payload).len() == 1,
        request_frame(payload).len() > 0,
        request_frame(payload).last() == '\n',
        (payload matches Some(p) && !p.contains('\n')) ==> forall|i: int|
            0 <= i < request_frame(payload).len() - 1 ==> request_frame(payload)[i] != '\n',
        requested_file(request_frame(payload)) == match payload {
            None => None,
            Some(p) => requested_file(p),
        },
        payload matches Some(p) ==> (trim(p) == p && p.len() > 0 ==> requested_file(
            request_frame(payload),
        ) == Some(p)),
        payload is None ==> requested_file(request_frame(payload)) is None,
{
    match payload {
        None => {
            lemma_trim_drops_line_end(Seq::<char>::empty());
            assert(seq!['\n'] =~= Seq::<char>::empty().push('\n'));
            assert(trim(Seq::<char>::empty()) =~= Seq::<char>::empty());
        },
        Some(p) => {
            assert(p.push('\n').take(p.len() as int) =~= p);
            lemma_trim_drops_line_end(p);
            if !p.contains('\n') {
                assert forall|i: int| 0 <= i < request_frame(payload).len() - 1 implies request_frame(
                    payload,
                )[i] != '\n' by {
                    assert(request_frame(payload)[i] == p[i]);
                }
            }
        },
    }
}

/// The request-line law: a line asks only to bring the window forward
/// exactly when it is all white space; otherwise it names the one run of
/// the line that lies between the white space at its ends, which neither
/// starts nor ends with white space, and which names itself again when sent
/// on its own.
pub proof fn law_request_line(line: Seq<char>)
    ensures
        requested_file(line) is None <==> forall|k: int|
            0 <= k < line.len() ==> is_white_space(#[trigger] line[k]),
        requested_file(line) matches Some(p) ==> (p.len() > 0 && !is_white_space(p[0])
            && !is_white_space(p.last())),
        requested_file(line) matches Some(p) ==> exists|i: int, j: int|
            {
                &&& 0 <= i < j <= line.len()
                &&& p == line.subrange(i, j)
                &&& forall|k: int| 0 <= k < i ==> is_white_space(#[trigger] line[k])
                &&& forall|k: int| j <= k < line.len() ==> is_white_space(#[trigger] line[k])
            },
        requested_file(line) matches Some(p) ==> requested_file(p) == Some(p),
{
    let b = lemma_trim_bounds(line);
    let t = trim(line);
    if b.0 < b.1 {
        assert(t[0] == line[b.0]);
        assert(t.last() == line[b.1 - 1]);
        lemma_trim_start_stops(t);
        lemma_trim_end_stops(t);
        assert(trim(t) == t);
        assert(!is_white_space(line[b.0]));
    } else {
        assert forall|k: int| 0 <= k < line.len() implies is_white_space(#[trigger] line[k]) by {}
    }
}

/// UTF-16 code units of one character.
pub open spec fn utf16_of_char(c: char) -> Seq<u16> {
    let u = c as u32;
    if u < 0x10000 {
        seq![u as u16]
    } else {
        let v = u - 0x10000;
        seq![(0xd800 + v / 0x400) as u16, (0xdc00 + v % 0x400) as u16]
    }
}

/// UTF-16 code units of a text.
pub open spec fn utf16_of(s: Seq<char>) -> Seq<u16>
    decreases s.len(),
{
    if s.len() == 0 {
        Seq::empty()
    } else {
        utf16_of(s.drop_last()) + utf16_of_char(s.last())
    }
}

/// The encodings of two texts, one after the other, encode the two texts
/// one after the other.
proof fn lemma_utf16_concat(a: Seq<char>, b: Seq<char>)
    ensures
        utf16_of(a + b) == utf16_of(a) + utf16_of(b),
    decreases b.len(),
{
    if b.len() == 0 {
        assert(a + b =~= a);
        assert(utf16_of(a) + utf16_of(b) =~= utf16_of(a));
    } else {
        lemma_utf16_concat(a, b.drop_last());
        assert((a + b).drop_last() =~= a + b.drop_last());
        assert((a + b).last() == b.last());
        assert(utf16_of(a) + utf16_of(b.drop_last()) + utf16_of_char(b.last()) =~= utf16_of(a) + (
        utf16_of(b.drop_last()) + utf16_of_char(b.last())));
    }
}

/// The UTF-16 law: a text is encoded character by character, in order; a
/// character below U+10000 becomes the one unit of its own value, and any
/// other becomes a high surrogate followed by a low surrogate from which it
/// is recovered exactly. No character is lost: there are at least as many
/// units as characters.
pub proof fn law_utf16(a: Seq<char>, b: Seq<char>, c: char)
    ensures
        utf16_of(a + b) == utf16_of(a) + utf16_of(b),
        utf16_of(a).len() >= a.len(),
        (c as u32) < 0x10000 ==> utf16_of(seq![c]).len() == 1 && utf16_of(seq![c])[0] as u32 == c
            as u32,
        (c as u32) >= 0x10000 ==> {
            let u = utf16_of(seq![c]);
            &&& u.len() == 2
            &&& 0xd800 <= u[0] < 0xdc00
            &&& 0xdc00 <= u[1] < 0xe000
            &&& (u[0] - 0xd800) * 0x400 + (u[1] - 0xdc00) + 0x10000 == c as u32
        },
    decreases a.len(),
{
    lemma_utf16_concat(a, b);
    if a.len() > 0 {
        law_utf16(a.drop_last(), b, c);
    }
    assert(seq![c].drop_last() =~= Seq::<char>::empty());
    assert(utf16_of(Seq::<char>::empty()) =~= Seq::<u16>::empty());
    assert(utf16_of(seq![c]) =~= utf16_of_char(c));
    vstd::utf8::char_is_scalar(c);
    let x = c as u32;
    if x >= 0x10000 {
        let v = (x - 0x10000) as u32;
        assert(v < 0x100000);
        assert(v == (v / 0x400) * 0x400 + v % 0x400) by (nonlinear_arith);
        assert(v / 0x400 < 0x400) by (nonlinear_arith)
            requires
                v < 0x100000,
        ;
        assert(v % 0x400 < 0x400) by (nonlinear_arith);
    }
}

/// The text as UTF-16 code units closed by a zero unit, the form that the
/// wide-character system calls take.
pub fn to_wide_null(s: &str) -> (r: Vec<u16>)
    ensures
        r@ == utf16_of(s@).push(0u16),
{
    let chars = chars_of(s);
    let mut r: Vec<u16> = Vec::new();
    for i in 0..chars.len()
        invariant
            chars@ == s@,
            r@ == utf16_of(s@.take(i as int)),
    {
        let c = chars[i];
        let u = c as u32;
        proof {
            vstd::utf8::char_is_scalar(c);
        }
        if u < 0x10000 {
            r.push(u as u16);
        } else {
            let v = u - 0x10000;
            r.push((0xd800 + v / 0x400) as u16);
            r.push((0xdc00 + v % 0x400) as u16);
        }
        assert(s@.take(i + 1).drop_last() =~= s@.take(i as int));
    }
    assert(s@.take(chars.len() as int) =~= s@);
    r.push(0u16);
    r
}

/// The pipe's name in the form that `CreateNamedPipeW` takes.
pub fn pipe_name_wide() -> (r: Vec<u16>)
    ensures
        r@ == utf16_of(PIPE_NAME@).push(0u16),
{
    to_wide_null(PIPE_NAME)
}


/// The prefix `\\?\` that marks a verbatim path.
pub open spec fn verbatim_prefix() -> Seq<char> {
    seq!['\\', '\\', '?', '\\']
}

/// Whether `path` starts with the four characters `\\?\`.
pub open spec fn starts_verbatim(path: Seq<char>) -> bool {
    &&& path.len() >= 4
    &&& path[0] == '\\'
    &&& path[1] == '\\'
    &&& path[2] == '?'
    &&& path[3] == '\\'
}

/// `path` without its verbatim prefix, if it has one.
pub open spec fn without_verbatim_prefix(path: Seq<char>) -> Seq<char> {
    if path.len() >= 4 && path.take(4) == verbatim_prefix() {
        path.skip(4)
    } else {
        path
    }
}

/// Removes the verbatim prefix `\\?\` that canonical paths carry, so that
/// the path reads as the user would write it.
pub fn strip_verbatim_prefix(path: &str) -> (r: String)
    ensures
        r@ == without_verbatim_prefix(path@),
        starts_verbatim(path@) ==> r@ == path@.subrange(4, path@.len() as int),
        !starts_verbatim(path@) ==> r@ == path@,
{
    let chars = chars_of(path);
    let n = chars.len();
    if n >= 4 && chars[0] == '\\' && chars[1] == '\\' && chars[2] == '?' && chars[3] == '\\' {
        assert(path@.take(4) =~= verbatim_prefix());
        proof {
            law_verbatim_prefix(path@);
        }
        path.substring_char(4, n).to_owned()
    } else {
        proof {
            if path@.len() >= 4 && path@.take(4) == verbatim_prefix() {
                assert(path@[0] == path@.take(4)[0]);
                assert(path@[1] == path@.take(4)[1]);
                assert(path@[2] == path@.take(4)[2]);
                assert(path@[3] == path@.take(4)[3]);
            }
        }
        assert(path@.subrange(0, n as int) =~= path@);
        proof {
            law_verbatim_prefix(path@);
        }
        path.to_owned()
    }
}

/// The path that a second instance hands on: its canonical form without
/// the verbatim prefix when it has one; else the path joined to the working
/// directory, when that is known; else the path as given.
pub open spec fn target_path(
    canonical: Option<Seq<char>>,
    joined: Option<Seq<char>>,
    given: Seq<char>,
) -> Seq<char> {
    match canonical {
        Some(c) => without_verbatim_prefix(c),
        None => match joined {
            Some(j) => j,
            None => given,
        },
    }
}

/// The verbatim-prefix law: a path that starts with `\\?\` loses exactly
/// those four characters and keeps everything after them, in order; any
/// other path is kept whole. Whichever happens, the result is what is left
/// of the path after a prefix of it, and a canonical path is handed on in
/// that form, whatever the fallbacks are.
pub proof fn law_verbatim_prefix(c: Seq<char>)
    ensures
        starts_verbatim(c) ==> without_verbatim_prefix(c).len() + 4 == c.len(),
        starts_verbatim(c) ==> forall|i: int|
            0 <= i < without_verbatim_prefix(c).len() ==> #[trigger] without_verbatim_prefix(c)[i]
                == c[i + 4],
        !starts_verbatim(c) ==> without_verbatim_prefix(c) == c,
        c == c.take(c.len() - without_verbatim_prefix(c).len()) + without_verbatim_prefix(c),
        forall|j: Option<Seq<char>>, g: Seq<char>|
            #[trigger] target_path(Some(c), j, g) == without_verbatim_prefix(c),
{
    if starts_verbatim(c) {
        assert(c.take(4) =~= verbatim_prefix());
        assert(c =~= c.take(4) + c.skip(4));
    } else {
        if c.len() >= 4 && c.take(4) == verbatim_prefix() {
            assert(c[0] == c.take(4)[0]);
            assert(c[1] == c.take(4)[1]);
            assert(c[2] == c.take(4)[2]);
            assert(c[3] == c.take(4)[3]);
        }
        assert(c =~= c.take(0) + c);
    }
}

/// The fallback law: without a canonical form, the path joined to the
/// working directory is handed on when known, else the path as given.
pub proof fn law_target_path_fallbacks(j: Seq<char>, g: Seq<char>)
    ensures
        target_path(None, Some(j), g) == j,
        target_path(None, None, g) == g,
{
}

/// Chooses the path to hand to the running instance from what the file
/// system said about it (`canonical`: the canonical form, when the path
/// exists; `joined`: the path joined to the working directory, when that is
/// known).
pub fn resolve_target_path(canonical: Option<String>, joined: Option<String>, given: String) -> (r:
    String)
    ensures
        r@ == target_path(
            match canonical {
                Some(c) => Some(c@),
                None => None,
            },
            match joined {
                Some(j) => Some(j@),
                None => None,
            },
            given@,
        ),
        canonical matches Some(c) ==> (starts_verbatim(c@) ==> r@ == c@.subrange(4, c@.len() as int)),
        canonical matches Some(c) ==> (!starts_verbatim(c@) ==> r@ == c@),
        canonical is None ==> (joined matches Some(j) ==> r == j),
        canonical is None ==> (joined is None ==> r == given),
{
    match canonical {
        Some(c) => strip_verbatim_prefix(c.as_str()),
        None => match joined {
            Some(j) => j,
            None => given,
        },
    }
}


/// The acknowledgement that every served client receives.
pub open spec fn acknowledgement() -> Seq<char> {
    seq!['O', 'K', '\n']
}

/// Where the listening loop of the running instance stands.
#[derive(PartialEq, Eq, Debug, Clone, Copy)]
pub enum ServerPhase {
    /// About to create a fresh pipe instance.
    CreatingPipe,
    /// Waiting for a client on the pipe just created.
    AwaitingClient,
    /// A client is connected; its request line is to be read.
    ReadingRequest,
}

/// What the outside world reported after the last action.
pub enum ServerInput {
    /// The pipe was created; `valid` is false when the handle is invalid.
    PipeCreated { valid: bool },
    /// `ConnectNamedPipe` returned `result`; `last_error` is the error code
    /// read right after.
    ClientConnected { result: i32, last_error: u32 },
    /// The request line read from the client (empty when nothing could be
    /// read).
    RequestRead { line: String },
}

/// What the listening loop does next.
#[derive(PartialEq, Eq, Debug)]
pub enum ServerAction {
    /// Sleep this long, then create the pipe again.
    Pause { millis: u64 },
    /// Wait for a client on the pipe.
    AwaitConnection,
    /// Read one request line from the client.
    ReadRequest,
    /// Close the pipe without serving it.
    ClosePipe,
    /// Write `reply` to the client, hand `event` to the window, then
    /// disconnect and close the pipe.
    Answer { reply: String, event: AppEvent },
}

/// Whether `input` is what `phase` waits for.
pub open spec fn input_expected(phase: ServerPhase, input: ServerInput) -> bool {
    match phase {
        ServerPhase::CreatingPipe => input is PipeCreated,
        ServerPhase::AwaitingClient => input is ClientConnected,
        ServerPhase::ReadingRequest => input is RequestRead,
    }
}

/// Whether a connection attempt left a client connected: either the call
/// succeeded, or the client was already there.
pub open spec fn connection_made(result: i32, last_error: u32) -> bool {
    result != 0 || last_error == ERROR_PIPE_CONNECTED
}

/// One step of the listening loop: from the phase and what the last action
/// produced, the next phase and the action to perform.
pub fn server_step(phase: ServerPhase, input: ServerInput) -> (r: (ServerPhase, ServerAction))
    requires
        input_expected(phase, input),
    ensures
        match input {
            ServerInput::PipeCreated { valid } => if valid {
                r == (ServerPhase::AwaitingClient, ServerAction::AwaitConnection)
            } else {
                r == (ServerPhase::CreatingPipe, ServerAction::Pause { millis: RETRY_DELAY_MS })
            },
            ServerInput::ClientConnected { result, last_error } => if connection_made(
                result,
                last_error,
            ) {
                r == (ServerPhase::ReadingRequest, ServerAction::ReadRequest)
            } else {
                r == (ServerPhase::CreatingPipe, ServerAction::ClosePipe)
            },
            ServerInput::RequestRead { line } => {
                &&& r.0 == ServerPhase::CreatingPipe
                &&& r.1 matches ServerAction::Answer { reply, event }
                &&& reply@ == acknowledgement()
                &&& match event {
                    AppEvent::FocusWindow => requested_file(line@) is None,
                    AppEvent::OpenFile(p) => requested_file(line@) == Some(p@),
                }
            },
        },
        input matches ServerInput::PipeCreated { valid } ==> (!valid ==> r.1 == ServerAction::Pause {
            millis: 200,
        }),
        input matches ServerInput::ClientConnected { result, last_error } ==> ((result != 0
            || last_error == 535) <==> r.0 == ServerPhase::ReadingRequest),
        input matches ServerInput::RequestRead { line } ==> (r.1 matches ServerAction::Answer {
            reply,
            event,
        } && reply@ == seq!['O', 'K', '\n']),
        !(input is RequestRead) ==> !(r.1 is Answer),
        r.0 == ServerPhase::CreatingPipe || r.0 != phase,
{
    match input {
        ServerInput::PipeCreated { valid } => {
            if valid {
                (ServerPhase::AwaitingClient, ServerAction::AwaitConnection)
            } else {
                (ServerPhase::CreatingPipe, ServerAction::Pause { millis: RETRY_DELAY_MS })
            }
        },
        ServerInput::ClientConnected { result, last_error } => {
            if result != 0 || last_error == ERROR_PIPE_CONNECTED {
                (ServerPhase::ReadingRequest, ServerAction::ReadRequest)
            } else {
                (ServerPhase::CreatingPipe, ServerAction::ClosePipe)
            }
        },
        ServerInput::RequestRead { line } => {
            let event = decode_request(line.as_str());
            proof {
                reveal_strlit("OK\n");
            }
            let reply = "OK\n".to_owned();
            assert(reply@ =~= acknowledgement());
            (ServerPhase::CreatingPipe, ServerAction::Answer { reply, event })
        },
    }
}

} // verus!
