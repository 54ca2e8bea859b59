//! Browser access: tokens, sessions, the authentication decision, event
//! framing and the pieces of the command endpoint that do not touch the store.
use vstd::prelude::*;
use subtle::ConstantTimeEq;
use rand::Rng;
use vstd::string::StringSliceAdditionalSpecFns;
use base64::Engine;
use crate::text::{has_prefix, chars_of, starts_with, str_eq, string_from_range, append_str, append_string};

verus! {

broadcast use vstd::utf8::encode_utf8_decode_utf8;

// ---------------------------------------------------------------------------
// Tokens
// ---------------------------------------------------------------------------

/// The lower-case hex digit for `n < 16`.
pub open spec fn hex_digit(n: int) -> char {
    if n < 10 {
        (48 + n) as char
    } else {
        (87 + n) as char
    }
}

/// Lower-case hex encoding: two digits per byte, high nibble first.
pub open spec fn hex_lower(bytes: Seq<u8>) -> Seq<char>
    decreases bytes.len(),
{
    if bytes.len() == 0 {
        Seq::empty()
    } else {
        hex_lower(bytes.drop_last()) + seq![
            hex_digit((bytes.last() as int) / 16),
            hex_digit((bytes.last() as int) % 16),
        ]
    }
}

/// A lower-case hex digit.
pub open spec fn is_lower_hex(c: char) -> bool {
    ('0' <= c && c <= '9') || ('a' <= c && c <= 'f')
}

proof fn lemma_hex_lower_shape(bytes: Seq<u8>)
    ensures
        hex_lower(bytes).len() == 2 * bytes.len(),
        forall|i: int| 0 <= i < hex_lower(bytes).len() ==> is_lower_hex(#[trigger] hex_lower(bytes)[i]),
    decreases bytes.len(),
{
    if bytes.len() > 0 {
        lemma_hex_lower_shape(bytes.drop_last());
        let hi = (bytes.last() as int) / 16;
        let lo = (bytes.last() as int) % 16;
        assert(is_lower_hex(hex_digit(hi)));
        assert(is_lower_hex(hex_digit(lo)));
    }
}

/// Thirty-two bytes from the thread-local generator, seeded by the OS
/// (`rand::rng().random()`). Nothing is stated of their values; this panics
/// only if the operating system cannot supply a seed.
#[verifier::external_body]
fn random_token_bytes() -> (res: Vec<u8>)
    ensures
        res@.len() == 32,
{

    let bytes: [u8; 32] = rand::rng().random();
    bytes.to_vec()
}

/// `hex::encode`: each byte as two lower-case hex digits, high nibble first.
#[verifier::external_body]
fn hex_encode(bytes: &[u8]) -> (res: String)
    ensures
        res@ == hex_lower(bytes@),
{
    hex::encode(bytes)
}

/// A fresh random token: 256 bits as 64 lower-case hex digits.
pub fn generate_token() -> (res: String)
    ensures
        res@.len() == 64,
        forall|i: int| 0 <= i < 64 ==> is_lower_hex(#[trigger] res@[i]),
        exists|b: Seq<u8>| b.len() == 32 && res@ == hex_lower(b),
{
    let bytes = random_token_bytes();
    let res = hex_encode(bytes.as_slice());
    proof {
        lemma_hex_lower_shape(bytes@);
    }
    res
}

/// `subtle`'s `ConstantTimeEq` on byte slices: true exactly when both hold
/// the same bytes (it returns false at once when the lengths differ).
#[verifier::external_body]
fn bytes_ct_eq(a: &[u8], b: &[u8]) -> (res: bool)
    ensures
        res == (a@ == b@),
{
    a.ct_eq(b).into()
}

/// Constant-time string comparison, against timing side channels.
pub fn constant_time_eq(a: &str, b: &str) -> (res: bool)
    ensures
        res == (a@ == b@),
{
    let r = bytes_ct_eq(a.as_bytes(), b.as_bytes());
    proof {
        if a.spec_bytes() == b.spec_bytes() {
            assert(vstd::utf8::decode_utf8(vstd::utf8::encode_utf8(a@)) == a@);
            assert(vstd::utf8::decode_utf8(vstd::utf8::encode_utf8(b@)) == b@);
        }
    }
    r
}

// ---------------------------------------------------------------------------
// Sessions
// ---------------------------------------------------------------------------

/// The session ids issued to authenticated browser clients.
pub struct WebSessions {
    ids: Vec<String>,
}

impl View for WebSessions {
    type V = Set<Seq<char>>;

    closed spec fn view(&self) -> Set<Seq<char>> {
        self.ids@.map_values(|s: String| s@).to_set()
    }
}

impl WebSessions {
    #[verifier::type_invariant]
    closed spec fn distinct(self) -> bool {
        forall|i: int, j: int|
            0 <= i < j < self.ids@.len() ==> #[trigger] self.ids@[i]@ != #[trigger] self.ids@[j]@
    }

    /// No sessions.
    pub fn new() -> (res: WebSessions)
        ensures
            res@ == Set::<Seq<char>>::empty(),
    {
        let res = WebSessions { ids: Vec::new() };
        assert(res.ids@.map_values(|s: String| s@) =~= Seq::<Seq<char>>::empty());
        res
    }

    /// Number of sessions.
    pub fn len(&self) -> (res: usize)
        ensures
            res == self@.len(),
    {
        proof {
            use_type_invariant(self);
            let m = self.ids@.map_values(|s: String| s@);
            assert forall|i: int, j: int| 0 <= i < m.len() && 0 <= j < m.len() && i != j implies m[i]
                != m[j] by {
                if i < j {
                    assert(self.ids@[i]@ != self.ids@[j]@);
                } else {
                    assert(self.ids@[j]@ != self.ids@[i]@);
                }
            }
            m.unique_seq_to_set();
        }
        self.ids.len()
    }

    /// Whether `id` is a registered session, compared in constant time.
    pub fn contains(&self, id: &str) -> (res: bool)
        ensures
            res == self@.contains(id@),
    {
        let n = self.ids.len();
        for i in 0..n
            invariant
                n == self.ids@.len(),
                forall|j: int| 0 <= j < i ==> self.ids@[j]@ != id@,
        {
            if constant_time_eq(id, self.ids[i].as_str()) {
                assert(self.ids@.map_values(|s: String| s@)[i as int] == id@);
                return true;
            }
        }
        proof {
            if self@.contains(id@) {
                let m = self.ids@.map_values(|s: String| s@);
                let k = choose|k: int| 0 <= k < m.len() && m[k] == id@;
                assert(self.ids@[k]@ == id@);
            }
        }
        false
    }

    /// Registers `id` (no change when it is already registered).
    pub fn insert(&mut self, id: String)
        ensures
            final(self)@ == old(self)@.insert(id@),
    {
        if self.contains(id.as_str()) {
            assert(self@.insert(id@) =~= self@);
            return;
        }
        proof {
            use_type_invariant(&*self);
        }
        let ghost before = self.ids@;
        let mut ids = Vec::new();
        std::mem::swap(&mut ids, &mut self.ids);
        ids.push(id);
        proof {
            assert forall|i: int, j: int| 0 <= i < j < ids@.len() implies #[trigger] ids@[i]@
                != #[trigger] ids@[j]@ by {
                if j == before.len() {
                    assert(before.map_values(|s: String| s@)[i] == before[i]@);
                }
            }
            let old_view = before.map_values(|s: String| s@);
            assert(ids@.map_values(|s: String| s@) =~= old_view + seq![id@]);
            Seq::lemma_to_set_insert_commutes(old_view, id@);
        }
        self.ids = ids;
    }
}

// ---------------------------------------------------------------------------
// Authentication
// ---------------------------------------------------------------------------

/// `Bearer ` (with the space).
pub open spec fn bearer_prefix() -> Seq<char> {
    seq!['B', 'e', 'a', 'r', 'e', 'r', ' ']
}

/// The token of an `Authorization` header value of the form `Bearer <token>`.
pub open spec fn bearer_token_of(header: Seq<char>) -> Option<Seq<char>> {
    if has_prefix(header, bearer_prefix()) {
        Some(header.subrange(7, header.len() as int))
    } else {
        None
    }
}

/// Whether a request is let through: its `Authorization` header carries the
/// server token as a bearer token, or its session cookie is a registered
/// session.
pub open spec fn request_authorized(
    auth_header: Option<Seq<char>>,
    auth_token: Seq<char>,
    session_cookie: Option<Seq<char>>,
    sessions: Set<Seq<char>>,
) -> bool {
    ||| (auth_header matches Some(h) && bearer_token_of(h) == Some(auth_token))
    ||| (session_cookie matches Some(c) && sessions.contains(c))
}

/// The token of a bearer `Authorization` header value, if it is one.
pub fn bearer_token(header: &str) -> (res: Option<String>)
    ensures
        res matches Some(t) ==> bearer_token_of(header@) == Some(t@),
        res is None ==> bearer_token_of(header@) is None,
{
    let cs = chars_of(header);
    let prefix: Vec<char> = vec!['B', 'e', 'a', 'r', 'e', 'r', ' '];
    assert(prefix@ =~= bearer_prefix());
    if starts_with(cs.as_slice(), prefix.as_slice()) {
        Some(string_from_range(cs.as_slice(), 7, cs.len()))
    } else {
        None
    }
}

/// The decision of the middleware that guards the protected routes.
/// `auth_header` is the `Authorization` header when it is valid text;
/// `session_cookie` the value of the `staged_session` cookie.
pub fn require_auth(
    auth_header: Option<&str>,
    auth_token: &str,
    session_cookie: Option<&str>,
    sessions: &WebSessions,
) -> (res: bool)
    ensures
        res == request_authorized(
            match auth_header {
                Some(h) => Some(h@),
                None => None,
            },
            auth_token@,
            match session_cookie {
                Some(c) => Some(c@),
                None => None,
            },
            sessions@,
        ),
{
    if let Some(h) = auth_header {
        if let Some(token) = bearer_token(h) {
            if constant_time_eq(token.as_str(), auth_token) {
                return true;
            }
        }
    }
    if let Some(c) = session_cookie {
        if sessions.contains(c) {
            return true;
        }
    }
    false
}

/// Handles a token submitted to `/api/auth`. `provided` is the body's
/// `token` field when it is a string. When it matches the server token, a
/// fresh session id is registered and returned (for the session cookie);
/// otherwise nothing changes and the request is refused.
pub fn authenticate(sessions: &mut WebSessions, auth_token: &str, provided: Option<&str>) -> (res:
    Option<String>)
    ensures
        res is Some <==> (match provided {
            Some(p) => p@,
            None => Seq::<char>::empty(),
        }) == auth_token@,
        res matches Some(id) ==> {
            &&& final(sessions)@ == old(sessions)@.insert(id@)
            &&& id@.len() == 64
            &&& forall|i: int| 0 <= i < 64 ==> is_lower_hex(#[trigger] id@[i])
        },
        res is None ==> final(sessions)@ == old(sessions)@,
{
    let ok = match provided {
        Some(p) => constant_time_eq(p, auth_token),
        None => constant_time_eq("", auth_token),
    };
    proof {
        if provided is None {
            assert(""@.len() == 0) by {
                reveal_strlit("");
            }
            assert(""@ =~= Seq::<char>::empty());
        }
    }
    if !ok {
        return None;
    }
    let id = generate_token();
    let reply = id.clone();
    sessions.insert(id);
    Some(reply)
}

/// The law at the centre of browser access: a session issued by
/// `authenticate` lets later requests through on its cookie alone, while the
/// server token always works as a bearer token, and a request that brings
/// neither header nor cookie is refused.
pub proof fn lemma_issued_session_is_accepted(
    before: Set<Seq<char>>,
    after: Set<Seq<char>>,
    id: Seq<char>,
    auth_token: Seq<char>,
)
    requires
        after == before.insert(id),
    ensures
        request_authorized(None, auth_token, Some(id), after),
        request_authorized(Some(bearer_prefix() + auth_token), auth_token, None, after),
        !request_authorized(None, auth_token, None, after),
{
    let h = bearer_prefix() + auth_token;
    assert(h.subrange(0, 7) =~= bearer_prefix());
    assert(h.subrange(7, h.len() as int) =~= auth_token);
}

// ---------------------------------------------------------------------------
// Event stream and command endpoint
// ---------------------------------------------------------------------------

/// A serialized event for WebSocket broadcast.
#[derive(Clone, Debug)]
pub struct WebEvent {
    pub event_name: String,
    pub payload: String,
}

/// What `serde_json` writes for a string: the quoted, escaped JSON literal.
pub uninterp spec fn json_string(s: Seq<char>) -> Seq<char>;

/// `serde_json::to_string` on a string slice, which cannot fail (it writes
/// to memory); the result is named `json_string`.
#[verifier::external_body]
fn json_quote(s: &str) -> (res: String)
    ensures
        res@ == json_string(s@),
{
    serde_json::to_string(s).unwrap()
}

/// `{"event":<name>,"payload":<payload>}`, the frame that browser clients receive.
pub open spec fn event_frame(event_name: Seq<char>, payload_json: Seq<char>) -> Seq<char> {
    seq!['{', '"', 'e', 'v', 'e', 'n', 't', '"', ':'] + json_string(event_name) + seq![
        ',',
        '"',
        'p',
        'a',
        'y',
        'l',
        'o',
        'a',
        'd',
        '"',
        ':',
    ] + payload_json + seq!['}']
}

/// The broadcast record for an event whose payload serializes to `payload_json`.
pub fn web_event(event_name: &str, payload_json: &str) -> (res: WebEvent)
    ensures
        res.event_name@ == event_name@,
        res.payload@ == event_frame(event_name@, payload_json@),
{
    let mut frame = String::new();
    let open: Vec<char> = vec!['{', '"', 'e', 'v', 'e', 'n', 't', '"', ':'];
    let mid: Vec<char> = vec![',', '"', 'p', 'a', 'y', 'l', 'o', 'a', 'd', '"', ':'];
    let close: Vec<char> = vec!['}'];
    let open_s = crate::text::string_from_chars(open.as_slice());
    let mid_s = crate::text::string_from_chars(mid.as_slice());
    let close_s = crate::text::string_from_chars(close.as_slice());
    append_string(&mut frame, &open_s);
    let quoted = json_quote(event_name);
    append_string(&mut frame, &quoted);
    append_string(&mut frame, &mid_s);
    append_str(&mut frame, payload_json);
    append_string(&mut frame, &close_s);
    assert(frame@ =~= event_frame(event_name@, payload_json@));
    WebEvent { event_name: event_name.to_owned(), payload: frame }
}

/// `{"error":<message>}`, the body of a refused command.
pub open spec fn error_body(message: Seq<char>) -> Seq<char> {
    seq!['{', '"', 'e', 'r', 'r', 'o', 'r', '"', ':'] + json_string(message) + seq!['}']
}

/// The body that the command endpoint answers a failed command with (status 400).
pub fn invoke_error_body(message: &str) -> (res: String)
    ensures
        res@ == error_body(message@),
{
    let open: Vec<char> = vec!['{', '"', 'e', 'r', 'r', 'o', 'r', '"', ':'];
    let mut body = crate::text::string_from_chars(open.as_slice());
    let quoted = json_quote(message);
    append_string(&mut body, &quoted);
    let close: Vec<char> = vec!['}'];
    let close_s = crate::text::string_from_chars(close.as_slice());
    append_string(&mut body, &close_s);
    assert(body@ =~= error_body(message@));
    body
}

/// One step of the event socket, as the server sees it.
pub enum WsInput {
    /// A broadcast event arrived, with its serialized frame.
    Event(String),
    /// The client fell behind and this many events were dropped.
    Lagged(u64),
    /// The broadcast channel was closed.
    ChannelClosed,
    /// The client closed the socket, or it ended.
    ClientClosed,
    /// The client sent a ping with this payload.
    ClientPing(Vec<u8>),
    /// The client sent anything else.
    ClientOther,
}

/// What the server does in answer. When a send fails, the loop stops.
pub enum WsAction {
    SendText(String),
    SendPong(Vec<u8>),
    Continue,
    Stop,
}

/// The event socket's decision for one input.
pub fn handle_ws(input: WsInput) -> (res: WsAction)
    ensures
        match input {
            WsInput::Event(frame) => res == WsAction::SendText(frame),
            WsInput::ClientPing(data) => res == WsAction::SendPong(data),
            WsInput::ChannelClosed => res == WsAction::Stop,
            WsInput::ClientClosed => res == WsAction::Stop,
            WsInput::Lagged(_) => res == WsAction::Continue,
            WsInput::ClientOther => res == WsAction::Continue,
        },
{
    match input {
        WsInput::Event(frame) => WsAction::SendText(frame),
        WsInput::Lagged(_) => WsAction::Continue,
        WsInput::ChannelClosed => WsAction::Stop,
        WsInput::ClientClosed => WsAction::Stop,
        WsInput::ClientPing(data) => WsAction::SendPong(data),
        WsInput::ClientOther => WsAction::Continue,
    }
}

/// `missing argument: <key>`
pub open spec fn missing_argument_message(key: Seq<char>) -> Seq<char> {
    seq!['m', 'i', 's', 's', 'i', 'n', 'g', ' ', 'a', 'r', 'g', 'u', 'm', 'e', 'n', 't', ':', ' ']
        + key
}

/// `invalid argument '<key>': <reason>`
pub open spec fn invalid_argument_message(key: Seq<char>, reason: Seq<char>) -> Seq<char> {
    seq!['i', 'n', 'v', 'a', 'l', 'i', 'd', ' ', 'a', 'r', 'g', 'u', 'm', 'e', 'n', 't', ' ', '\'']
        + key + seq!['\'', ':', ' '] + reason
}

fn invalid_argument(key: &str, reason: &String) -> (res: String)
    ensures
        res@ == invalid_argument_message(key@, reason@),
{
    let open: Vec<char> = vec![
        'i',
        'n',
        'v',
        'a',
        'l',
        'i',
        'd',
        ' ',
        'a',
        'r',
        'g',
        'u',
        'm',
        'e',
        'n',
        't',
        ' ',
        '\'',
    ];
    let mut msg = crate::text::string_from_chars(open.as_slice());
    append_str(&mut msg, key);
    let mid: Vec<char> = vec!['\'', ':', ' '];
    let mid_s = crate::text::string_from_chars(mid.as_slice());
    append_string(&mut msg, &mid_s);
    append_string(&mut msg, reason);
    assert(msg@ =~= invalid_argument_message(key@, reason@));
    msg
}

/// A required command argument. `found` is `None` when the request has no
/// field `key`, else the field decoded, or why it could not be.
pub fn arg<T>(key: &str, found: Option<Result<T, String>>) -> (res: Result<T, String>)
    ensures
        match found {
            None => res matches Err(m) && m@ == missing_argument_message(key@),
            Some(Ok(v)) => res == Ok::<T, String>(v),
            Some(Err(e)) => res matches Err(m) && m@ == invalid_argument_message(key@, e@),
        },
{
    match found {
        None => {
            let open: Vec<char> = vec![
                'm',
                'i',
                's',
                's',
                'i',
                'n',
                'g',
                ' ',
                'a',
                'r',
                'g',
                'u',
                'm',
                'e',
                'n',
                't',
                ':',
                ' ',
            ];
            let mut msg = crate::text::string_from_chars(open.as_slice());
            append_str(&mut msg, key);
            assert(msg@ =~= missing_argument_message(key@));
            Err(msg)
        },
        Some(Ok(v)) => Ok(v),
        Some(Err(e)) => Err(invalid_argument(key, &e)),
    }
}

/// How an optional argument was found in the request.
pub enum ArgLookup<T> {
    /// No such field.
    Absent,
    /// The field is JSON `null`.
    Null,
    /// The field decoded, or why it could not be.
    Present(Result<T, String>),
}

/// An optional command argument: absent and `null` both mean `None`.
pub fn opt_arg<T>(key: &str, found: ArgLookup<T>) -> (res: Result<Option<T>, String>)
    ensures
        match found {
            ArgLookup::Absent => res == Ok::<Option<T>, String>(None),
            ArgLookup::Null => res == Ok::<Option<T>, String>(None),
            ArgLookup::Present(Ok(v)) => res == Ok::<Option<T>, String>(Some(v)),
            ArgLookup::Present(Err(e)) => res matches Err(m) && m@ == invalid_argument_message(
                key@,
                e@,
            ),
        },
{
    match found {
        ArgLookup::Absent => Ok(None),
        ArgLookup::Null => Ok(None),
        ArgLookup::Present(Ok(v)) => Ok(Some(v)),
        ArgLookup::Present(Err(e)) => Err(invalid_argument(key, &e)),
    }
}

/// The store held in the shared slot, or the error the command endpoint
/// answers while the database is not open.
pub fn get_store<T>(slot: Option<T>) -> (res: Result<T, String>)
    ensures
        match slot {
            Some(s) => res == Ok::<T, String>(s),
            None => res matches Err(m) && m@ == "Database not initialized"@,
        },
{
    match slot {
        Some(s) => Ok(s),
        None => Err("Database not initialized".to_owned()),
    }
}

// ---------------------------------------------------------------------------
// Images
// ---------------------------------------------------------------------------

/// The standard base64 alphabet (`A-Z`, `a-z`, `0-9`, `+`, `/`).
pub open spec fn base64_char(n: int) -> char {
    if n < 26 {
        (65 + n) as char
    } else if n < 52 {
        (71 + n) as char
    } else if n < 62 {
        (n - 4) as char
    } else if n == 62 {
        '+'
    } else {
        '/'
    }
}

/// Standard base64 with `=` padding: each group of three bytes becomes four
/// characters; a final group of one or two bytes is padded.
pub open spec fn base64_standard(b: Seq<u8>) -> Seq<char>
    decreases b.len(),
{
    if b.len() == 0 {
        Seq::empty()
    } else if b.len() == 1 {
        seq![base64_char((b[0] as int) / 4), base64_char(((b[0] as int) % 4) * 16), '=', '=']
    } else if b.len() == 2 {
        seq![
            base64_char((b[0] as int) / 4),
            base64_char(((b[0] as int) % 4) * 16 + (b[1] as int) / 16),
            base64_char(((b[1] as int) % 16) * 4),
            '=',
        ]
    } else {
        seq![
            base64_char((b[0] as int) / 4),
            base64_char(((b[0] as int) % 4) * 16 + (b[1] as int) / 16),
            base64_char(((b[1] as int) % 16) * 4 + (b[2] as int) / 64),
            base64_char((b[2] as int) % 64),
        ] + base64_standard(b.subrange(3, b.len() as int))
    }
}

/// `base64::engine::general_purpose::STANDARD.encode`: standard alphabet with
/// padding. It panics only when the output length overflows `usize`, which
/// `requires` rules out.
#[verifier::external_body]
fn base64_encode(bytes: &[u8]) -> (res: String)
    requires
        bytes@.len() <= usize::MAX / 2,
    ensures
        res@ == base64_standard(bytes@),
{
    base64::engine::general_purpose::STANDARD.encode(bytes)
}

/// `data:<mime>;base64,` followed by the standard base64 of the bytes.
pub open spec fn data_url(mime_type: Seq<char>, bytes: Seq<u8>) -> Seq<char> {
    seq!['d', 'a', 't', 'a', ':'] + mime_type + seq![';', 'b', 'a', 's', 'e', '6', '4', ',']
        + base64_standard(bytes)
}

/// The data URL under which the browser shows an image's bytes.
pub fn image_data_url(mime_type: &str, bytes: &[u8]) -> (res: String)
    requires
        bytes@.len() <= usize::MAX / 2,
    ensures
        res@ == data_url(mime_type@, bytes@),
{
    let open: Vec<char> = vec!['d', 'a', 't', 'a', ':'];
    let mut url = crate::text::string_from_chars(open.as_slice());
    append_str(&mut url, mime_type);
    let mid: Vec<char> = vec![';', 'b', 'a', 's', 'e', '6', '4', ','];
    let mid_s = crate::text::string_from_chars(mid.as_slice());
    append_string(&mut url, &mid_s);
    let encoded = base64_encode(bytes);
    append_string(&mut url, &encoded);
    assert(url@ =~= data_url(mime_type@, bytes@));
    url
}

// ---------------------------------------------------------------------------
// The command endpoint
// ---------------------------------------------------------------------------

/// The commands that the web endpoint hands to their handlers.
pub open spec fn handled_command(c: Seq<char>) -> bool {
    ||| c == "list_projects"@
    ||| c == "create_project"@
    ||| c == "list_project_repos"@
    ||| c == "list_recent_repos"@
    ||| c == "get_suggested_repos"@
    ||| c == "add_project_repo"@
    ||| c == "update_project_repo_branch_name"@
    ||| c == "clear_project_repo_reason"@
    ||| c == "remove_project_repo"@
    ||| c == "set_primary_project_repo"@
    ||| c == "delete_project"@
    ||| c == "get_all_repo_badges"@
    ||| c == "ensure_repo_badges"@
    ||| c == "update_repo_badge"@
    ||| c == "delete_repo_badge"@
    ||| c == "pin_repo"@
    ||| c == "unpin_repo"@
    ||| c == "reorder_pinned_repos"@
    ||| c == "list_repos_for_home"@
    ||| c == "set_repo_default_branch"@
    ||| c == "detect_default_branch"@
    ||| c == "get_repo_default_branch_timeline"@
    ||| c == "clone_repo_locally"@
    ||| c == "get_repo_clone_path"@
    ||| c == "list_github_orgs"@
    ||| c == "list_github_repos"@
    ||| c == "list_user_repos"@
    ||| c == "get_github_repo"@
    ||| c == "search_github_repos"@
    ||| c == "check_monorepo_modules"@
    ||| c == "validate_subpath"@
    ||| c == "list_repo_directories"@
    ||| c == "list_git_branches"@
    ||| c == "detect_default_branch_cmd"@
    ||| c == "prune_remote_refs"@
    ||| c == "check_existing_local_branch"@
    ||| c == "get_pr_for_repo"@
    ||| c == "get_pr_for_branch"@
    ||| c == "list_pull_requests"@
    ||| c == "get_parent_repo"@
    ||| c == "list_issues"@
    ||| c == "post_comment_to_github"@
    ||| c == "get_branch"@
    ||| c == "list_branches_for_project"@
    ||| c == "create_branch"@
    ||| c == "delete_branch"@
    ||| c == "rename_branch"@
    ||| c == "get_blox_env"@
    ||| c == "get_workspace_info"@
    ||| c == "poll_workspace_status"@
    ||| c == "poll_all_workspace_statuses"@
    ||| c == "setup_worktree"@
    ||| c == "setup_worktree_and_run_prerun"@
    ||| c == "setup_worktree_from_pr"@
    ||| c == "create_remote_branch"@
    ||| c == "start_workspace"@
    ||| c == "resume_workspace"@
    ||| c == "list_project_actions"@
    ||| c == "update_project_action"@
    ||| c == "delete_project_action"@
    ||| c == "list_action_contexts"@
    ||| c == "list_repo_actions"@
    ||| c == "create_repo_action"@
    ||| c == "delete_all_repo_actions"@
    ||| c == "delete_action_context"@
    ||| c == "detect_repo_actions"@
    ||| c == "run_branch_action"@
    ||| c == "stop_branch_action"@
    ||| c == "get_running_branch_actions"@
    ||| c == "get_action_output_buffer"@
    ||| c == "clear_action_execution"@
    ||| c == "run_prerun_actions"@
    ||| c == "get_run_phase"@
    ||| c == "update_run_detection_mode"@
    ||| c == "get_branch_timeline"@
    ||| c == "create_note"@
    ||| c == "delete_note"@
    ||| c == "create_project_note"@
    ||| c == "list_project_notes"@
    ||| c == "get_project_note_by_session"@
    ||| c == "get_branch_note_by_session"@
    ||| c == "delete_project_note"@
    ||| c == "create_image_from_data"@
    ||| c == "get_image_path"@
    ||| c == "get_image_data"@
    ||| c == "delete_image"@
    ||| c == "list_branch_images"@
    ||| c == "delete_review"@
    ||| c == "delete_pending_commit"@
    ||| c == "delete_commit"@
    ||| c == "get_diff_files"@
    ||| c == "get_file_diff"@
    ||| c == "get_file_at_ref"@
    ||| c == "ensure_review"@
    ||| c == "find_review"@
    ||| c == "get_review"@
    ||| c == "mark_reviewed"@
    ||| c == "unmark_reviewed"@
    ||| c == "add_comment"@
    ||| c == "update_comment"@
    ||| c == "link_comment_session"@
    ||| c == "get_branch_commit_by_session"@
    ||| c == "delete_comment"@
    ||| c == "delete_all_comments"@
    ||| c == "restore_comment"@
    ||| c == "get_deleted_comments"@
    ||| c == "add_reference_file"@
    ||| c == "remove_reference_file"@
    ||| c == "discover_acp_providers"@
    ||| c == "get_session"@
    ||| c == "get_session_messages"@
    ||| c == "get_session_messages_since"@
    ||| c == "start_session"@
    ||| c == "resume_session"@
    ||| c == "start_branch_session"@
    ||| c == "start_or_queue_branch_session"@
    ||| c == "start_project_session"@
    ||| c == "queue_branch_session"@
    ||| c == "drain_queued_sessions"@
    ||| c == "cancel_session"@
    ||| c == "delete_session"@
    ||| c == "find_fresh_auto_review"@
    ||| c == "set_review_auto"@
    ||| c == "create_pr"@
    ||| c == "push_branch"@
    ||| c == "rebase_branch"@
    ||| c == "squash_commits"@
    ||| c == "get_pr_url"@
    ||| c == "update_branch_pr"@
    ||| c == "recover_branch_pr"@
    ||| c == "refresh_pr_status"@
    ||| c == "refresh_all_pr_statuses"@
    ||| c == "has_unpushed_commits"@
    ||| c == "clear_branch_pr_status"@
    ||| c == "is_sq_available"@
    ||| c == "read_text_file"@
    ||| c == "resolve_path_aliases"@
    ||| c == "preferences_store_path"@
    ||| c == "check_blox_auth"@
    ||| c == "run_doctor"@
    ||| c == "run_doctor_freshness"@
    ||| c == "run_doctor_fix"@
    ||| c == "run_doctor_update"@
}

fn is_handled_command(command: &str) -> (res: bool)
    ensures
        res == handled_command(command@),
{
    str_eq(command, "list_projects")
        || str_eq(command, "create_project")
        || str_eq(command, "list_project_repos")
        || str_eq(command, "list_recent_repos")
        || str_eq(command, "get_suggested_repos")
        || str_eq(command, "add_project_repo")
        || str_eq(command, "update_project_repo_branch_name")
        || str_eq(command, "clear_project_repo_reason")
        || str_eq(command, "remove_project_repo")
        || str_eq(command, "set_primary_project_repo")
        || str_eq(command, "delete_project")
        || str_eq(command, "get_all_repo_badges")
        || str_eq(command, "ensure_repo_badges")
        || str_eq(command, "update_repo_badge")
        || str_eq(command, "delete_repo_badge")
        || str_eq(command, "pin_repo")
        || str_eq(command, "unpin_repo")
        || str_eq(command, "reorder_pinned_repos")
        || str_eq(command, "list_repos_for_home")
        || str_eq(command, "set_repo_default_branch")
        || str_eq(command, "detect_default_branch")
        || str_eq(command, "get_repo_default_branch_timeline")
        || str_eq(command, "clone_repo_locally")
        || str_eq(command, "get_repo_clone_path")
        || str_eq(command, "list_github_orgs")
        || str_eq(command, "list_github_repos")
        || str_eq(command, "list_user_repos")
        || str_eq(command, "get_github_repo")
        || str_eq(command, "search_github_repos")
        || str_eq(command, "check_monorepo_modules")
        || str_eq(command, "validate_subpath")
        || str_eq(command, "list_repo_directories")
        || str_eq(command, "list_git_branches")
        || str_eq(command, "detect_default_branch_cmd")
        || str_eq(command, "prune_remote_refs")
        || str_eq(command, "check_existing_local_branch")
        || str_eq(command, "get_pr_for_repo")
        || str_eq(command, "get_pr_for_branch")
        || str_eq(command, "list_pull_requests")
        || str_eq(command, "get_parent_repo")
        || str_eq(command, "list_issues")
        || str_eq(command, "post_comment_to_github")
        || str_eq(command, "get_branch")
        || str_eq(command, "list_branches_for_project")
        || str_eq(command, "create_branch")
        || str_eq(command, "delete_branch")
        || str_eq(command, "rename_branch")
        || str_eq(command, "get_blox_env")
        || str_eq(command, "get_workspace_info")
        || str_eq(command, "poll_workspace_status")
        || str_eq(command, "poll_all_workspace_statuses")
        || str_eq(command, "setup_worktree")
        || str_eq(command, "setup_worktree_and_run_prerun")
        || str_eq(command, "setup_worktree_from_pr")
        || str_eq(command, "create_remote_branch")
        || str_eq(command, "start_workspace")
        || str_eq(command, "resume_workspace")
        || str_eq(command, "list_project_actions")
        || str_eq(command, "update_project_action")
        || str_eq(command, "delete_project_action")
        || str_eq(command, "list_action_contexts")
        || str_eq(command, "list_repo_actions")
        || str_eq(command, "create_repo_action")
        || str_eq(command, "delete_all_repo_actions")
        || str_eq(command, "delete_action_context")
        || str_eq(command, "detect_repo_actions")
        || str_eq(command, "run_branch_action")
        || str_eq(command, "stop_branch_action")
        || str_eq(command, "get_running_branch_actions")
        || str_eq(command, "get_action_output_buffer")
        || str_eq(command, "clear_action_execution")
        || str_eq(command, "run_prerun_actions")
        || str_eq(command, "get_run_phase")
        || str_eq(command, "update_run_detection_mode")
        || str_eq(command, "get_branch_timeline")
        || str_eq(command, "create_note")
        || str_eq(command, "delete_note")
        || str_eq(command, "create_project_note")
        || str_eq(command, "list_project_notes")
        || str_eq(command, "get_project_note_by_session")
        || str_eq(command, "get_branch_note_by_session")
        || str_eq(command, "delete_project_note")
        || str_eq(command, "create_image_from_data")
        || str_eq(command, "get_image_path")
        || str_eq(command, "get_image_data")
        || str_eq(command, "delete_image")
        || str_eq(command, "list_branch_images")
        || str_eq(command, "delete_review")
        || str_eq(command, "delete_pending_commit")
        || str_eq(command, "delete_commit")
        || str_eq(command, "get_diff_files")
        || str_eq(command, "get_file_diff")
        || str_eq(command, "get_file_at_ref")
        || str_eq(command, "ensure_review")
        || str_eq(command, "find_review")
        || str_eq(command, "get_review")
        || str_eq(command, "mark_reviewed")
        || str_eq(command, "unmark_reviewed")
        || str_eq(command, "add_comment")
        || str_eq(command, "update_comment")
        || str_eq(command, "link_comment_session")
        || str_eq(command, "get_branch_commit_by_session")
        || str_eq(command, "delete_comment")
        || str_eq(command, "delete_all_comments")
        || str_eq(command, "restore_comment")
        || str_eq(command, "get_deleted_comments")
        || str_eq(command, "add_reference_file")
        || str_eq(command, "remove_reference_file")
        || str_eq(command, "discover_acp_providers")
        || str_eq(command, "get_session")
        || str_eq(command, "get_session_messages")
        || str_eq(command, "get_session_messages_since")
        || str_eq(command, "start_session")
        || str_eq(command, "resume_session")
        || str_eq(command, "start_branch_session")
        || str_eq(command, "start_or_queue_branch_session")
        || str_eq(command, "start_project_session")
        || str_eq(command, "queue_branch_session")
        || str_eq(command, "drain_queued_sessions")
        || str_eq(command, "cancel_session")
        || str_eq(command, "delete_session")
        || str_eq(command, "find_fresh_auto_review")
        || str_eq(command, "set_review_auto")
        || str_eq(command, "create_pr")
        || str_eq(command, "push_branch")
        || str_eq(command, "rebase_branch")
        || str_eq(command, "squash_commits")
        || str_eq(command, "get_pr_url")
        || str_eq(command, "update_branch_pr")
        || str_eq(command, "recover_branch_pr")
        || str_eq(command, "refresh_pr_status")
        || str_eq(command, "refresh_all_pr_statuses")
        || str_eq(command, "has_unpushed_commits")
        || str_eq(command, "clear_branch_pr_status")
        || str_eq(command, "is_sq_available")
        || str_eq(command, "read_text_file")
        || str_eq(command, "resolve_path_aliases")
        || str_eq(command, "preferences_store_path")
        || str_eq(command, "check_blox_auth")
        || str_eq(command, "run_doctor")
        || str_eq(command, "run_doctor_freshness")
        || str_eq(command, "run_doctor_fix")
        || str_eq(command, "run_doctor_update")
}

/// How the web endpoint answers a command, before any argument is read.
pub enum WebRoute {
    /// `get_store_status`: the store counts as ready (JSON `null`).
    StoreReady,
    /// `get_available_openers`: no openers exist in a browser (an empty list).
    NoOpeners,
    /// A command the browser cannot use, refused with this message.
    Refused(String),
    /// A command with a handler.
    Handle,
    /// A name that no command has, refused with this message.
    Unknown(String),
}

/// The message for a command name that no command has.
pub open spec fn unknown_command(command: Seq<char>) -> Seq<char> {
    "Unknown command: "@ + command
}

/// How the endpoint routes `command`.
pub open spec fn web_route(command: Seq<char>) -> WebRouteView {
    if command == "get_store_status"@ {
        WebRouteView::StoreReady
    } else if command == "confirm_reset_store"@ {
        WebRouteView::Refused("confirm_reset_store is not supported in web mode"@)
    } else if command == "get_available_openers"@ {
        WebRouteView::NoOpeners
    } else if command == "open_in_app"@ {
        WebRouteView::Refused("open_in_app is not available in web mode"@)
    } else if command == "create_image"@ {
        WebRouteView::Refused("create_image is not available in web mode"@)
    } else if command == "open_url"@ {
        WebRouteView::Refused("open_url is handled by the browser in web mode"@)
    } else if handled_command(command) {
        WebRouteView::Handle
    } else {
        WebRouteView::Unknown(unknown_command(command))
    }
}

/// A `WebRoute` with its messages as character sequences.
pub enum WebRouteView {
    StoreReady,
    NoOpeners,
    Refused(Seq<char>),
    Handle,
    Unknown(Seq<char>),
}

/// The view of a route.
pub open spec fn route_view(r: WebRoute) -> WebRouteView {
    match r {
        WebRoute::StoreReady => WebRouteView::StoreReady,
        WebRoute::NoOpeners => WebRouteView::NoOpeners,
        WebRoute::Refused(m) => WebRouteView::Refused(m@),
        WebRoute::Handle => WebRouteView::Handle,
        WebRoute::Unknown(m) => WebRouteView::Unknown(m@),
    }
}

/// Routes a command that arrived at `POST /api/invoke/{command}`.
pub fn route_web_command(command: &str) -> (res: WebRoute)
    ensures
        route_view(res) == web_route(command@),
{
    if str_eq(command, "get_store_status") {
        WebRoute::StoreReady
    } else if str_eq(command, "confirm_reset_store") {
        WebRoute::Refused("confirm_reset_store is not supported in web mode".to_owned())
    } else if str_eq(command, "get_available_openers") {
        WebRoute::NoOpeners
    } else if str_eq(command, "open_in_app") {
        WebRoute::Refused("open_in_app is not available in web mode".to_owned())
    } else if str_eq(command, "create_image") {
        WebRoute::Refused("create_image is not available in web mode".to_owned())
    } else if str_eq(command, "open_url") {
        WebRoute::Refused("open_url is handled by the browser in web mode".to_owned())
    } else if is_handled_command(command) {
        WebRoute::Handle
    } else {
        let mut m = "Unknown command: ".to_owned();
        append_str(&mut m, command);
        WebRoute::Unknown(m)
    }
}

// ---------------------------------------------------------------------------
// TLS material
// ---------------------------------------------------------------------------

/// The error for an unset certificate path.
pub open spec fn missing_cert_path() -> Seq<char> {
    "STAGED_WEB_CERT_PATH must point to a PEM certificate file"@
}

/// The error for an unset private key path.
pub open spec fn missing_key_path() -> Seq<char> {
    "STAGED_WEB_KEY_PATH must point to a PEM private key file"@
}

/// The paths of the server's PEM certificate and private key, taken from
/// `STAGED_WEB_CERT_PATH` and `STAGED_WEB_KEY_PATH` (`None`: the variable
/// is unset or not Unicode). The certificate path is checked first.
pub fn tls_paths(cert_path: Option<String>, key_path: Option<String>) -> (res: Result<(String, String), String>)
    ensures
        match (cert_path, key_path) {
            (None, _) => res matches Err(m) && m@ == missing_cert_path(),
            (Some(_), None) => res matches Err(m) && m@ == missing_key_path(),
            (Some(c), Some(k)) => res == Ok::<(String, String), String>((c, k)),
        },
{
    match cert_path {
        None => Err("STAGED_WEB_CERT_PATH must point to a PEM certificate file".to_owned()),
        Some(c) => match key_path {
            None => Err("STAGED_WEB_KEY_PATH must point to a PEM private key file".to_owned()),
            Some(k) => Ok((c, k)),
        },
    }
}

/// The error for a certificate file without certificates.
pub open spec fn no_certificates(cert_path: Seq<char>) -> Seq<char> {
    "TLS certificate "@ + cert_path + " did not contain any certificates"@
}

/// A certificate file must hold at least one certificate; `count` is how
/// many were read from the file at `cert_path`.
pub fn check_certificate_count(cert_path: &str, count: usize) -> (res: Result<(), String>)
    ensures
        count == 0 ==> (res matches Err(m) && m@ == no_certificates(cert_path@)),
        count > 0 ==> res is Ok,
{
    if count == 0 {
        let mut m = "TLS certificate ".to_owned();
        append_str(&mut m, cert_path);
        append_str(&mut m, " did not contain any certificates");
        Err(m)
    } else {
        Ok(())
    }
}

/// A command with a handler that is none of the fixed answers is handed
/// to its handler.
proof fn lemma_routes_to_handle(c: Seq<char>)
    requires
        handled_command(c),
        c != "get_store_status"@,
        c != "confirm_reset_store"@,
        c != "get_available_openers"@,
        c != "open_in_app"@,
        c != "create_image"@,
        c != "open_url"@,
    ensures
        web_route(c) == WebRouteView::Handle,
{
}

/// Every command that the web endpoint's dispatcher has a handler for is
/// handed to it: none of them is refused or answered as unknown.
#[verifier::rlimit(100)]
pub proof fn lemma_dispatcher_commands_are_handled()
    ensures
        web_route("list_projects"@) == WebRouteView::Handle,
        web_route("create_project"@) == WebRouteView::Handle,
        web_route("list_project_repos"@) == WebRouteView::Handle,
        web_route("list_recent_repos"@) == WebRouteView::Handle,
        web_route("get_suggested_repos"@) == WebRouteView::Handle,
        web_route("add_project_repo"@) == WebRouteView::Handle,
        web_route("update_project_repo_branch_name"@) == WebRouteView::Handle,
        web_route("clear_project_repo_reason"@) == WebRouteView::Handle,
        web_route("remove_project_repo"@) == WebRouteView::Handle,
        web_route("set_primary_project_repo"@) == WebRouteView::Handle,
        web_route("delete_project"@) == WebRouteView::Handle,
        web_route("get_all_repo_badges"@) == WebRouteView::Handle,
        web_route("ensure_repo_badges"@) == WebRouteView::Handle,
        web_route("update_repo_badge"@) == WebRouteView::Handle,
        web_route("delete_repo_badge"@) == WebRouteView::Handle,
        web_route("pin_repo"@) == WebRouteView::Handle,
        web_route("unpin_repo"@) == WebRouteView::Handle,
        web_route("reorder_pinned_repos"@) == WebRouteView::Handle,
        web_route("list_repos_for_home"@) == WebRouteView::Handle,
        web_route("set_repo_default_branch"@) == WebRouteView::Handle,
        web_route("detect_default_branch"@) == WebRouteView::Handle,
        web_route("get_repo_default_branch_timeline"@) == WebRouteView::Handle,
        web_route("clone_repo_locally"@) == WebRouteView::Handle,
        web_route("get_repo_clone_path"@) == WebRouteView::Handle,
        web_route("list_github_orgs"@) == WebRouteView::Handle,
        web_route("list_github_repos"@) == WebRouteView::Handle,
        web_route("list_user_repos"@) == WebRouteView::Handle,
        web_route("get_github_repo"@) == WebRouteView::Handle,
        web_route("search_github_repos"@) == WebRouteView::Handle,
        web_route("check_monorepo_modules"@) == WebRouteView::Handle,
        web_route("validate_subpath"@) == WebRouteView::Handle,
        web_route("list_repo_directories"@) == WebRouteView::Handle,
        web_route("list_git_branches"@) == WebRouteView::Handle,
        web_route("detect_default_branch_cmd"@) == WebRouteView::Handle,
        web_route("prune_remote_refs"@) == WebRouteView::Handle,
        web_route("check_existing_local_branch"@) == WebRouteView::Handle,
        web_route("get_pr_for_repo"@) == WebRouteView::Handle,
        web_route("get_pr_for_branch"@) == WebRouteView::Handle,
        web_route("list_pull_requests"@) == WebRouteView::Handle,
        web_route("get_parent_repo"@) == WebRouteView::Handle,
        web_route("list_issues"@) == WebRouteView::Handle,
        web_route("post_comment_to_github"@) == WebRouteView::Handle,
        web_route("get_branch"@) == WebRouteView::Handle,
        web_route("list_branches_for_project"@) == WebRouteView::Handle,
        web_route("create_branch"@) == WebRouteView::Handle,
        web_route("delete_branch"@) == WebRouteView::Handle,
        web_route("rename_branch"@) == WebRouteView::Handle,
        web_route("get_blox_env"@) == WebRouteView::Handle,
        web_route("get_workspace_info"@) == WebRouteView::Handle,
        web_route("poll_workspace_status"@) == WebRouteView::Handle,
        web_route("poll_all_workspace_statuses"@) == WebRouteView::Handle,
        web_route("setup_worktree"@) == WebRouteView::Handle,
        web_route("setup_worktree_and_run_prerun"@) == WebRouteView::Handle,
        web_route("setup_worktree_from_pr"@) == WebRouteView::Handle,
        web_route("create_remote_branch"@) == WebRouteView::Handle,
        web_route("start_workspace"@) == WebRouteView::Handle,
        web_route("resume_workspace"@) == WebRouteView::Handle,
        web_route("list_project_actions"@) == WebRouteView::Handle,
        web_route("update_project_action"@) == WebRouteView::Handle,
        web_route("delete_project_action"@) == WebRouteView::Handle,
        web_route("list_action_contexts"@) == WebRouteView::Handle,
        web_route("list_repo_actions"@) == WebRouteView::Handle,
        web_route("create_repo_action"@) == WebRouteView::Handle,
        web_route("delete_all_repo_actions"@) == WebRouteView::Handle,
        web_route("delete_action_context"@) == WebRouteView::Handle,
        web_route("detect_repo_actions"@) == WebRouteView::Handle,
        web_route("run_branch_action"@) == WebRouteView::Handle,
        web_route("stop_branch_action"@) == WebRouteView::Handle,
        web_route("get_running_branch_actions"@) == WebRouteView::Handle,
        web_route("get_action_output_buffer"@) == WebRouteView::Handle,
        web_route("clear_action_execution"@) == WebRouteView::Handle,
        web_route("run_prerun_actions"@) == WebRouteView::Handle,
        web_route("get_run_phase"@) == WebRouteView::Handle,
        web_route("update_run_detection_mode"@) == WebRouteView::Handle,
        web_route("get_branch_timeline"@) == WebRouteView::Handle,
        web_route("create_note"@) == WebRouteView::Handle,
        web_route("delete_note"@) == WebRouteView::Handle,
        web_route("create_project_note"@) == WebRouteView::Handle,
        web_route("list_project_notes"@) == WebRouteView::Handle,
        web_route("get_project_note_by_session"@) == WebRouteView::Handle,
        web_route("get_branch_note_by_session"@) == WebRouteView::Handle,
        web_route("delete_project_note"@) == WebRouteView::Handle,
        web_route("create_image_from_data"@) == WebRouteView::Handle,
        web_route("get_image_path"@) == WebRouteView::Handle,
        web_route("get_image_data"@) == WebRouteView::Handle,
        web_route("delete_image"@) == WebRouteView::Handle,
        web_route("list_branch_images"@) == WebRouteView::Handle,
        web_route("delete_review"@) == WebRouteView::Handle,
        web_route("delete_pending_commit"@) == WebRouteView::Handle,
        web_route("delete_commit"@) == WebRouteView::Handle,
        web_route("get_diff_files"@) == WebRouteView::Handle,
        web_route("get_file_diff"@) == WebRouteView::Handle,
        web_route("get_file_at_ref"@) == WebRouteView::Handle,
        web_route("ensure_review"@) == WebRouteView::Handle,
        web_route("find_review"@) == WebRouteView::Handle,
        web_route("get_review"@) == WebRouteView::Handle,
        web_route("mark_reviewed"@) == WebRouteView::Handle,
        web_route("unmark_reviewed"@) == WebRouteView::Handle,
        web_route("add_comment"@) == WebRouteView::Handle,
        web_route("update_comment"@) == WebRouteView::Handle,
        web_route("link_comment_session"@) == WebRouteView::Handle,
        web_route("get_branch_commit_by_session"@) == WebRouteView::Handle,
        web_route("delete_comment"@) == WebRouteView::Handle,
        web_route("delete_all_comments"@) == WebRouteView::Handle,
        web_route("restore_comment"@) == WebRouteView::Handle,
        web_route("get_deleted_comments"@) == WebRouteView::Handle,
        web_route("add_reference_file"@) == WebRouteView::Handle,
        web_route("remove_reference_file"@) == WebRouteView::Handle,
        web_route("discover_acp_providers"@) == WebRouteView::Handle,
        web_route("get_session"@) == WebRouteView::Handle,
        web_route("get_session_messages"@) == WebRouteView::Handle,
        web_route("get_session_messages_since"@) == WebRouteView::Handle,
        web_route("start_session"@) == WebRouteView::Handle,
        web_route("resume_session"@) == WebRouteView::Handle,
        web_route("start_branch_session"@) == WebRouteView::Handle,
        web_route("start_or_queue_branch_session"@) == WebRouteView::Handle,
        web_route("start_project_session"@) == WebRouteView::Handle,
        web_route("queue_branch_session"@) == WebRouteView::Handle,
        web_route("drain_queued_sessions"@) == WebRouteView::Handle,
        web_route("cancel_session"@) == WebRouteView::Handle,
        web_route("delete_session"@) == WebRouteView::Handle,
        web_route("find_fresh_auto_review"@) == WebRouteView::Handle,
        web_route("set_review_auto"@) == WebRouteView::Handle,
        web_route("create_pr"@) == WebRouteView::Handle,
        web_route("push_branch"@) == WebRouteView::Handle,
        web_route("rebase_branch"@) == WebRouteView::Handle,
        web_route("squash_commits"@) == WebRouteView::Handle,
        web_route("get_pr_url"@) == WebRouteView::Handle,
        web_route("update_branch_pr"@) == WebRouteView::Handle,
        web_route("recover_branch_pr"@) == WebRouteView::Handle,
        web_route("refresh_pr_status"@) == WebRouteView::Handle,
        web_route("refresh_all_pr_statuses"@) == WebRouteView::Handle,
        web_route("has_unpushed_commits"@) == WebRouteView::Handle,
        web_route("clear_branch_pr_status"@) == WebRouteView::Handle,
        web_route("is_sq_available"@) == WebRouteView::Handle,
        web_route("read_text_file"@) == WebRouteView::Handle,
        web_route("resolve_path_aliases"@) == WebRouteView::Handle,
        web_route("preferences_store_path"@) == WebRouteView::Handle,
        web_route("check_blox_auth"@) == WebRouteView::Handle,
        web_route("run_doctor"@) == WebRouteView::Handle,
        web_route("run_doctor_freshness"@) == WebRouteView::Handle,
        web_route("run_doctor_fix"@) == WebRouteView::Handle,
        web_route("run_doctor_update"@) == WebRouteView::Handle,
{
    reveal_strlit("get_store_status");
    assert("get_store_status"@.len() == 16);
    reveal_strlit("confirm_reset_store");
    assert("confirm_reset_store"@.len() == 19);
    reveal_strlit("get_available_openers");
    assert("get_available_openers"@.len() == 21);
    reveal_strlit("open_in_app");
    assert("open_in_app"@.len() == 11);
    reveal_strlit("create_image");
    assert("create_image"@.len() == 12);
    reveal_strlit("open_url");
    assert("open_url"@.len() == 8);
    reveal_strlit("list_projects");
    assert("list_projects"@.len() == 13);
    lemma_routes_to_handle("list_projects"@);
    reveal_strlit("create_project");
    assert("create_project"@.len() == 14);
    lemma_routes_to_handle("create_project"@);
    reveal_strlit("list_project_repos");
    assert("list_project_repos"@.len() == 18);
    lemma_routes_to_handle("list_project_repos"@);
    reveal_strlit("list_recent_repos");
    assert("list_recent_repos"@.len() == 17);
    lemma_routes_to_handle("list_recent_repos"@);
    reveal_strlit("get_suggested_repos");
    assert("get_suggested_repos"@.len() == 19);
    assert("get_suggested_repos"@[0] != "confirm_reset_store"@[0]);
    lemma_routes_to_handle("get_suggested_repos"@);
    reveal_strlit("add_project_repo");
    assert("add_project_repo"@.len() == 16);
    assert("add_project_repo"@[0] != "get_store_status"@[0]);
    lemma_routes_to_handle("add_project_repo"@);
    reveal_strlit("update_project_repo_branch_name");
    assert("update_project_repo_branch_name"@.len() == 31);
    lemma_routes_to_handle("update_project_repo_branch_name"@);
    reveal_strlit("clear_project_repo_reason");
    assert("clear_project_repo_reason"@.len() == 25);
    lemma_routes_to_handle("clear_project_repo_reason"@);
    reveal_strlit("remove_project_repo");
    assert("remove_project_repo"@.len() == 19);
    assert("remove_project_repo"@[0] != "confirm_reset_store"@[0]);
    lemma_routes_to_handle("remove_project_repo"@);
    reveal_strlit("set_primary_project_repo");
    assert("set_primary_project_repo"@.len() == 24);
    lemma_routes_to_handle("set_primary_project_repo"@);
    reveal_strlit("delete_project");
    assert("delete_project"@.len() == 14);
    lemma_routes_to_handle("delete_project"@);
    reveal_strlit("get_all_repo_badges");
    assert("get_all_repo_badges"@.len() == 19);
    assert("get_all_repo_badges"@[0] != "confirm_reset_store"@[0]);
    lemma_routes_to_handle("get_all_repo_badges"@);
    reveal_strlit("ensure_repo_badges");
    assert("ensure_repo_badges"@.len() == 18);
    lemma_routes_to_handle("ensure_repo_badges"@);
    reveal_strlit("update_repo_badge");
    assert("update_repo_badge"@.len() == 17);
    lemma_routes_to_handle("update_repo_badge"@);
    reveal_strlit("delete_repo_badge");
    assert("delete_repo_badge"@.len() == 17);
    lemma_routes_to_handle("delete_repo_badge"@);
    reveal_strlit("pin_repo");
    assert("pin_repo"@.len() == 8);
    assert("pin_repo"@[0] != "open_url"@[0]);
    lemma_routes_to_handle("pin_repo"@);
    reveal_strlit("unpin_repo");
    assert("unpin_repo"@.len() == 10);
    lemma_routes_to_handle("unpin_repo"@);
    reveal_strlit("reorder_pinned_repos");
    assert("reorder_pinned_repos"@.len() == 20);
    lemma_routes_to_handle("reorder_pinned_repos"@);
    reveal_strlit("list_repos_for_home");
    assert("list_repos_for_home"@.len() == 19);
    assert("list_repos_for_home"@[0] != "confirm_reset_store"@[0]);
    lemma_routes_to_handle("list_repos_for_home"@);
    reveal_strlit("set_repo_default_branch");
    assert("set_repo_default_branch"@.len() == 23);
    lemma_routes_to_handle("set_repo_default_branch"@);
    reveal_strlit("detect_default_branch");
    assert("detect_default_branch"@.len() == 21);
    assert("detect_default_branch"@[0] != "get_available_openers"@[0]);
    lemma_routes_to_handle("detect_default_branch"@);
    reveal_strlit("get_repo_default_branch_timeline");
    assert("get_repo_default_branch_timeline"@.len() == 32);
    lemma_routes_to_handle("get_repo_default_branch_timeline"@);
    reveal_strlit("clone_repo_locally");
    assert("clone_repo_locally"@.len() == 18);
    lemma_routes_to_handle("clone_repo_locally"@);
    reveal_strlit("get_repo_clone_path");
    assert("get_repo_clone_path"@.len() == 19);
    assert("get_repo_clone_path"@[0] != "confirm_reset_store"@[0]);
    lemma_routes_to_handle("get_repo_clone_path"@);
    reveal_strlit("list_github_orgs");
    assert("list_github_orgs"@.len() == 16);
    assert("list_github_orgs"@[0] != "get_store_status"@[0]);
    lemma_routes_to_handle("list_github_orgs"@);
    reveal_strlit("list_github_repos");
    assert("list_github_repos"@.len() == 17);
    lemma_routes_to_handle("list_github_repos"@);
    reveal_strlit("list_user_repos");
    assert("list_user_repos"@.len() == 15);
    lemma_routes_to_handle("list_user_repos"@);
    reveal_strlit("get_github_repo");
    assert("get_github_repo"@.len() == 15);
    lemma_routes_to_handle("get_github_repo"@);
    reveal_strlit("search_github_repos");
    assert("search_github_repos"@.len() == 19);
    assert("search_github_repos"@[0] != "confirm_reset_store"@[0]);
    lemma_routes_to_handle("search_github_repos"@);
    reveal_strlit("check_monorepo_modules");
    assert("check_monorepo_modules"@.len() == 22);
    lemma_routes_to_handle("check_monorepo_modules"@);
    reveal_strlit("validate_subpath");
    assert("validate_subpath"@.len() == 16);
    assert("validate_subpath"@[0] != "get_store_status"@[0]);
    lemma_routes_to_handle("validate_subpath"@);
    reveal_strlit("list_repo_directories");
    assert("list_repo_directories"@.len() == 21);
    assert("list_repo_directories"@[0] != "get_available_openers"@[0]);
    lemma_routes_to_handle("list_repo_directories"@);
    reveal_strlit("list_git_branches");
    assert("list_git_branches"@.len() == 17);
    lemma_routes_to_handle("list_git_branches"@);
    reveal_strlit("detect_default_branch_cmd");
    assert("detect_default_branch_cmd"@.len() == 25);
    lemma_routes_to_handle("detect_default_branch_cmd"@);
    reveal_strlit("prune_remote_refs");
    assert("prune_remote_refs"@.len() == 17);
    lemma_routes_to_handle("prune_remote_refs"@);
    reveal_strlit("check_existing_local_branch");
    assert("check_existing_local_branch"@.len() == 27);
    lemma_routes_to_handle("check_existing_local_branch"@);
    reveal_strlit("get_pr_for_repo");
    assert("get_pr_for_repo"@.len() == 15);
    lemma_routes_to_handle("get_pr_for_repo"@);
    reveal_strlit("get_pr_for_branch");
    assert("get_pr_for_branch"@.len() == 17);
    lemma_routes_to_handle("get_pr_for_branch"@);
    reveal_strlit("list_pull_requests");
    assert("list_pull_requests"@.len() == 18);
    lemma_routes_to_handle("list_pull_requests"@);
    reveal_strlit("get_parent_repo");
    assert("get_parent_repo"@.len() == 15);
    lemma_routes_to_handle("get_parent_repo"@);
    reveal_strlit("list_issues");
    assert("list_issues"@.len() == 11);
    assert("list_issues"@[0] != "open_in_app"@[0]);
    lemma_routes_to_handle("list_issues"@);
    reveal_strlit("post_comment_to_github");
    assert("post_comment_to_github"@.len() == 22);
    lemma_routes_to_handle("post_comment_to_github"@);
    reveal_strlit("get_branch");
    assert("get_branch"@.len() == 10);
    lemma_routes_to_handle("get_branch"@);
    reveal_strlit("list_branches_for_project");
    assert("list_branches_for_project"@.len() == 25);
    lemma_routes_to_handle("list_branches_for_project"@);
    reveal_strlit("create_branch");
    assert("create_branch"@.len() == 13);
    lemma_routes_to_handle("create_branch"@);
    reveal_strlit("delete_branch");
    assert("delete_branch"@.len() == 13);
    lemma_routes_to_handle("delete_branch"@);
    reveal_strlit("rename_branch");
    assert("rename_branch"@.len() == 13);
    lemma_routes_to_handle("rename_branch"@);
    reveal_strlit("get_blox_env");
    assert("get_blox_env"@.len() == 12);
    assert("get_blox_env"@[0] != "create_image"@[0]);
    lemma_routes_to_handle("get_blox_env"@);
    reveal_strlit("get_workspace_info");
    assert("get_workspace_info"@.len() == 18);
    lemma_routes_to_handle("get_workspace_info"@);
    reveal_strlit("poll_workspace_status");
    assert("poll_workspace_status"@.len() == 21);
    assert("poll_workspace_status"@[0] != "get_available_openers"@[0]);
    lemma_routes_to_handle("poll_workspace_status"@);
    reveal_strlit("poll_all_workspace_statuses");
    assert("poll_all_workspace_statuses"@.len() == 27);
    lemma_routes_to_handle("poll_all_workspace_statuses"@);
    reveal_strlit("setup_worktree");
    assert("setup_worktree"@.len() == 14);
    lemma_routes_to_handle("setup_worktree"@);
    reveal_strlit("setup_worktree_and_run_prerun");
    assert("setup_worktree_and_run_prerun"@.len() == 29);
    lemma_routes_to_handle("setup_worktree_and_run_prerun"@);
    reveal_strlit("setup_worktree_from_pr");
    assert("setup_worktree_from_pr"@.len() == 22);
    lemma_routes_to_handle("setup_worktree_from_pr"@);
    reveal_strlit("create_remote_branch");
    assert("create_remote_branch"@.len() == 20);
    lemma_routes_to_handle("create_remote_branch"@);
    reveal_strlit("start_workspace");
    assert("start_workspace"@.len() == 15);
    lemma_routes_to_handle("start_workspace"@);
    reveal_strlit("resume_workspace");
    assert("resume_workspace"@.len() == 16);
    assert("resume_workspace"@[0] != "get_store_status"@[0]);
    lemma_routes_to_handle("resume_workspace"@);
    reveal_strlit("list_project_actions");
    assert("list_project_actions"@.len() == 20);
    lemma_routes_to_handle("list_project_actions"@);
    reveal_strlit("update_project_action");
    assert("update_project_action"@.len() == 21);
    assert("update_project_action"@[0] != "get_available_openers"@[0]);
    lemma_routes_to_handle("update_project_action"@);
    reveal_strlit("delete_project_action");
    assert("delete_project_action"@.len() == 21);
    assert("delete_project_action"@[0] != "get_available_openers"@[0]);
    lemma_routes_to_handle("delete_project_action"@);
    reveal_strlit("list_action_contexts");
    assert("list_action_contexts"@.len() == 20);
    lemma_routes_to_handle("list_action_contexts"@);
    reveal_strlit("list_repo_actions");
    assert("list_repo_actions"@.len() == 17);
    lemma_routes_to_handle("list_repo_actions"@);
    reveal_strlit("create_repo_action");
    assert("create_repo_action"@.len() == 18);
    lemma_routes_to_handle("create_repo_action"@);
    reveal_strlit("delete_all_repo_actions");
    assert("delete_all_repo_actions"@.len() == 23);
    lemma_routes_to_handle("delete_all_repo_actions"@);
    reveal_strlit("delete_action_context");
    assert("delete_action_context"@.len() == 21);
    assert("delete_action_context"@[0] != "get_available_openers"@[0]);
    lemma_routes_to_handle("delete_action_context"@);
    reveal_strlit("detect_repo_actions");
    assert("detect_repo_actions"@.len() == 19);
    assert("detect_repo_actions"@[0] != "confirm_reset_store"@[0]);
    lemma_routes_to_handle("detect_repo_actions"@);
    reveal_strlit("run_branch_action");
    assert("run_branch_action"@.len() == 17);
    lemma_routes_to_handle("run_branch_action"@);
    reveal_strlit("stop_branch_action");
    assert("stop_branch_action"@.len() == 18);
    lemma_routes_to_handle("stop_branch_action"@);
    reveal_strlit("get_running_branch_actions");
    assert("get_running_branch_actions"@.len() == 26);
    lemma_routes_to_handle("get_running_branch_actions"@);
    reveal_strlit("get_action_output_buffer");
    assert("get_action_output_buffer"@.len() == 24);
    lemma_routes_to_handle("get_action_output_buffer"@);
    reveal_strlit("clear_action_execution");
    assert("clear_action_execution"@.len() == 22);
    lemma_routes_to_handle("clear_action_execution"@);
    reveal_strlit("run_prerun_actions");
    assert("run_prerun_actions"@.len() == 18);
    lemma_routes_to_handle("run_prerun_actions"@);
    reveal_strlit("get_run_phase");
    assert("get_run_phase"@.len() == 13);
    lemma_routes_to_handle("get_run_phase"@);
    reveal_strlit("update_run_detection_mode");
    assert("update_run_detection_mode"@.len() == 25);
    lemma_routes_to_handle("update_run_detection_mode"@);
    reveal_strlit("get_branch_timeline");
    assert("get_branch_timeline"@.len() == 19);
    assert("get_branch_timeline"@[0] != "confirm_reset_store"@[0]);
    lemma_routes_to_handle("get_branch_timeline"@);
    reveal_strlit("create_note");
    assert("create_note"@.len() == 11);
    assert("create_note"@[0] != "open_in_app"@[0]);
    lemma_routes_to_handle("create_note"@);
    reveal_strlit("delete_note");
    assert("delete_note"@.len() == 11);
    assert("delete_note"@[0] != "open_in_app"@[0]);
    lemma_routes_to_handle("delete_note"@);
    reveal_strlit("create_project_note");
    assert("create_project_note"@.len() == 19);
    assert("create_project_note"@[1] != "confirm_reset_store"@[1]);
    lemma_routes_to_handle("create_project_note"@);
    reveal_strlit("list_project_notes");
    assert("list_project_notes"@.len() == 18);
    lemma_routes_to_handle("list_project_notes"@);
    reveal_strlit("get_project_note_by_session");
    assert("get_project_note_by_session"@.len() == 27);
    lemma_routes_to_handle("get_project_note_by_session"@);
    reveal_strlit("get_branch_note_by_session");
    assert("get_branch_note_by_session"@.len() == 26);
    lemma_routes_to_handle("get_branch_note_by_session"@);
    reveal_strlit("delete_project_note");
    assert("delete_project_note"@.len() == 19);
    assert("delete_project_note"@[0] != "confirm_reset_store"@[0]);
    lemma_routes_to_handle("delete_project_note"@);
    reveal_strlit("create_image_from_data");
    assert("create_image_from_data"@.len() == 22);
    lemma_routes_to_handle("create_image_from_data"@);
    reveal_strlit("get_image_path");
    assert("get_image_path"@.len() == 14);
    lemma_routes_to_handle("get_image_path"@);
    reveal_strlit("get_image_data");
    assert("get_image_data"@.len() == 14);
    lemma_routes_to_handle("get_image_data"@);
    reveal_strlit("delete_image");
    assert("delete_image"@.len() == 12);
    assert("delete_image"@[0] != "create_image"@[0]);
    lemma_routes_to_handle("delete_image"@);
    reveal_strlit("list_branch_images");
    assert("list_branch_images"@.len() == 18);
    lemma_routes_to_handle("list_branch_images"@);
    reveal_strlit("delete_review");
    assert("delete_review"@.len() == 13);
    lemma_routes_to_handle("delete_review"@);
    reveal_strlit("delete_pending_commit");
    assert("delete_pending_commit"@.len() == 21);
    assert("delete_pending_commit"@[0] != "get_available_openers"@[0]);
    lemma_routes_to_handle("delete_pending_commit"@);
    reveal_strlit("delete_commit");
    assert("delete_commit"@.len() == 13);
    lemma_routes_to_handle("delete_commit"@);
    reveal_strlit("get_diff_files");
    assert("get_diff_files"@.len() == 14);
    lemma_routes_to_handle("get_diff_files"@);
    reveal_strlit("get_file_diff");
    assert("get_file_diff"@.len() == 13);
    lemma_routes_to_handle("get_file_diff"@);
    reveal_strlit("get_file_at_ref");
    assert("get_file_at_ref"@.len() == 15);
    lemma_routes_to_handle("get_file_at_ref"@);
    reveal_strlit("ensure_review");
    assert("ensure_review"@.len() == 13);
    lemma_routes_to_handle("ensure_review"@);
    reveal_strlit("find_review");
    assert("find_review"@.len() == 11);
    assert("find_review"@[0] != "open_in_app"@[0]);
    lemma_routes_to_handle("find_review"@);
    reveal_strlit("get_review");
    assert("get_review"@.len() == 10);
    lemma_routes_to_handle("get_review"@);
    reveal_strlit("mark_reviewed");
    assert("mark_reviewed"@.len() == 13);
    lemma_routes_to_handle("mark_reviewed"@);
    reveal_strlit("unmark_reviewed");
    assert("unmark_reviewed"@.len() == 15);
    lemma_routes_to_handle("unmark_reviewed"@);
    reveal_strlit("add_comment");
    assert("add_comment"@.len() == 11);
    assert("add_comment"@[0] != "open_in_app"@[0]);
    lemma_routes_to_handle("add_comment"@);
    reveal_strlit("update_comment");
    assert("update_comment"@.len() == 14);
    lemma_routes_to_handle("update_comment"@);
    reveal_strlit("link_comment_session");
    assert("link_comment_session"@.len() == 20);
    lemma_routes_to_handle("link_comment_session"@);
    reveal_strlit("get_branch_commit_by_session");
    assert("get_branch_commit_by_session"@.len() == 28);
    lemma_routes_to_handle("get_branch_commit_by_session"@);
    reveal_strlit("delete_comment");
    assert("delete_comment"@.len() == 14);
    lemma_routes_to_handle("delete_comment"@);
    reveal_strlit("delete_all_comments");
    assert("delete_all_comments"@.len() == 19);
    assert("delete_all_comments"@[0] != "confirm_reset_store"@[0]);
    lemma_routes_to_handle("delete_all_comments"@);
    reveal_strlit("restore_comment");
    assert("restore_comment"@.len() == 15);
    lemma_routes_to_handle("restore_comment"@);
    reveal_strlit("get_deleted_comments");
    assert("get_deleted_comments"@.len() == 20);
    lemma_routes_to_handle("get_deleted_comments"@);
    reveal_strlit("add_reference_file");
    assert("add_reference_file"@.len() == 18);
    lemma_routes_to_handle("add_reference_file"@);
    reveal_strlit("remove_reference_file");
    assert("remove_reference_file"@.len() == 21);
    assert("remove_reference_file"@[0] != "get_available_openers"@[0]);
    lemma_routes_to_handle("remove_reference_file"@);
    reveal_strlit("discover_acp_providers");
    assert("discover_acp_providers"@.len() == 22);
    lemma_routes_to_handle("discover_acp_providers"@);
    reveal_strlit("get_session");
    assert("get_session"@.len() == 11);
    assert("get_session"@[0] != "open_in_app"@[0]);
    lemma_routes_to_handle("get_session"@);
    reveal_strlit("get_session_messages");
    assert("get_session_messages"@.len() == 20);
    lemma_routes_to_handle("get_session_messages"@);
    reveal_strlit("get_session_messages_since");
    assert("get_session_messages_since"@.len() == 26);
    lemma_routes_to_handle("get_session_messages_since"@);
    reveal_strlit("start_session");
    assert("start_session"@.len() == 13);
    lemma_routes_to_handle("start_session"@);
    reveal_strlit("resume_session");
    assert("resume_session"@.len() == 14);
    lemma_routes_to_handle("resume_session"@);
    reveal_strlit("start_branch_session");
    assert("start_branch_session"@.len() == 20);
    lemma_routes_to_handle("start_branch_session"@);
    reveal_strlit("start_or_queue_branch_session");
    assert("start_or_queue_branch_session"@.len() == 29);
    lemma_routes_to_handle("start_or_queue_branch_session"@);
    reveal_strlit("start_project_session");
    assert("start_project_session"@.len() == 21);
    assert("start_project_session"@[0] != "get_available_openers"@[0]);
    lemma_routes_to_handle("start_project_session"@);
    reveal_strlit("queue_branch_session");
    assert("queue_branch_session"@.len() == 20);
    lemma_routes_to_handle("queue_branch_session"@);
    reveal_strlit("drain_queued_sessions");
    assert("drain_queued_sessions"@.len() == 21);
    assert("drain_queued_sessions"@[0] != "get_available_openers"@[0]);
    lemma_routes_to_handle("drain_queued_sessions"@);
    reveal_strlit("cancel_session");
    assert("cancel_session"@.len() == 14);
    lemma_routes_to_handle("cancel_session"@);
    reveal_strlit("delete_session");
    assert("delete_session"@.len() == 14);
    lemma_routes_to_handle("delete_session"@);
    reveal_strlit("find_fresh_auto_review");
    assert("find_fresh_auto_review"@.len() == 22);
    lemma_routes_to_handle("find_fresh_auto_review"@);
    reveal_strlit("set_review_auto");
    assert("set_review_auto"@.len() == 15);
    lemma_routes_to_handle("set_review_auto"@);
    reveal_strlit("create_pr");
    assert("create_pr"@.len() == 9);
    lemma_routes_to_handle("create_pr"@);
    reveal_strlit("push_branch");
    assert("push_branch"@.len() == 11);
    assert("push_branch"@[0] != "open_in_app"@[0]);
    lemma_routes_to_handle("push_branch"@);
    reveal_strlit("rebase_branch");
    assert("rebase_branch"@.len() == 13);
    lemma_routes_to_handle("rebase_branch"@);
    reveal_strlit("squash_commits");
    assert("squash_commits"@.len() == 14);
    lemma_routes_to_handle("squash_commits"@);
    reveal_strlit("get_pr_url");
    assert("get_pr_url"@.len() == 10);
    lemma_routes_to_handle("get_pr_url"@);
    reveal_strlit("update_branch_pr");
    assert("update_branch_pr"@.len() == 16);
    assert("update_branch_pr"@[0] != "get_store_status"@[0]);
    lemma_routes_to_handle("update_branch_pr"@);
    reveal_strlit("recover_branch_pr");
    assert("recover_branch_pr"@.len() == 17);
    lemma_routes_to_handle("recover_branch_pr"@);
    reveal_strlit("refresh_pr_status");
    assert("refresh_pr_status"@.len() == 17);
    lemma_routes_to_handle("refresh_pr_status"@);
    reveal_strlit("refresh_all_pr_statuses");
    assert("refresh_all_pr_statuses"@.len() == 23);
    lemma_routes_to_handle("refresh_all_pr_statuses"@);
    reveal_strlit("has_unpushed_commits");
    assert("has_unpushed_commits"@.len() == 20);
    lemma_routes_to_handle("has_unpushed_commits"@);
    reveal_strlit("clear_branch_pr_status");
    assert("clear_branch_pr_status"@.len() == 22);
    lemma_routes_to_handle("clear_branch_pr_status"@);
    reveal_strlit("is_sq_available");
    assert("is_sq_available"@.len() == 15);
    lemma_routes_to_handle("is_sq_available"@);
    reveal_strlit("read_text_file");
    assert("read_text_file"@.len() == 14);
    lemma_routes_to_handle("read_text_file"@);
    reveal_strlit("resolve_path_aliases");
    assert("resolve_path_aliases"@.len() == 20);
    lemma_routes_to_handle("resolve_path_aliases"@);
    reveal_strlit("preferences_store_path");
    assert("preferences_store_path"@.len() == 22);
    lemma_routes_to_handle("preferences_store_path"@);
    reveal_strlit("check_blox_auth");
    assert("check_blox_auth"@.len() == 15);
    lemma_routes_to_handle("check_blox_auth"@);
    reveal_strlit("run_doctor");
    assert("run_doctor"@.len() == 10);
    lemma_routes_to_handle("run_doctor"@);
    reveal_strlit("run_doctor_freshness");
    assert("run_doctor_freshness"@.len() == 20);
    lemma_routes_to_handle("run_doctor_freshness"@);
    reveal_strlit("run_doctor_fix");
    assert("run_doctor_fix"@.len() == 14);
    lemma_routes_to_handle("run_doctor_fix"@);
    reveal_strlit("run_doctor_update");
    assert("run_doctor_update"@.len() == 17);
    lemma_routes_to_handle("run_doctor_update"@);
}

/// The commands that the browser cannot use get their fixed answers: the
/// store counts as ready, no openers exist, and the desktop-only commands
/// are refused with their messages.
pub proof fn lemma_fixed_web_answers()
    ensures
        web_route("get_store_status"@) == WebRouteView::StoreReady,
        web_route("get_available_openers"@) == WebRouteView::NoOpeners,
        web_route("confirm_reset_store"@) == WebRouteView::Refused("confirm_reset_store is not supported in web mode"@),
        web_route("open_in_app"@) == WebRouteView::Refused("open_in_app is not available in web mode"@),
        web_route("create_image"@) == WebRouteView::Refused("create_image is not available in web mode"@),
        web_route("open_url"@) == WebRouteView::Refused("open_url is handled by the browser in web mode"@),
{
    reveal_strlit("get_store_status");
    reveal_strlit("confirm_reset_store");
    reveal_strlit("get_available_openers");
    reveal_strlit("open_in_app");
    reveal_strlit("create_image");
    reveal_strlit("open_url");
    assert("get_store_status"@.len() == 16);
    assert("confirm_reset_store"@.len() == 19);
    assert("get_available_openers"@.len() == 21);
    assert("open_in_app"@.len() == 11);
    assert("create_image"@.len() == 12);
    assert("open_url"@.len() == 8);
    assert("confirm_reset_store"@ != "get_store_status"@) by {
        assert("confirm_reset_store"@[0] != "get_store_status"@[0]);
    }
    assert("get_available_openers"@ != "get_store_status"@) by {
        assert("get_available_openers"@[4] != "get_store_status"@[4]);
    }
    assert("get_available_openers"@ != "confirm_reset_store"@) by {
        assert("get_available_openers"@[0] != "confirm_reset_store"@[0]);
    }
    assert("open_in_app"@ != "get_store_status"@) by {
        assert("open_in_app"@[0] != "get_store_status"@[0]);
    }
    assert("open_in_app"@ != "confirm_reset_store"@) by {
        assert("open_in_app"@[0] != "confirm_reset_store"@[0]);
    }
    assert("open_in_app"@ != "get_available_openers"@) by {
        assert("open_in_app"@[0] != "get_available_openers"@[0]);
    }
}

} // verus!
