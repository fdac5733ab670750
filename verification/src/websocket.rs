//! The gateway's side of a websocket upgrade with a Kubernetes API server.
use vstd::prelude::*;

use crate::http_fields::{
    fields, header_get, header_get_all, opt_view, text_of, value_bytes, value_text, values_of,
};
use crate::text::{
    eq_ignore_case, join, join_texts, list_has, lower, same_text, split_on, split_text, texts, trim,
    trimmed,
};

verus! {

/// The key that a server derives from a client's key to accept an upgrade.
pub uninterp spec fn accept_key(key: Seq<u8>) -> Seq<char>;

/// `tungstenite::handshake::derive_accept_key`: the accept key for the bytes of
/// a client's key, which depends on those bytes alone.
#[verifier::external_body]
fn derive_accept_key(key: &[u8]) -> (accept: String)
    ensures
        accept@ == accept_key(key@),
{
    tokio_tungstenite::tungstenite::handshake::derive_accept_key(key)
}

/// Why a server's answer to an upgrade is not acceptable.
#[derive(Debug)]
pub enum HandshakeFault<T> {
    /// A header is missing, or is not text.
    Missing(HandshakeHeader),
    UnexpectedConnection(T),
    UnexpectedUpgrade(T),
    RepeatedAccept,
    UnexpectedAccept(T),
    /// The text of an extensions header, if it is text.
    UnexpectedExtensions(Option<T>),
    RepeatedProtocol,
    InvalidProtocol,
    SeveralProtocols(T),
    UnofferedProtocol(T),
}

/// The headers that an upgrade cannot do without.
#[derive(Clone, Copy, Debug, PartialEq, Eq, Structural)]
pub enum HandshakeHeader {
    Connection,
    Upgrade,
    Accept,
}

/// Why a server's answer to an upgrade is not acceptable, with the header
/// texts at fault.
pub type HandshakeError = HandshakeFault<String>;

/// The fault that an error reports.
pub open spec fn fault_view(error: HandshakeError) -> HandshakeFault<Seq<char>> {
    match error {
        HandshakeFault::Missing(h) => HandshakeFault::Missing(h),
        HandshakeFault::UnexpectedConnection(t) => HandshakeFault::UnexpectedConnection(t@),
        HandshakeFault::UnexpectedUpgrade(t) => HandshakeFault::UnexpectedUpgrade(t@),
        HandshakeFault::RepeatedAccept => HandshakeFault::RepeatedAccept,
        HandshakeFault::UnexpectedAccept(t) => HandshakeFault::UnexpectedAccept(t@),
        HandshakeFault::UnexpectedExtensions(t) => HandshakeFault::UnexpectedExtensions(
            opt_view(t),
        ),
        HandshakeFault::RepeatedProtocol => HandshakeFault::RepeatedProtocol,
        HandshakeFault::InvalidProtocol => HandshakeFault::InvalidProtocol,
        HandshakeFault::SeveralProtocols(t) => HandshakeFault::SeveralProtocols(t@),
        HandshakeFault::UnofferedProtocol(t) => HandshakeFault::UnofferedProtocol(t@),
    }
}

/// What a check of a server's answer came to: the subprotocol it selected, if
/// any, or a fault.
pub open spec fn verdict_view(result: Result<Option<String>, HandshakeError>) -> Result<
    Option<Seq<char>>,
    HandshakeFault<Seq<char>>,
> {
    match result {
        Ok(selected) => Ok(opt_view(selected)),
        Err(error) => Err(fault_view(error)),
    }
}

/// The trimmed text of the first of some header values.
pub open spec fn first_text(values: Seq<Seq<u8>>) -> Option<Seq<char>> {
    if values.len() == 0 {
        None
    } else {
        match text_of(values[0]) {
            Some(t) => Some(trim(t)),
            None => None,
        }
    }
}

/// A comma-separated list holds `upgrade`, whatever the case and the space
/// around it.
pub open spec fn lists_upgrade(list: Seq<char>) -> bool {
    exists|i: int|
        0 <= i < split_on(list, ',').len() && lower(trim(#[trigger] split_on(list, ',')[i]))
            == lower("upgrade"@)
}

/// The subprotocol that the server's protocol headers select out of `offered`:
/// none for an absent or an empty header.
pub open spec fn selected_protocol(values: Seq<Seq<u8>>, offered: Seq<Seq<char>>) -> Result<
    Option<Seq<char>>,
    HandshakeFault<Seq<char>>,
> {
    if values.len() > 1 {
        Err(HandshakeFault::RepeatedProtocol)
    } else if values.len() == 0 {
        Ok(None)
    } else {
        match text_of(values[0]) {
            None => Err(HandshakeFault::InvalidProtocol),
            Some(text) => if trim(text).contains(',') {
                Err(HandshakeFault::SeveralProtocols(trim(text)))
            } else if trim(text).len() == 0 {
                Ok(None)
            } else if offered.contains(trim(text)) {
                Ok(Some(trim(text)))
            } else {
                Err(HandshakeFault::UnofferedProtocol(trim(text)))
            },
        }
    }
}

/// The verdict on the header fields of a `101 Switching Protocols` answer, for
/// the accept key that is due and the subprotocols that were offered.
pub open spec fn handshake_verdict(
    list: Seq<(Seq<char>, Seq<u8>)>,
    accept: Seq<char>,
    offered: Seq<Seq<char>>,
) -> Result<Option<Seq<char>>, HandshakeFault<Seq<char>>> {
    let connection = first_text(values_of(list, "connection"@));
    let upgrade = first_text(values_of(list, "upgrade"@));
    let accepts = values_of(list, "sec-websocket-accept"@);
    let extensions = values_of(list, "sec-websocket-extensions"@);
    if connection is None {
        Err(HandshakeFault::Missing(HandshakeHeader::Connection))
    } else if !lists_upgrade(connection->0) {
        Err(HandshakeFault::UnexpectedConnection(connection->0))
    } else if upgrade is None {
        Err(HandshakeFault::Missing(HandshakeHeader::Upgrade))
    } else if lower(upgrade->0) != lower("websocket"@) {
        Err(HandshakeFault::UnexpectedUpgrade(upgrade->0))
    } else if first_text(accepts) is None {
        Err(HandshakeFault::Missing(HandshakeHeader::Accept))
    } else if accepts.len() > 1 {
        Err(HandshakeFault::RepeatedAccept)
    } else if first_text(accepts)->0 != accept {
        Err(HandshakeFault::UnexpectedAccept(first_text(accepts)->0))
    } else if extensions.len() > 0 {
        Err(HandshakeFault::UnexpectedExtensions(text_of(extensions[0])))
    } else {
        selected_protocol(values_of(list, "sec-websocket-protocol"@), offered)
    }
}

/// The trimmed text of an optional header value.
fn trimmed_value(value: Option<&http::HeaderValue>) -> (text: Option<String>)
    ensures
        value is None ==> text is None,
        value is Some ==> opt_view(text) == first_text(seq![value_bytes(*value->0)]),
{
    match value {
        None => None,
        Some(v) => match value_text(v) {
            None => None,
            Some(t) => Some(trimmed(t.as_str())),
        },
    }
}

fn list_has_upgrade(list: &str) -> (r: bool)
    ensures
        r == lists_upgrade(list@),
{
    let tokens: Vec<String> = split_text(list, ',');
    let mut i: usize = 0;
    while i < tokens.len()
        invariant
            i <= tokens.len(),
            texts(tokens@) == split_on(list@, ','),
            forall|j: int|
                0 <= j < i ==> lower(trim(#[trigger] split_on(list@, ',')[j])) != lower("upgrade"@),
        decreases tokens.len() - i,
    {
        let token: String = trimmed(tokens[i].as_str());
        assert(texts(tokens@)[i as int] == tokens@[i as int]@);
        if eq_ignore_case(token.as_str(), "upgrade") {
            return true;
        }
        i += 1;
    }
    false
}

fn contains_comma(text: &str) -> (r: bool)
    ensures
        r == text@.contains(','),
{
    let at: usize = crate::text::find_char(text, ',');
    proof {
        crate::text::lemma_first_position(text@, ',');
    }
    at < crate::text::chars_of(text).len()
}

/// Reads what the server's protocol headers select out of `offered`.
fn select_protocol(values: &Vec<&http::HeaderValue>, offered: &[String]) -> (r: Result<
    Option<String>,
    HandshakeError,
>)
    ensures
        verdict_view(r) == selected_protocol(
            Seq::new(values@.len(), |i: int| value_bytes(*values@[i])),
            texts(offered@),
        ),
{
    if values.len() > 1 {
        return Err(HandshakeFault::RepeatedProtocol);
    }
    if values.len() == 0 {
        return Ok(None);
    }
    match value_text(values[0]) {
        None => Err(HandshakeFault::InvalidProtocol),
        Some(text) => {
            let protocol: String = trimmed(text.as_str());
            if contains_comma(protocol.as_str()) {
                Err(HandshakeFault::SeveralProtocols(protocol))
            } else if protocol.as_str().is_empty() {
                Ok(None)
            } else if list_has(offered, protocol.as_str()) {
                Ok(Some(protocol))
            } else {
                Err(HandshakeFault::UnofferedProtocol(protocol))
            }
        },
    }
}

/// Validates an API server's `101 Switching Protocols` answer to an upgrade
/// for which the accept key `accept` is due and which offered `offered`.
pub fn check_handshake(
    headers: &http::HeaderMap<http::HeaderValue>,
    accept: &str,
    offered: &[String],
) -> (r: Result<Option<String>, HandshakeError>)
    ensures
        verdict_view(r) == handshake_verdict(fields(*headers), accept@, texts(offered@)),
{
    let ghost list = fields(*headers);
    proof {
        reveal_strlit("connection");
        reveal_strlit("upgrade");
        reveal_strlit("sec-websocket-accept");
        reveal_strlit("sec-websocket-extensions");
        reveal_strlit("sec-websocket-protocol");
    }
    let connection: String = match trimmed_value(header_get(headers, "connection")) {
        Some(text) => text,
        None => {
            return Err(HandshakeFault::Missing(HandshakeHeader::Connection));
        },
    };
    if !list_has_upgrade(connection.as_str()) {
        return Err(HandshakeFault::UnexpectedConnection(connection));
    }
    let upgrade: String = match trimmed_value(header_get(headers, "upgrade")) {
        Some(text) => text,
        None => {
            return Err(HandshakeFault::Missing(HandshakeHeader::Upgrade));
        },
    };
    if !eq_ignore_case(upgrade.as_str(), "websocket") {
        return Err(HandshakeFault::UnexpectedUpgrade(upgrade));
    }
    let accepts: Vec<&http::HeaderValue> = header_get_all(headers, "sec-websocket-accept");
    let first: Option<&http::HeaderValue> = if accepts.len() > 0 {
        Some(accepts[0])
    } else {
        None
    };
    let answered: String = match trimmed_value(first) {
        Some(text) => text,
        None => {
            return Err(HandshakeFault::Missing(HandshakeHeader::Accept));
        },
    };
    if accepts.len() > 1 {
        return Err(HandshakeFault::RepeatedAccept);
    }
    if !same_text(answered.as_str(), accept) {
        return Err(HandshakeFault::UnexpectedAccept(answered));
    }
    if let Some(extensions) = header_get(headers, "sec-websocket-extensions") {
        return Err(HandshakeFault::UnexpectedExtensions(value_text(extensions)));
    }
    let protocols: Vec<&http::HeaderValue> = header_get_all(headers, "sec-websocket-protocol");
    assert(Seq::new(protocols@.len(), |i: int| value_bytes(*protocols@[i])) =~= values_of(
        list,
        "sec-websocket-protocol"@,
    ));
    select_protocol(&protocols, offered)
}

/// Validates an API server's `101 Switching Protocols` answer to an upgrade
/// sent with `key` and offering `offered`. Returns the subprotocol that it
/// selected, or `None` if it selected none, which is allowed whether or not
/// anything was offered. An empty `Sec-WebSocket-Protocol` is read like an
/// absent one, because API servers answer so when they are offered nothing.
pub fn check_upstream_handshake(
    headers: &http::HeaderMap<http::HeaderValue>,
    key: &str,
    offered: &[String],
) -> (r: Result<Option<String>, HandshakeError>)
    ensures
        verdict_view(r) == handshake_verdict(
            fields(*headers),
            accept_key(vstd::utf8::encode_utf8(key@)),
            texts(offered@),
        ),
{
    let accept: String = derive_accept_key(key.as_bytes());
    check_handshake(headers, accept.as_str(), offered)
}

/// The pieces that are not empty once trimmed, trimmed.
pub open spec fn trimmed_pieces(pieces: Seq<Seq<char>>) -> Seq<Seq<char>>
    decreases pieces.len(),
{
    if pieces.len() == 0 {
        pieces
    } else if trim(pieces.last()).len() == 0 {
        trimmed_pieces(pieces.drop_last())
    } else {
        trimmed_pieces(pieces.drop_last()).push(trim(pieces.last()))
    }
}

/// The subprotocols that a client offers: the comma-separated names in its
/// first `Sec-WebSocket-Protocol` header, and none if it has no such text.
pub open spec fn requested_protocols(list: Seq<(Seq<char>, Seq<u8>)>) -> Seq<Seq<char>> {
    let values = values_of(list, "sec-websocket-protocol"@);
    if values.len() == 0 {
        Seq::empty()
    } else {
        match text_of(values[0]) {
            Some(text) => trimmed_pieces(split_on(text, ',')),
            None => Seq::empty(),
        }
    }
}

/// The subprotocols that the client offered, in order, to request from the API
/// server in turn. A client may offer none. Only the first header is read: this
/// has to be the list that the downstream negotiation reads, or the two sides
/// could settle on different subprotocols.
pub fn requested_websocket_protocols(headers: &http::HeaderMap<http::HeaderValue>) -> (protocols:
    Vec<String>)
    ensures
        texts(protocols@) == requested_protocols(fields(*headers)),
{
    proof {
        reveal_strlit("sec-websocket-protocol");
    }
    let mut protocols: Vec<String> = Vec::new();
    assert(texts(protocols@) =~= Seq::<Seq<char>>::empty());
    let text: Option<String> = match header_get(headers, "sec-websocket-protocol") {
        None => None,
        Some(value) => value_text(value),
    };
    match text {
        None => protocols,
        Some(text) => {
            let pieces: Vec<String> = split_text(text.as_str(), ',');
            let ghost view = texts(pieces@);
            let mut i: usize = 0;
            assert(texts(protocols@) =~= trimmed_pieces(view.take(0)));
            while i < pieces.len()
                invariant
                    i <= pieces.len(),
                    view == texts(pieces@),
                    texts(protocols@) == trimmed_pieces(view.take(i as int)),
                decreases pieces.len() - i,
            {
                assert(view.take(i + 1).drop_last() == view.take(i as int));
                assert(view.take(i + 1).last() == pieces@[i as int]@);
                let ghost before = texts(protocols@);
                let piece: String = trimmed(pieces[i].as_str());
                if !piece.as_str().is_empty() {
                    let ghost name = piece@;
                    protocols.push(piece);
                    assert(texts(protocols@) =~= before.push(name));
                }
                i += 1;
            }
            assert(view.take(view.len() as int) == view);
            protocols
        },
    }
}

/// A subprotocol that the server selected is one of those that were offered.
pub proof fn law_a_selected_protocol_was_offered(
    list: Seq<(Seq<char>, Seq<u8>)>,
    accept: Seq<char>,
    offered: Seq<Seq<char>>,
)
    ensures
        handshake_verdict(list, accept, offered) matches Ok(Some(protocol)) ==> offered.contains(
            protocol,
        ),
{
}

/// An answer is accepted only if it carries the one accept key that is due, and
/// with an empty offer it can select nothing.
pub proof fn law_an_accepted_answer_has_the_accept_key(
    list: Seq<(Seq<char>, Seq<u8>)>,
    accept: Seq<char>,
    offered: Seq<Seq<char>>,
)
    requires
        handshake_verdict(list, accept, offered) is Ok,
    ensures
        values_of(list, "sec-websocket-accept"@).len() == 1,
        first_text(values_of(list, "sec-websocket-accept"@)) == Some(accept),
        values_of(list, "sec-websocket-extensions"@).len() == 0,
        offered.len() == 0 ==> handshake_verdict(list, accept, offered)->Ok_0 is None,
{
}

/// The subprotocol that goes back to the client is one that the client asked
/// for, whatever the server answered.
pub proof fn law_both_sides_settle_on_one_protocol(
    request: Seq<(Seq<char>, Seq<u8>)>,
    answer: Seq<(Seq<char>, Seq<u8>)>,
    accept: Seq<char>,
)
    ensures
        handshake_verdict(answer, accept, requested_protocols(request)) matches Ok(Some(protocol))
            ==> requested_protocols(request).contains(protocol),
{
}

/// A character of the base64 alphabet.
pub open spec fn is_base64_char(c: char) -> bool {
    ||| 'A' <= c && c <= 'Z'
    ||| 'a' <= c && c <= 'z'
    ||| '0' <= c && c <= '9'
    ||| c == '+'
    ||| c == '/'
}

/// A text in the form of sixteen bytes in base64.
pub open spec fn is_websocket_key(key: Seq<char>) -> bool {
    &&& key.len() == 24
    &&& forall|i: int| 0 <= i < 22 ==> is_base64_char(#[trigger] key[i])
    &&& key[22] == '=' && key[23] == '='
}

/// `tungstenite::handshake::client::generate_key`: sixteen random bytes in
/// base64. Which bytes they are is left to chance, so nothing is said of them.
#[verifier::external_body]
fn generate_key() -> (key: String)
    ensures
        is_websocket_key(key@),
{
    tokio_tungstenite::tungstenite::handshake::client::generate_key()
}

/// The headers of an upgrade request with `key`, offering `protocols`.
pub open spec fn upgrade_request(key: Seq<char>, protocols: Seq<Seq<char>>) -> Seq<
    (Seq<char>, Seq<char>),
> {
    let base = seq![
        ("connection"@, "Upgrade"@),
        ("upgrade"@, "websocket"@),
        ("sec-websocket-version"@, "13"@),
        ("sec-websocket-key"@, key),
    ];
    if protocols.len() == 0 {
        base
    } else {
        base.push(("sec-websocket-protocol"@, join(protocols, ", "@)))
    }
}

/// The headers of an upgrade request with `key`, offering `protocols`.
pub fn upgrade_headers(key: &str, protocols: &Vec<String>) -> (headers: Vec<(String, String)>)
    ensures
        crate::headers::entries_view(headers@) == upgrade_request(key@, texts(protocols@)),
{
    let mut headers: Vec<(String, String)> = Vec::new();
    headers.push(("connection".to_owned(), "Upgrade".to_owned()));
    headers.push(("upgrade".to_owned(), "websocket".to_owned()));
    headers.push(("sec-websocket-version".to_owned(), "13".to_owned()));
    headers.push(("sec-websocket-key".to_owned(), key.to_owned()));
    if protocols.len() > 0 {
        headers.push(("sec-websocket-protocol".to_owned(), join_texts(protocols, ", ")));
    }
    assert(crate::headers::entries_view(headers@) =~= upgrade_request(key@, texts(protocols@)));
    headers
}

/// An upgrade that the gateway is asking an API server for.
#[derive(Debug)]
pub struct UpstreamUpgrade {
    pub key: String,
    pub protocols: Vec<String>,
}

/// What became of an upgrade that an API server answered.
#[derive(Debug)]
pub enum UpgradeOutcome {
    /// The server answered without switching protocols.
    Rejected,
    /// The server switched protocols, and its answer is in order.
    Negotiated { protocol: Option<String> },
    /// The server switched protocols, but its answer is not in order.
    Invalid(HandshakeError),
}

/// What an answer to an upgrade calls for.
#[derive(Debug)]
pub struct UpgradeAnswer {
    /// The stream is running on the cluster by now, so its start is reported
    /// first, before anything else is looked at.
    pub report_started: bool,
    pub outcome: UpgradeOutcome,
}

impl UpstreamUpgrade {
    /// A fresh upgrade request that offers `protocols`, which may be none.
    pub fn new(protocols: Vec<String>) -> (upgrade: UpstreamUpgrade)
        ensures
            upgrade.protocols == protocols,
            is_websocket_key(upgrade.key@),
    {
        UpstreamUpgrade { key: generate_key(), protocols }
    }

    /// The headers to send.
    pub fn headers(&self) -> (headers: Vec<(String, String)>)
        ensures
            crate::headers::entries_view(headers@) == upgrade_request(
                self.key@,
                texts(self.protocols@),
            ),
    {
        upgrade_headers(self.key.as_str(), &self.protocols)
    }

    /// Takes up the server's answer. Any status but `101` is a refusal. With
    /// `101` the stream has started, whether or not its handshake then proves
    /// to be in order.
    pub fn on_response(&self, status: u16, headers: &http::HeaderMap<http::HeaderValue>) -> (answer:
        UpgradeAnswer)
        ensures
            answer.report_started <==> status == 101,
            answer.outcome is Rejected <==> status != 101,
            status == 101 ==> ({
                let verdict = handshake_verdict(
                    fields(*headers),
                    accept_key(vstd::utf8::encode_utf8(self.key@)),
                    texts(self.protocols@),
                );
                match answer.outcome {
                    UpgradeOutcome::Rejected => false,
                    UpgradeOutcome::Negotiated { protocol } => verdict == Ok::<
                        Option<Seq<char>>,
                        HandshakeFault<Seq<char>>,
                    >(opt_view(protocol)),
                    UpgradeOutcome::Invalid(error) => verdict == Err::<
                        Option<Seq<char>>,
                        HandshakeFault<Seq<char>>,
                    >(fault_view(error)),
                }
            }),
    {
        if status != 101 {
            return UpgradeAnswer { report_started: false, outcome: UpgradeOutcome::Rejected };
        }
        let outcome: UpgradeOutcome = match check_upstream_handshake(
            headers,
            self.key.as_str(),
            self.protocols.as_slice(),
        ) {
            Ok(protocol) => UpgradeOutcome::Negotiated { protocol },
            Err(error) => UpgradeOutcome::Invalid(error),
        };
        UpgradeAnswer { report_started: true, outcome }
    }
}

/// What to do with a binary message of a stream that is being recorded.
#[derive(Debug)]
pub enum RecordingAction {
    /// Nothing.
    Skip,
    /// Record data of the numbered stream.
    Write { stream: u8, data: Vec<u8> },
    /// Record a change of the terminal's size, if the data describe one: see
    /// [`resize_record`].
    Resize { data: Vec<u8> },
}

/// The first byte of a message is its channel: input and output are recorded,
/// and so are size changes.
pub fn recording_action(message: &Vec<u8>) -> (action: RecordingAction)
    ensures
        match action {
            RecordingAction::Write { stream, data } => {
                &&& message@.len() > 0 && message@[0] < 2
                &&& stream == message@[0]
                &&& data@ == message@.skip(1)
            },
            RecordingAction::Resize { data } => {
                &&& message@.len() > 0 && message@[0] == 4
                &&& data@ == message@.skip(1)
            },
            RecordingAction::Skip => message@.len() == 0 || (message@[0] >= 2 && message@[0] != 4),
        },
{
    if message.len() == 0 {
        return RecordingAction::Skip;
    }
    let channel: u8 = message[0];
    let data: Vec<u8> = vstd::slice::slice_to_vec(
        vstd::slice::slice_subrange(message.as_slice(), 1, message.len()),
    );
    assert(data@ == message@.skip(1));
    if channel < 2 {
        RecordingAction::Write { stream: channel, data }
    } else if channel == 4 {
        RecordingAction::Resize { data }
    } else {
        RecordingAction::Skip
    }
}

/// The size that a terminal was changed to.
#[derive(Clone, Copy, Debug, PartialEq, Eq, Structural)]
pub struct TerminalSize {
    pub width: u32,
    pub height: u32,
}

/// What is recorded of a message that announces a size change.
#[derive(Clone, Copy, Debug, PartialEq, Eq, Structural)]
pub enum ResizeRecord {
    /// The message describes no size.
    Nothing,
    Resize { width: u32, height: u32 },
}

/// What to record of a size change, given the size that its data describe, if
/// they describe one.
pub fn resize_record(size: Option<TerminalSize>) -> (record: ResizeRecord)
    ensures
        record == match size {
            Some(size) => ResizeRecord::Resize { width: size.width, height: size.height },
            None => ResizeRecord::Nothing,
        },
{
    match size {
        Some(size) => ResizeRecord::Resize { width: size.width, height: size.height },
        None => ResizeRecord::Nothing,
    }
}

} // verus!
