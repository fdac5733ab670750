//! What a websocket upgrade promises: which answers of an API server are
//! accepted, and what the client gets for each.
use vstd::prelude::*;

use crate::header_laws::lemma_copied_is_filter;
use crate::headers::{entries_view, fields_view};
use crate::http_fields::{fields, is_name, is_value, opt_view, text_of, values_of};
use crate::normal_request::RequestFailure;
use crate::routes::parsed_url;
use crate::text::{join, lower, split_on, texts, trim};
use crate::websocket::{
    accept_key, check_handshake, check_upstream_handshake, fault_view, is_websocket_key,
    lists_upgrade, recording_action, requested_websocket_protocols, resize_record, trimmed_pieces,
    upgrade_headers, HandshakeError, HandshakeFault, HandshakeHeader, RecordingAction,
    ResizeRecord, TerminalSize, UpgradeAnswer, UpgradeOutcome, UpstreamUpgrade,
};
use crate::websocket_request::{
    handle_websocket_request, StreamOperation, WebsocketAction, WebsocketAnswer, WebsocketCall,
    WebsocketEvent, WebsocketRequest, WebsocketStage,
};

verus! {

/// The first field of this name is this text, once trimmed.
pub open spec fn first_is(
    headers: http::HeaderMap<http::HeaderValue>,
    name: Seq<char>,
    text: Seq<char>,
) -> bool {
    let values = values_of(fields(headers), name);
    values.len() > 0 && (text_of(values[0]) matches Some(held) && trim(held) == text)
}

/// There is no field of this name, or the first one is not text.
pub open spec fn lacks(headers: http::HeaderMap<http::HeaderValue>, name: Seq<char>) -> bool {
    let values = values_of(fields(headers), name);
    values.len() == 0 || text_of(values[0]) is None
}

/// `upgrade` is among the comma-separated entries of the text, in whatever case.
pub open spec fn has_upgrade(text: Seq<char>) -> bool {
    exists|i: int|
        0 <= i < split_on(text, ',').len() && lower(trim(#[trigger] split_on(text, ',')[i]))
            == "upgrade"@
}

/// The answer switches to a websocket with this accept key, and with nothing that
/// was not asked for.
pub open spec fn switches(
    headers: http::HeaderMap<http::HeaderValue>,
    connection: Seq<char>,
    upgrade: Seq<char>,
    accept: Seq<char>,
) -> bool {
    &&& first_is(headers, "connection"@, connection)
    &&& has_upgrade(connection)
    &&& first_is(headers, "upgrade"@, upgrade)
    &&& lower(upgrade) == "websocket"@
    &&& values_of(fields(headers), "sec-websocket-accept"@).len() == 1
    &&& first_is(headers, "sec-websocket-accept"@, accept)
    &&& values_of(fields(headers), "sec-websocket-extensions"@).len() == 0
}

proof fn lemma_words()
    ensures
        lower("upgrade"@) == "upgrade"@,
        lower("websocket"@) == "websocket"@,
{
    reveal_strlit("upgrade");
    reveal_strlit("websocket");
    assert(lower("upgrade"@) =~= "upgrade"@);
    assert(lower("websocket"@) =~= "websocket"@);
}

/// An answer that switches to a websocket with the accept key that is due is
/// accepted with the subprotocol that it selects, whichever of the offered ones
/// that is.
pub proof fn law_any_offered_protocol_can_be_selected(
    headers: http::HeaderMap<http::HeaderValue>,
    key: &str,
    offered: &[String],
    connection: Seq<char>,
    upgrade: Seq<char>,
    k: int,
    r: Result<Option<String>, HandshakeError>,
)
    requires
        call_ensures(check_upstream_handshake, (&headers, key, offered), r),
        switches(headers, connection, upgrade, accept_key(vstd::utf8::encode_utf8(key@))),
        0 <= k < offered@.len(),
        values_of(fields(headers), "sec-websocket-protocol"@).len() == 1,
        first_is(headers, "sec-websocket-protocol"@, offered@[k]@),
        offered@[k]@.len() > 0,
        !offered@[k]@.contains(','),
    ensures
        r matches Ok(Some(protocol)) && protocol@ == offered@[k]@,
{
    lemma_words();
    assert(lists_upgrade(connection) == has_upgrade(connection));
    assert(texts(offered@)[k] == offered@[k]@);
    assert(crate::websocket::verdict_view(r) is Ok);
}

/// An answer that switches to a websocket and selects no subprotocol is accepted
/// without one, whatever was offered; an empty selection is none.
pub proof fn law_no_protocol_needs_to_be_selected(
    headers: http::HeaderMap<http::HeaderValue>,
    key: &str,
    offered: &[String],
    connection: Seq<char>,
    upgrade: Seq<char>,
    r: Result<Option<String>, HandshakeError>,
)
    requires
        call_ensures(check_upstream_handshake, (&headers, key, offered), r),
        switches(headers, connection, upgrade, accept_key(vstd::utf8::encode_utf8(key@))),
        values_of(fields(headers), "sec-websocket-protocol"@).len() == 0 || values_of(
            fields(headers),
            "sec-websocket-protocol"@,
        ).len() == 1 && first_is(headers, "sec-websocket-protocol"@, Seq::<char>::empty()),
    ensures
        r matches Ok(None),
{
    lemma_words();
    assert(lists_upgrade(connection) == has_upgrade(connection));
    assert(!Seq::<char>::empty().contains(','));
    assert(crate::websocket::verdict_view(r) is Ok);
}

/// The check names this fault.
pub open spec fn finds(
    r: Result<Option<String>, HandshakeError>,
    fault: HandshakeFault<Seq<char>>,
) -> bool {
    r matches Err(error) && fault_view(error) == fault
}

/// An answer that does not switch to a websocket is refused, and the check names
/// the first thing that is wrong with it.
pub proof fn law_a_faulty_answer_is_refused(
    headers: http::HeaderMap<http::HeaderValue>,
    key: &str,
    offered: &[String],
    connection: Seq<char>,
    upgrade: Seq<char>,
    accept: Seq<char>,
    r: Result<Option<String>, HandshakeError>,
)
    requires
        call_ensures(check_upstream_handshake, (&headers, key, offered), r),
    ensures
        lacks(headers, "connection"@) ==> finds(
            r,
            HandshakeFault::Missing(HandshakeHeader::Connection),
        ),
        first_is(headers, "connection"@, connection) && !has_upgrade(connection) ==> finds(
            r,
            HandshakeFault::UnexpectedConnection(connection),
        ),
        first_is(headers, "connection"@, connection) && has_upgrade(connection) ==> {
            &&& lacks(headers, "upgrade"@) ==> finds(
                r,
                HandshakeFault::Missing(HandshakeHeader::Upgrade),
            )
            &&& first_is(headers, "upgrade"@, upgrade) && lower(upgrade) != "websocket"@ ==> finds(
                r,
                HandshakeFault::UnexpectedUpgrade(upgrade),
            )
            &&& first_is(headers, "upgrade"@, upgrade) && lower(upgrade) == "websocket"@ ==> {
                &&& lacks(headers, "sec-websocket-accept"@) ==> finds(
                    r,
                    HandshakeFault::Missing(HandshakeHeader::Accept),
                )
                &&& first_is(headers, "sec-websocket-accept"@, accept) && values_of(
                    fields(headers),
                    "sec-websocket-accept"@,
                ).len() > 1 ==> finds(r, HandshakeFault::RepeatedAccept)
                &&& first_is(headers, "sec-websocket-accept"@, accept) && values_of(
                    fields(headers),
                    "sec-websocket-accept"@,
                ).len() == 1 && accept != accept_key(vstd::utf8::encode_utf8(key@)) ==> finds(
                    r,
                    HandshakeFault::UnexpectedAccept(accept),
                )
                &&& first_is(headers, "sec-websocket-accept"@, accept) && values_of(
                    fields(headers),
                    "sec-websocket-accept"@,
                ).len() == 1 && accept == accept_key(vstd::utf8::encode_utf8(key@)) && values_of(
                    fields(headers),
                    "sec-websocket-extensions"@,
                ).len() > 0 ==> (r matches Err(HandshakeFault::UnexpectedExtensions(_)))
            }
        },
{
    lemma_words();
    assert(lists_upgrade(connection) == has_upgrade(connection));
    assert(crate::websocket::verdict_view(r) == crate::websocket::verdict_view(r));
}

/// An answer that selects several subprotocols, or one that was not offered, or
/// one that is no text, is refused.
pub proof fn law_a_faulty_selection_is_refused(
    headers: http::HeaderMap<http::HeaderValue>,
    key: &str,
    offered: &[String],
    connection: Seq<char>,
    upgrade: Seq<char>,
    selected: Seq<char>,
    r: Result<Option<String>, HandshakeError>,
)
    requires
        call_ensures(check_upstream_handshake, (&headers, key, offered), r),
        switches(headers, connection, upgrade, accept_key(vstd::utf8::encode_utf8(key@))),
    ensures
        ({
            let values = values_of(fields(headers), "sec-websocket-protocol"@);
            &&& values.len() > 1 ==> finds(r, HandshakeFault::RepeatedProtocol)
            &&& values.len() == 1 && text_of(values[0]) is None ==> finds(
                r,
                HandshakeFault::InvalidProtocol,
            )
            &&& values.len() == 1 && first_is(headers, "sec-websocket-protocol"@, selected)
                && selected.contains(',') ==> finds(r, HandshakeFault::SeveralProtocols(selected))
            &&& values.len() == 1 && first_is(headers, "sec-websocket-protocol"@, selected)
                && !selected.contains(',') && selected.len() > 0 && (forall|k: int|
                0 <= k < offered@.len() ==> (#[trigger] offered@[k])@ != selected) ==> finds(
                r,
                HandshakeFault::UnofferedProtocol(selected),
            )
        }),
{
    lemma_words();
    assert(lists_upgrade(connection) == has_upgrade(connection));
    if texts(offered@).contains(selected) {
        let k = choose|k: int| 0 <= k < texts(offered@).len() && texts(offered@)[k] == selected;
        assert(offered@[k]@ == selected);
    }
}

/// Any status but 101 is a refusal, of which no start is reported; with 101 the
/// stream has started, and what becomes of it is what the check of the answer
/// says.
pub proof fn law_only_101_starts_a_stream(
    upgrade: UpstreamUpgrade,
    status: u16,
    headers: http::HeaderMap<http::HeaderValue>,
    answer: UpgradeAnswer,
    key: &str,
    offered: &[String],
    checked: Result<Option<String>, HandshakeError>,
)
    requires
        call_ensures(UpstreamUpgrade::on_response, (&upgrade, status, &headers), answer),
        key@ == upgrade.key@,
        texts(offered@) == texts(upgrade.protocols@),
        call_ensures(check_upstream_handshake, (&headers, key, offered), checked),
    ensures
        status != 101 ==> !answer.report_started && answer.outcome is Rejected,
        status == 101 ==> answer.report_started && match checked {
            Ok(selected) => answer.outcome matches UpgradeOutcome::Negotiated { protocol }
                && opt_view(protocol) == opt_view(selected),
            Err(fault) => answer.outcome matches UpgradeOutcome::Invalid(error) && fault_view(error)
                == fault_view(fault),
        },
{
}

proof fn lemma_trimmed_pieces(pieces: Seq<Seq<char>>)
    ensures
        trimmed_pieces(pieces) == pieces.map_values(|piece: Seq<char>| trim(piece)).filter(
            |piece: Seq<char>| piece.len() > 0,
        ),
    decreases pieces.len(),
{
    reveal(Seq::filter);
    let trims = |piece: Seq<char>| trim(piece);
    if pieces.len() > 0 {
        lemma_trimmed_pieces(pieces.drop_last());
        assert(pieces.map_values(trims).drop_last() =~= pieces.drop_last().map_values(trims));
        assert(pieces.map_values(trims).last() == trim(pieces.last()));
    }
}

/// A client offers exactly the comma-separated names of its first protocol
/// header, trimmed, in order, and without empty ones.
pub proof fn law_what_a_client_offers(
    headers: http::HeaderMap<http::HeaderValue>,
    protocols: Vec<String>,
)
    requires
        call_ensures(requested_websocket_protocols, (&headers,), protocols),
    ensures
        ({
            let values = values_of(fields(headers), "sec-websocket-protocol"@);
            if values.len() > 0 && text_of(values[0]) is Some {
                texts(protocols@) == split_on(text_of(values[0])->0, ',').map_values(
                    |piece: Seq<char>| trim(piece),
                ).filter(|piece: Seq<char>| piece.len() > 0)
            } else {
                protocols@.len() == 0
            }
        }),
{
    let values = values_of(fields(headers), "sec-websocket-protocol"@);
    if values.len() > 0 && text_of(values[0]) is Some {
        lemma_trimmed_pieces(split_on(text_of(values[0])->0, ','));
    }
    assert(texts(protocols@).len() == protocols@.len());
}

/// An upgrade request asks to switch to version 13 of the websocket protocol with
/// its key, and offers its subprotocols, if there are any, in one header.
pub proof fn law_what_an_upgrade_request_says(
    key: &str,
    protocols: Vec<String>,
    headers: Vec<(String, String)>,
)
    requires
        call_ensures(upgrade_headers, (key, &protocols), headers),
    ensures
        entries_view(headers@).contains(("connection"@, "Upgrade"@)),
        entries_view(headers@).contains(("upgrade"@, "websocket"@)),
        entries_view(headers@).contains(("sec-websocket-version"@, "13"@)),
        entries_view(headers@).contains(("sec-websocket-key"@, key@)),
        protocols@.len() == 0 ==> headers@.len() == 4,
        protocols@.len() > 0 ==> headers@.len() == 5 && entries_view(headers@).contains(
            ("sec-websocket-protocol"@, join(texts(protocols@), ", "@)),
        ),
{
    let view = entries_view(headers@);
    assert(view[0] == ("connection"@, "Upgrade"@));
    assert(view[1] == ("upgrade"@, "websocket"@));
    assert(view[2] == ("sec-websocket-version"@, "13"@));
    assert(view[3] == ("sec-websocket-key"@, key@));
    if protocols@.len() > 0 {
        assert(view[4] == ("sec-websocket-protocol"@, join(texts(protocols@), ", "@)));
    }
    assert(view.len() == headers@.len());
}

/// The first byte of a message is its channel, and the rest is recorded as it
/// is: input and output under their own numbers, and size changes as such.
/// Nothing else is recorded.
pub proof fn law_what_is_recorded_of_a_message(message: Vec<u8>, action: RecordingAction)
    requires
        call_ensures(recording_action, (&message,), action),
    ensures
        message@.len() > 0 && (message@[0] == 0 || message@[0] == 1) ==> (
        action matches RecordingAction::Write { stream, data } && stream == message@[0] && data@
            == message@.drop_first()),
        message@.len() > 0 && message@[0] == 4 ==> (action matches RecordingAction::Resize { data }
            && data@ == message@.drop_first()),
        message@.len() == 0 || message@[0] == 2 || message@[0] == 3 || message@[0] > 4
            ==> action is Skip,
{
    if message@.len() > 0 {
        assert(message@.skip(1) =~= message@.drop_first());
    }
}

/// A size that a message describes is recorded with its own width and height,
/// and a message that describes none is not recorded.
pub proof fn law_a_described_size_is_recorded(size: Option<TerminalSize>, record: ResizeRecord)
    requires
        call_ensures(resize_record, (size,), record),
    ensures
        size matches Some(size) ==> (record matches ResizeRecord::Resize { width, height } && width
            == size.width && height == size.height),
        size is None ==> record is Nothing,
{
}

/// An upgrade begins by making a client, unless the cluster's address, the path
/// and the query make no URL. Then the stream is classified by the path and the
/// query of the request.
pub proof fn law_an_upgrade_begins_with_its_client<F>(
    call: WebsocketCall,
    headers: http::HeaderMap<http::HeaderValue>,
    begun: (WebsocketRequest, WebsocketAction<F>),
    created: Result<(), F>,
    r: (WebsocketRequest, WebsocketAction<F>),
)
    requires
        call_ensures(handle_websocket_request::<F>, (call, &headers), begun),
        call_ensures(
            WebsocketRequest::step::<F>,
            (begun.0, WebsocketEvent::ClientCreated(created)),
            r,
        ),
    ensures
        begun.0.call == call,
        ({
            let text = match opt_view(call.query) {
                Some(query) if query.len() > 0 => call.options.cluster_url@ + call.api_path@
                    + seq!['?'] + query,
                _ => call.options.cluster_url@ + call.api_path@,
            };
            match (parsed_url(text), created) {
                (None, _) => begun.1 matches WebsocketAction::Done(Err(RequestFailure::Url(_))),
                (Some(url), Ok(_)) => {
                    &&& begun.1 is CreateClient
                    &&& r.1 matches WebsocketAction::Classify(path, query)
                    &&& path@ == call.api_path@
                    &&& opt_view(query) == opt_view(call.query)
                    &&& r.0.stage matches WebsocketStage::Classifying(kept)
                    &&& kept@ == url
                },
                (Some(_), Err(failure)) => begun.1 is CreateClient && r.1 == WebsocketAction::<
                    F,
                >::Done(Err(RequestFailure::Outside(failure))),
            }
        }),
{
    reveal_strlit("?");
    assert("?"@ =~= seq!['?']);
}

/// A classified stream is recorded if recordings are enabled and it is one that
/// is recorded; either way the server is then asked to switch protocols, at the
/// URL that was made, with a fresh key and with the very subprotocols that the
/// client offered.
pub proof fn law_a_classified_stream_is_connected<F>(
    request: WebsocketRequest,
    url: String,
    operation: Option<StreamOperation>,
    asked: (WebsocketRequest, WebsocketAction<F>),
    enabled: Result<bool, F>,
    answered: (WebsocketRequest, WebsocketAction<F>),
    started: (WebsocketRequest, WebsocketAction<F>),
)
    requires
        request.stage == WebsocketStage::Classifying(url),
        call_ensures(
            WebsocketRequest::step::<F>,
            (request, WebsocketEvent::Classified(operation)),
            asked,
        ),
        call_ensures(
            WebsocketRequest::step::<F>,
            (asked.0, WebsocketEvent::RecordingEnabled(enabled)),
            answered,
        ),
        call_ensures(
            WebsocketRequest::step::<F>,
            (answered.0, WebsocketEvent::RecordingStarted),
            started,
        ),
    ensures
        asked.1 is AskRecordingEnabled,
        ({
            let recorded = enabled == Ok::<bool, F>(true) && (operation matches Some(stream)
                && stream.has_recording);
            let last = if recorded {
                started
            } else {
                answered
            };
            &&& recorded ==> answered.1 == WebsocketAction::<F>::StartRecording(
                request.call.session_id,
            )
            &&& last.1 matches WebsocketAction::Connect(to, headers)
            &&& to@ == url@
            &&& last.0.stage matches WebsocketStage::Connecting(upgrade, kept)
            &&& kept == operation
            &&& is_websocket_key(upgrade.key@)
            &&& texts(upgrade.protocols@) == texts(request.protocols@)
            &&& entries_view(headers@).contains(("sec-websocket-key"@, upgrade.key@))
            &&& entries_view(headers@).contains(("connection"@, "Upgrade"@))
            &&& entries_view(headers@).contains(("upgrade"@, "websocket"@))
            &&& request.protocols@.len() > 0 ==> entries_view(headers@).contains(
                ("sec-websocket-protocol"@, join(texts(request.protocols@), ", "@)),
            )
            &&& request.protocols@.len() == 0 ==> headers@.len() == 4
        }),
{
    let recorded = enabled == Ok::<bool, F>(true) && (operation matches Some(stream)
        && stream.has_recording);
    let last = if recorded {
        started
    } else {
        answered
    };
    match last.1 {
        WebsocketAction::Connect(_, headers) => {
            let view = entries_view(headers@);
            assert(view.len() == headers@.len());
            assert(texts(request.protocols@).len() == request.protocols@.len());
            assert(view[0] == ("connection"@, "Upgrade"@));
            assert(view[1] == ("upgrade"@, "websocket"@));
            match last.0.stage {
                WebsocketStage::Connecting(upgrade, _) => {
                    assert(view[3] == ("sec-websocket-key"@, upgrade.key@));
                },
                _ => {},
            }
            if request.protocols@.len() > 0 {
                assert(view[4] == (
                    "sec-websocket-protocol"@,
                    join(texts(request.protocols@), ", "@),
                ));
            }
        },
        _ => {},
    }
}

/// The client is answered with 502.
pub open spec fn is_bad_gateway<F>(action: WebsocketAction<F>) -> bool {
    action matches WebsocketAction::Done(Ok(WebsocketAnswer::BadGateway { status, .. })) && status
        == 502
}

/// A server that switches protocols with an answer that is in order has its
/// stream reported as started, if it does something that is audited, then taken
/// over, and the client is accepted with the very subprotocol that the server
/// selected. With an answer that is not in order the start is reported all the
/// same, and the client is answered with 502.
pub proof fn law_a_switched_stream_is_accepted<F>(
    request: WebsocketRequest,
    upgrade: UpstreamUpgrade,
    operation: Option<StreamOperation>,
    headers: http::HeaderMap<http::HeaderValue>,
    key: &str,
    offered: &[String],
    checked: Result<Option<String>, HandshakeError>,
    answered: (WebsocketRequest, WebsocketAction<F>),
    audited: (WebsocketRequest, WebsocketAction<F>),
    upgraded: Result<(), F>,
    ended: (WebsocketRequest, WebsocketAction<F>),
)
    requires
        request.stage == WebsocketStage::Connecting(upgrade, operation),
        key@ == upgrade.key@,
        texts(offered@) == texts(upgrade.protocols@),
        call_ensures(check_upstream_handshake, (&headers, key, offered), checked),
        call_ensures(
            WebsocketRequest::step::<F>,
            (request, WebsocketEvent::Response(Ok((101u16, headers)))),
            answered,
        ),
        operation is Some ==> call_ensures(
            WebsocketRequest::step::<F>,
            (answered.0, WebsocketEvent::Audited),
            audited,
        ),
        operation is None ==> audited == answered,
        call_ensures(
            WebsocketRequest::step::<F>,
            (audited.0, WebsocketEvent::Upgraded(upgraded)),
            ended,
        ),
    ensures
        operation is Some ==> answered.1 is AuditStarted,
        match checked {
            Ok(selected) => audited.1 is Upgrade && match upgraded {
                Ok(_) => ended.1 matches WebsocketAction::Done(
                    Ok(WebsocketAnswer::Accept { protocol }),
                ) && opt_view(protocol) == opt_view(selected),
                Err(_) => is_bad_gateway(ended.1),
            },
            Err(_) => is_bad_gateway(audited.1),
        },
{
}

/// A server that does not switch protocols has its refusal reported with its
/// status, if the stream is one that is audited, and passed on to the client with
/// its status, its well-formed headers and its whole body.
pub proof fn law_a_refusal_is_passed_on<F>(
    request: WebsocketRequest,
    upgrade: UpstreamUpgrade,
    operation: Option<StreamOperation>,
    status: u16,
    headers: http::HeaderMap<http::HeaderValue>,
    answered: (WebsocketRequest, WebsocketAction<F>),
    audited: (WebsocketRequest, WebsocketAction<F>),
    body: Result<Vec<u8>, F>,
    ended: (WebsocketRequest, WebsocketAction<F>),
)
    requires
        request.stage == WebsocketStage::Connecting(upgrade, operation),
        status != 101,
        call_ensures(
            WebsocketRequest::step::<F>,
            (request, WebsocketEvent::Response(Ok((status, headers)))),
            answered,
        ),
        operation is Some ==> call_ensures(
            WebsocketRequest::step::<F>,
            (answered.0, WebsocketEvent::Audited),
            audited,
        ),
        operation is None ==> audited == answered,
        call_ensures(WebsocketRequest::step::<F>, (audited.0, WebsocketEvent::ReplyBody(body)), ended),
    ensures
        operation is Some ==> answered.1 == WebsocketAction::<F>::AuditRejected(status),
        audited.1 is ReadReply,
        match body {
            Ok(bytes) => ended.1 matches WebsocketAction::Done(
                Ok(WebsocketAnswer::Forward(reply, passed)),
            ) && reply.status == status && passed == bytes && fields_view(reply.headers@) == fields(
                headers,
            ).filter(
                |field: (Seq<char>, Seq<u8>)|
                    is_name(vstd::utf8::encode_utf8(field.0)) && is_value(field.1),
            ),
            Err(failure) => ended.1 == WebsocketAction::<F>::Done(
                Err(RequestFailure::Outside(failure)),
            ),
        },
{
    let well_formed = |field: (Seq<char>, Seq<u8>)|
        is_name(vstd::utf8::encode_utf8(field.0)) && is_value(field.1);
    lemma_copied_is_filter(fields(headers));
    assert((|field: (Seq<char>, Seq<u8>)| crate::headers::is_field(field)) =~= well_formed);
}

/// A server that is not reached is a failure of the gateway, and the client is
/// answered with 502.
pub proof fn law_a_server_out_of_reach_is_a_bad_gateway<F>(
    request: WebsocketRequest,
    event: WebsocketEvent<F>,
    asked: (WebsocketRequest, WebsocketAction<F>),
    failure: F,
    r: (WebsocketRequest, WebsocketAction<F>),
)
    requires
        call_ensures(WebsocketRequest::step::<F>, (request, event), asked),
        asked.1 is Connect,
        call_ensures(
            WebsocketRequest::step::<F>,
            (asked.0, WebsocketEvent::Response(Err(failure))),
            r,
        ),
    ensures
        is_bad_gateway(r.1),
{
}

/// An upgrade offers the server what the client offered, and is about one call
/// from its first step to its last.
pub proof fn law_an_upgrade_keeps_to_what_the_client_offered<F>(
    call: WebsocketCall,
    headers: http::HeaderMap<http::HeaderValue>,
    begun: (WebsocketRequest, WebsocketAction<F>),
    offered: Vec<String>,
    request: WebsocketRequest,
    event: WebsocketEvent<F>,
    r: (WebsocketRequest, WebsocketAction<F>),
)
    requires
        call_ensures(handle_websocket_request::<F>, (call, &headers), begun),
        call_ensures(requested_websocket_protocols, (&headers,), offered),
        call_ensures(WebsocketRequest::step::<F>, (request, event), r),
    ensures
        texts(begun.0.protocols@) == texts(offered@),
        r.0.call == request.call,
        r.0.protocols == request.protocols,
        r.1 is Unexpected ==> r.0.stage == request.stage,
{
}

/// A fresh upgrade offers the subprotocols that it was given, and its headers are
/// those of its key and of these.
pub proof fn law_an_upgrade_offers_its_protocols(
    protocols: Vec<String>,
    fresh: UpstreamUpgrade,
    upgrade: UpstreamUpgrade,
    headers: Vec<(String, String)>,
    key: &str,
    written: Vec<(String, String)>,
)
    requires
        call_ensures(UpstreamUpgrade::new, (protocols,), fresh),
        call_ensures(UpstreamUpgrade::headers, (&upgrade,), headers),
        key@ == upgrade.key@,
        call_ensures(upgrade_headers, (key, &upgrade.protocols), written),
    ensures
        fresh.protocols == protocols,
        is_websocket_key(fresh.key@),
        entries_view(headers@) == entries_view(written@),
{
}

/// Checking an answer against a key is checking it against the accept key that
/// the server derives from it.
pub proof fn law_a_key_stands_for_its_accept_key(
    headers: http::HeaderMap<http::HeaderValue>,
    key: &str,
    accept: &str,
    offered: &[String],
    by_key: Result<Option<String>, HandshakeError>,
    by_accept: Result<Option<String>, HandshakeError>,
)
    requires
        accept@ == accept_key(vstd::utf8::encode_utf8(key@)),
        call_ensures(check_upstream_handshake, (&headers, key, offered), by_key),
        call_ensures(check_handshake, (&headers, accept, offered), by_accept),
    ensures
        by_key is Ok <==> by_accept is Ok,
        by_key matches Ok(selected) ==> (by_accept matches Ok(other) && opt_view(selected)
            == opt_view(other)),
        by_key matches Err(fault) ==> (by_accept matches Err(other) && fault_view(fault)
            == fault_view(other)),
{
    assert(crate::websocket::verdict_view(by_key) == crate::websocket::verdict_view(by_accept));
}

/// An upgrade whose answer is faulty is turned down with 502, and the answer to
/// the client carries the very fault that the check of the server's answer
/// names, whether the stream is audited or not.
pub proof fn law_a_turned_down_upgrade_names_its_fault<F>(
    request: WebsocketRequest,
    headers: http::HeaderMap<http::HeaderValue>,
    key: &str,
    offered: &[String],
    fault: HandshakeError,
    r: (WebsocketRequest, WebsocketAction<F>),
    audited: (WebsocketRequest, WebsocketAction<F>),
)
    requires
        request.stage is Connecting,
        key@ == request.stage->Connecting_0.key@,
        offered@ == request.stage->Connecting_0.protocols@,
        call_ensures(check_upstream_handshake, (&headers, key, offered), Err(fault)),
        call_ensures(
            WebsocketRequest::step::<F>,
            (request, WebsocketEvent::Response(Ok((101, headers)))),
            r,
        ),
        call_ensures(WebsocketRequest::step::<F>, (r.0, WebsocketEvent::Audited), audited),
    ensures
        ({
            let told = if request.stage->Connecting_1 is Some {
                audited.1
            } else {
                r.1
            };
            told matches WebsocketAction::Done(
                Ok(WebsocketAnswer::BadGateway { status, fault: Some(named), .. }),
            ) && status == 502 && fault_view(named) == fault_view(fault)
        }),
{
}

/// A server that cannot be reached, or that does not hand its stream over, is
/// turned down with 502 and without a fault; and every such answer has the same
/// text.
pub proof fn law_a_bad_gateway_says_the_connection_failed<F>(
    request: WebsocketRequest,
    event: WebsocketEvent<F>,
    r: (WebsocketRequest, WebsocketAction<F>),
)
    requires
        call_ensures(WebsocketRequest::step::<F>, (request, event), r),
    ensures
        r.1 matches WebsocketAction::Done(
            Ok(WebsocketAnswer::BadGateway { status, message, fault }),
        ) ==> {
            &&& status == 502
            &&& message@ == "Kubernetes API websocket connection failed"@
            &&& (event matches WebsocketEvent::Response(Err(_))) ==> fault is None
            &&& event is Upgraded ==> fault is None
        },
{
}

} // verus!
