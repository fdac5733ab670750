//! Which headers of a request reach the cluster, a recording or a log, and
//! which headers of a response reach the client.
use vstd::prelude::*;

use crate::http_fields::{
    all_fields, bytes_of, fields, is_field_name, is_field_value, is_name, is_value, text_of,
    value_bytes, value_text,
};
use crate::text::{
    join, join_texts, list_has, lower, lower_starts_with, same_text, split_on, split_text,
    starts_with, texts, trim, trimmed,
};

verus! {

/// The name of a header with which a caller assumes another identity on the
/// cluster, whatever its case.
pub open spec fn impersonates(name: Seq<char>) -> bool {
    starts_with(lower(name), "impersonate-"@)
}

/// The name of a header whose value is a secret or lets the caller assume
/// another identity.
pub open spec fn is_sensitive(name: Seq<char>) -> bool {
    ||| lower(name) == "authorization"@
    ||| lower(name) == "cookie"@
    ||| impersonates(name)
}

/// Whether a header is a client-supplied impersonation header. Such a header is
/// never forwarded, recorded or logged.
pub fn is_impersonation_header(name: &str) -> (r: bool)
    ensures
        r == impersonates(name@),
{
    lower_starts_with(name, "impersonate-")
}

/// Whether a header's value must never be written to a recording or a log.
pub fn is_sensitive_header(name: &str) -> (r: bool)
    ensures
        r == is_sensitive(name@),
{
    crate::text::lower_is(name, "authorization") || crate::text::lower_is(name, "cookie")
        || is_impersonation_header(name)
}

/// A header name and its value.
pub type Entry = (Seq<char>, Seq<char>);

/// No name occurs twice.
pub open spec fn distinct_names(list: Seq<Entry>) -> bool {
    forall|i: int, j: int|
        0 <= i < j < list.len() ==> (#[trigger] list[i]).0 != (#[trigger] list[j]).0
}

/// The list holds a header named `name`.
pub open spec fn has_name(list: Seq<Entry>, name: Seq<char>) -> bool {
    exists|i: int| 0 <= i < list.len() && (#[trigger] list[i]).0 == name
}

/// The list with `value` under `name`, in the place of an earlier value if
/// there was one.
pub open spec fn put(list: Seq<Entry>, name: Seq<char>, value: Seq<char>) -> Seq<Entry> {
    if has_name(list, name) {
        Seq::new(
            list.len(),
            |i: int|
                if list[i].0 == name {
                    (name, value)
                } else {
                    list[i]
                },
        )
    } else {
        list.push((name, value))
    }
}

/// The names and values of a list of string pairs.
pub open spec fn entries_view(list: Seq<(String, String)>) -> Seq<Entry> {
    Seq::new(list.len(), |i: int| (list[i].0@, list[i].1@))
}

/// Header values by name; a name occurs once.
#[derive(Debug)]
pub struct HeaderFields {
    entries: Vec<(String, String)>,
}

impl View for HeaderFields {
    type V = Seq<Entry>;

    closed spec fn view(&self) -> Seq<Entry> {
        entries_view(self.entries@)
    }
}

impl HeaderFields {
    #[verifier::type_invariant]
    spec fn well_formed(self) -> bool {
        distinct_names(entries_view(self.entries@))
    }

    /// No headers.
    pub fn new() -> (headers: HeaderFields)
        ensures
            headers@ == Seq::<Entry>::empty(),
    {
        let headers: HeaderFields = HeaderFields { entries: Vec::new() };
        assert(headers@ =~= Seq::<Entry>::empty());
        headers
    }

    /// How many headers there are.
    pub fn len(&self) -> (n: usize)
        ensures
            n == self@.len(),
    {
        self.entries.len()
    }

    /// The headers, name and value.
    pub fn entries(&self) -> (list: &Vec<(String, String)>)
        ensures
            entries_view(list@) == self@,
            distinct_names(self@),
    {
        proof {
            use_type_invariant(self);
        }
        &self.entries
    }

    fn position(&self, name: &str) -> (at: Option<usize>)
        ensures
            at is Some <==> has_name(self@, name@),
            at is Some ==> at->0 < self@.len() && self@[at->0 as int].0 == name@,
    {
        let mut i: usize = 0;
        while i < self.entries.len()
            invariant
                i <= self.entries.len(),
                forall|j: int| 0 <= j < i ==> (#[trigger] self@[j]).0 != name@,
            decreases self.entries.len() - i,
        {
            if same_text(self.entries[i].0.as_str(), name) {
                assert(self@[i as int].0 == name@);
                return Some(i);
            }
            i += 1;
        }
        None
    }

    /// Whether there is a header of this very name.
    pub fn contains_key(&self, name: &str) -> (r: bool)
        ensures
            r == has_name(self@, name@),
    {
        self.position(name).is_some()
    }

    /// Puts a header in, in the place of one of the same name.
    pub fn insert(&mut self, name: String, value: String)
        ensures
            final(self)@ == put(old(self)@, name@, value@),
            distinct_names(final(self)@),
    {
        proof {
            use_type_invariant(&*self);
        }
        let ghost before = self@;
        let ghost (n, v) = (name@, value@);
        let at: Option<usize> = self.position(name.as_str());
        let mut entries: Vec<(String, String)> = Vec::new();
        std::mem::swap(&mut entries, &mut self.entries);
        match at {
            Some(i) => {
                entries.set(i, (name, value));
                assert(entries_view(entries@) =~= put(before, n, v)) by {
                    assert forall|j: int| 0 <= j < before.len() && j != i implies before[j].0 != n by {
                        if j < i {
                            assert(before[j].0 != before[i as int].0);
                        } else {
                            assert(before[i as int].0 != before[j].0);
                        }
                    }
                }
            },
            None => {
                entries.push((name, value));
                assert(entries_view(entries@) =~= put(before, n, v));
            },
        }
        assert(distinct_names(entries_view(entries@)));
        self.entries = entries;
    }
}

/// The list without its sensitive headers.
pub open spec fn redacted(list: Seq<Entry>) -> Seq<Entry>
    decreases list.len(),
{
    if list.len() == 0 {
        list
    } else if is_sensitive(list.last().0) {
        redacted(list.drop_last())
    } else {
        redacted(list.drop_last()).push(list.last())
    }
}

/// What redaction keeps was there, and is not sensitive.
pub proof fn law_redaction_keeps_no_secret(list: Seq<Entry>, i: int)
    requires
        0 <= i < redacted(list).len(),
    ensures
        !is_sensitive(redacted(list)[i].0),
        list.contains(redacted(list)[i]),
    decreases list.len(),
{
    let init = list.drop_last();
    if !is_sensitive(list.last().0) && i == redacted(init).len() {
        assert(list[list.len() - 1] == redacted(list)[i]);
    } else {
        law_redaction_keeps_no_secret(init, i);
        let k = choose|k: int| 0 <= k < init.len() && init[k] == redacted(init)[i];
        assert(list[k] == redacted(list)[i]);
    }
}

/// Redaction keeps every header that is not sensitive, with its value.
pub proof fn law_redaction_keeps_the_rest(list: Seq<Entry>, i: int)
    requires
        0 <= i < list.len(),
        !is_sensitive(list[i].0),
    ensures
        redacted(list).contains(list[i]),
    decreases list.len(),
{
    let init = list.drop_last();
    if i == list.len() - 1 {
        assert(redacted(list)[redacted(init).len() as int] == list[i]);
    } else {
        law_redaction_keeps_the_rest(init, i);
        let k = choose|k: int| 0 <= k < redacted(init).len() && redacted(init)[k] == init[i];
        assert(redacted(list)[k] == list[i]);
    }
}

/// Redacting twice is redacting once.
pub proof fn law_redaction_is_idempotent(list: Seq<Entry>)
    ensures
        redacted(redacted(list)) == redacted(list),
    decreases list.len(),
{
    if list.len() > 0 {
        law_redaction_is_idempotent(list.drop_last());
        if !is_sensitive(list.last().0) {
            assert(redacted(list).drop_last() == redacted(list.drop_last()));
        }
    }
}

proof fn lemma_redacted_distinct(list: Seq<Entry>)
    requires
        distinct_names(list),
    ensures
        distinct_names(redacted(list)),
    decreases list.len(),
{
    if list.len() > 0 {
        let init = list.drop_last();
        lemma_redacted_distinct(init);
        assert forall|i: int| 0 <= i < redacted(init).len() implies (#[trigger] redacted(init)[i]).0
            != list.last().0 by {
            law_redaction_keeps_no_secret(init, i);
            let k = choose|k: int| 0 <= k < init.len() && init[k] == redacted(init)[i];
            assert(list[k].0 != list[list.len() - 1].0);
        }
    }
}

/// A copy of `headers` without the sensitive ones, for recording and logging.
pub fn redact_headers(headers: &HeaderFields) -> (r: HeaderFields)
    ensures
        r@ == redacted(headers@),
{
    let list: &Vec<(String, String)> = headers.entries();
    let mut kept: Vec<(String, String)> = Vec::new();
    let mut i: usize = 0;
    let ghost view = headers@;
    assert(entries_view(kept@) =~= redacted(view.take(0)));
    while i < list.len()
        invariant
            i <= list.len(),
            view == entries_view(list@),
            entries_view(kept@) == redacted(view.take(i as int)),
        decreases list.len() - i,
    {
        assert(view.take(i + 1).drop_last() == view.take(i as int));
        assert(view.take(i + 1).last() == view[i as int]);
        let ghost before = entries_view(kept@);
        if !is_sensitive_header(list[i].0.as_str()) {
            kept.push((list[i].0.clone(), list[i].1.clone()));
            assert(entries_view(kept@) =~= before.push(view[i as int]));
        }
        i += 1;
    }
    assert(view.take(view.len() as int) == view);
    proof {
        lemma_redacted_distinct(view);
    }
    HeaderFields { entries: kept }
}

/// The pieces of an `Accept` header, trimmed, but for the protobuf encoding.
pub open spec fn without_protobuf(pieces: Seq<Seq<char>>) -> Seq<Seq<char>>
    decreases pieces.len(),
{
    if pieces.len() == 0 {
        pieces
    } else if trim(pieces.last()) == "application/vnd.kubernetes.protobuf"@ {
        without_protobuf(pieces.drop_last())
    } else {
        without_protobuf(pieces.drop_last()).push(trim(pieces.last()))
    }
}

/// An `Accept` header that no longer asks for the protobuf encoding.
pub open spec fn accept_text(text: Seq<char>) -> Seq<char> {
    join(without_protobuf(split_on(text, ',')), ", "@)
}

/// Takes the protobuf encoding out of an `Accept` header.
pub fn accept_without_protobuf(text: &str) -> (accept: String)
    ensures
        accept@ == accept_text(text@),
{
    let pieces: Vec<String> = split_text(text, ',');
    let mut kept: Vec<String> = Vec::new();
    let mut i: usize = 0;
    let ghost view = texts(pieces@);
    assert(texts(kept@) =~= without_protobuf(view.take(0)));
    while i < pieces.len()
        invariant
            i <= pieces.len(),
            view == texts(pieces@),
            texts(kept@) == without_protobuf(view.take(i as int)),
        decreases pieces.len() - i,
    {
        assert(view.take(i + 1).drop_last() == view.take(i as int));
        assert(view.take(i + 1).last() == pieces@[i as int]@);
        let ghost before = texts(kept@);
        let piece: String = trimmed(pieces[i].as_str());
        if !same_text(piece.as_str(), "application/vnd.kubernetes.protobuf") {
            let ghost text = piece@;
            kept.push(piece);
            assert(texts(kept@) =~= before.push(text));
        }
        i += 1;
    }
    assert(view.take(view.len() as int) == view);
    join_texts(&kept, ", ")
}

/// A request header is taken up: it does not impersonate, and it may be
/// forwarded or says which encodings the client takes.
pub open spec fn taken_up(name: Seq<char>, forwardable: Seq<Seq<char>>) -> bool {
    &&& !impersonates(name)
    &&& forwardable.contains(name) || name == "accept-encoding"@
}

/// The headers of a request that are taken up, with their text. A header whose
/// value is no text is left out, and of several values of one header the last
/// one counts.
pub open spec fn taken_headers(
    list: Seq<(Seq<char>, Seq<u8>)>,
    forwardable: Seq<Seq<char>>,
) -> Seq<Entry>
    decreases list.len(),
{
    if list.len() == 0 {
        Seq::empty()
    } else {
        let before = taken_headers(list.drop_last(), forwardable);
        let (name, bytes) = list.last();
        match text_of(bytes) {
            Some(text) if taken_up(name, forwardable) => put(
                before,
                name,
                if name == "accept"@ {
                    accept_text(text)
                } else {
                    text
                },
            ),
            _ => before,
        }
    }
}

/// The headers of a client's request that the gateway takes up, given the
/// names of those that may be forwarded at all. Client-supplied impersonation
/// is dropped here, so it is neither forwarded nor recorded nor logged.
pub fn take_request_headers(
    headers: &http::HeaderMap<http::HeaderValue>,
    forwardable: &Vec<String>,
) -> (taken: HeaderFields)
    ensures
        taken@ == taken_headers(fields(*headers), texts(forwardable@)),
{
    let list: Vec<(String, &http::HeaderValue)> = all_fields(headers);
    let ghost view = fields(*headers);
    let mut taken: HeaderFields = HeaderFields::new();
    let mut i: usize = 0;
    assert(view.take(0).len() == 0);
    while i < list.len()
        invariant
            i <= list.len(),
            view == fields(*headers),
            list.len() == view.len(),
            forall|j: int| #![trigger list@[j]]
                0 <= j < list@.len() ==> (list@[j].0@, value_bytes(*list@[j].1)) == view[j],
            taken@ == taken_headers(view.take(i as int), texts(forwardable@)),
        decreases list.len() - i,
    {
        assert(view.take(i + 1).drop_last() == view.take(i as int));
        assert(view.take(i + 1).last() == view[i as int]);
        let name: &str = list[i].0.as_str();
        assert((list@[i as int].0@, value_bytes(*list@[i as int].1)) == view[i as int]);
        if !is_impersonation_header(name) && (list_has(forwardable.as_slice(), name) || same_text(
            name,
            "accept-encoding",
        )) {
            match value_text(list[i].1) {
                Some(text) => {
                    let value: String = if same_text(name, "accept") {
                        accept_without_protobuf(text.as_str())
                    } else {
                        text
                    };
                    taken.insert(name.to_owned(), value);
                },
                None => {},
            }
        }
        i += 1;
    }
    assert(view.take(view.len() as int) == view);
    taken
}

/// A header that the gateway sets itself, or that belongs to one connection
/// only.
pub open spec fn set_by_gateway(name: Seq<char>) -> bool {
    ||| lower(name) == "host"@
    ||| lower(name) == "content-length"@
    ||| lower(name) == "connection"@
    ||| lower(name) == "transfer-encoding"@
    ||| lower(name) == "authorization"@
}

/// A taken header is sent on to the cluster.
pub open spec fn sent_upstream(entry: Entry) -> bool {
    &&& !set_by_gateway(entry.0)
    &&& is_name(vstd::utf8::encode_utf8(entry.0))
    &&& is_value(vstd::utf8::encode_utf8(entry.1))
}

/// The headers out of `list` that are sent on to the cluster.
pub open spec fn upstream(list: Seq<Entry>) -> Seq<Entry>
    decreases list.len(),
{
    if list.len() == 0 {
        list
    } else if sent_upstream(list.last()) {
        upstream(list.drop_last()).push(list.last())
    } else {
        upstream(list.drop_last())
    }
}

/// What is sent on to the cluster was taken from the request, and qualifies.
pub proof fn law_upstream_headers_qualify(list: Seq<Entry>, i: int)
    requires
        0 <= i < upstream(list).len(),
    ensures
        list.contains(upstream(list)[i]),
        sent_upstream(upstream(list)[i]),
    decreases list.len(),
{
    let init = list.drop_last();
    if sent_upstream(list.last()) && i == upstream(init).len() {
        assert(list[list.len() - 1] == upstream(list)[i]);
    } else {
        law_upstream_headers_qualify(init, i);
        let k = choose|k: int| 0 <= k < init.len() && init[k] == upstream(init)[i];
        assert(list[k] == upstream(list)[i]);
    }
}

/// No impersonation header of a client is ever taken up, and so none is
/// forwarded, recorded or logged.
pub proof fn law_impersonation_is_never_taken_up(
    list: Seq<(Seq<char>, Seq<u8>)>,
    forwardable: Seq<Seq<char>>,
    i: int,
)
    requires
        0 <= i < taken_headers(list, forwardable).len(),
    ensures
        !impersonates(taken_headers(list, forwardable)[i].0),
        taken_up(taken_headers(list, forwardable)[i].0, forwardable),
    decreases list.len(),
{
    if list.len() > 0 {
        let init = list.drop_last();
        let before = taken_headers(init, forwardable);
        if i < before.len() {
            law_impersonation_is_never_taken_up(init, forwardable, i);
        }
    }
}

/// Neither an impersonation header nor the client's own authorization reaches
/// the cluster.
pub proof fn law_no_client_identity_reaches_the_cluster(
    list: Seq<(Seq<char>, Seq<u8>)>,
    forwardable: Seq<Seq<char>>,
    i: int,
)
    requires
        0 <= i < upstream(taken_headers(list, forwardable)).len(),
    ensures
        !impersonates(upstream(taken_headers(list, forwardable))[i].0),
        lower(upstream(taken_headers(list, forwardable))[i].0) != "authorization"@,
{
    let taken = taken_headers(list, forwardable);
    law_upstream_headers_qualify(taken, i);
    let k = choose|k: int| 0 <= k < taken.len() && taken[k] == upstream(taken)[i];
    law_impersonation_is_never_taken_up(list, forwardable, k);
}

proof fn lemma_upstream_distinct(list: Seq<Entry>)
    requires
        distinct_names(list),
    ensures
        distinct_names(upstream(list)),
    decreases list.len(),
{
    if list.len() > 0 {
        let init = list.drop_last();
        lemma_upstream_distinct(init);
        assert forall|i: int| 0 <= i < upstream(init).len() implies (#[trigger] upstream(init)[i]).0
            != list.last().0 by {
            law_upstream_headers_qualify(init, i);
            let k = choose|k: int| 0 <= k < init.len() && init[k] == upstream(init)[i];
            assert(list[k].0 != list[list.len() - 1].0);
        }
    }
}

fn is_set_by_gateway(name: &str) -> (r: bool)
    ensures
        r == set_by_gateway(name@),
{
    crate::text::lower_is(name, "host") || crate::text::lower_is(name, "content-length")
        || crate::text::lower_is(name, "connection") || crate::text::lower_is(
        name,
        "transfer-encoding",
    ) || crate::text::lower_is(name, "authorization")
}

/// The headers that are sent on to the cluster, out of those taken from a
/// request.
pub fn upstream_headers(headers: &HeaderFields) -> (r: HeaderFields)
    ensures
        r@ == upstream(headers@),
{
    let list: &Vec<(String, String)> = headers.entries();
    let mut kept: Vec<(String, String)> = Vec::new();
    let mut i: usize = 0;
    let ghost view = headers@;
    assert(entries_view(kept@) =~= upstream(view.take(0)));
    while i < list.len()
        invariant
            i <= list.len(),
            view == entries_view(list@),
            entries_view(kept@) == upstream(view.take(i as int)),
        decreases list.len() - i,
    {
        assert(view.take(i + 1).drop_last() == view.take(i as int));
        assert(view.take(i + 1).last() == view[i as int]);
        let ghost before = entries_view(kept@);
        let name: &str = list[i].0.as_str();
        if !is_set_by_gateway(name) && is_field_name(name.as_bytes()) && is_field_value(
            list[i].1.as_str().as_bytes(),
        ) {
            kept.push((list[i].0.clone(), list[i].1.clone()));
            assert(entries_view(kept@) =~= before.push(view[i as int]));
        }
        i += 1;
    }
    assert(view.take(view.len() as int) == view);
    proof {
        lemma_upstream_distinct(view);
    }
    HeaderFields { entries: kept }
}

/// A well-formed header field.
pub open spec fn is_field(field: (Seq<char>, Seq<u8>)) -> bool {
    is_name(vstd::utf8::encode_utf8(field.0)) && is_value(field.1)
}

/// The fields of a response that the client gets: those that are well-formed
/// header fields.
pub open spec fn copied(list: Seq<(Seq<char>, Seq<u8>)>) -> Seq<(Seq<char>, Seq<u8>)>
    decreases list.len(),
{
    if list.len() == 0 {
        list
    } else if is_field(list.last()) {
        copied(list.drop_last()).push(list.last())
    } else {
        copied(list.drop_last())
    }
}

/// Every well-formed header field of a response is passed on, whatever the others
/// are: a repeated one each time, and all of them in order, since each stands
/// right behind those that were passed on before it.
pub proof fn law_every_well_formed_response_header_is_copied(
    list: Seq<(Seq<char>, Seq<u8>)>,
    i: int,
)
    requires
        0 <= i < list.len(),
        is_field(list[i]),
    ensures
        copied(list.take(i)).len() < copied(list).len(),
        copied(list)[copied(list.take(i)).len() as int] == list[i],
    decreases list.len(),
{
    let init = list.drop_last();
    if i == list.len() - 1 {
        assert(list.take(i) == init);
    } else {
        assert(init[i] == list[i]);
        assert(init.take(i) == list.take(i));
        law_every_well_formed_response_header_is_copied(init, i);
    }
}

/// A response is passed on with all of its header fields exactly if they are all
/// well-formed, and their number tells.
pub proof fn law_a_response_keeps_its_headers_if_all_are_well_formed(
    list: Seq<(Seq<char>, Seq<u8>)>,
)
    ensures
        copied(list).len() <= list.len(),
        copied(list).len() == list.len() <==> copied(list) == list,
        copied(list) == list <==> forall|i: int|
            0 <= i < list.len() ==> is_field(#[trigger] list[i]),
    decreases list.len(),
{
    if list.len() > 0 {
        let init = list.drop_last();
        law_a_response_keeps_its_headers_if_all_are_well_formed(init);
        assert(init.push(list.last()) =~= list);
        if copied(list) == list {
            assert forall|i: int| 0 <= i < list.len() implies is_field(#[trigger] list[i]) by {
                if i < init.len() {
                    assert(init[i] == list[i]);
                }
            }
        }
        if forall|i: int| 0 <= i < list.len() ==> is_field(#[trigger] list[i]) {
            assert forall|i: int| 0 <= i < init.len() implies is_field(#[trigger] init[i]) by {
                assert(init[i] == list[i]);
            }
            assert(is_field(list[list.len() - 1]));
        }
    }
}

/// The names and values of a list of response fields.
pub open spec fn fields_view(list: Seq<(String, Vec<u8>)>) -> Seq<(Seq<char>, Seq<u8>)> {
    Seq::new(list.len(), |i: int| (list[i].0@, list[i].1@))
}

/// The fields of an upstream response that are copied onto the response to the
/// client, repeated fields included.
pub fn copy_response_headers(headers: &http::HeaderMap<http::HeaderValue>) -> (r: Vec<
    (String, Vec<u8>),
>)
    ensures
        fields_view(r@) == copied(fields(*headers)),
{
    let list: Vec<(String, &http::HeaderValue)> = all_fields(headers);
    let ghost view = fields(*headers);
    let mut kept: Vec<(String, Vec<u8>)> = Vec::new();
    let mut i: usize = 0;
    assert(fields_view(kept@) =~= copied(view.take(0)));
    while i < list.len()
        invariant
            i <= list.len(),
            view == fields(*headers),
            list.len() == view.len(),
            forall|j: int| #![trigger list@[j]]
                0 <= j < list@.len() ==> (list@[j].0@, value_bytes(*list@[j].1)) == view[j],
            fields_view(kept@) == copied(view.take(i as int)),
        decreases list.len() - i,
    {
        assert(view.take(i + 1).drop_last() == view.take(i as int));
        assert(view.take(i + 1).last() == view[i as int]);
        assert((list@[i as int].0@, value_bytes(*list@[i as int].1)) == view[i as int]);
        let ghost before = fields_view(kept@);
        let bytes: &[u8] = bytes_of(list[i].1);
        if is_field_name(list[i].0.as_str().as_bytes()) && is_field_value(bytes) {
            let value: Vec<u8> = vstd::slice::slice_to_vec(bytes);
            kept.push((list[i].0.clone(), value));
            assert(fields_view(kept@) =~= before.push(view[i as int]));
        }
        i += 1;
    }
    assert(view.take(view.len() as int) == view);
    kept
}

/// The decoded pairs of a query string.
pub uninterp spec fn query_pairs(query: Seq<u8>) -> Seq<(Seq<char>, Seq<char>)>;

/// `url::form_urlencoded::parse`: the decoded pairs of the query, in order,
/// which depend on the query alone.
#[verifier::external_body]
fn parse_query(query: &[u8]) -> (pairs: Vec<(String, String)>)
    ensures
        entries_view(pairs@) == query_pairs(query@),
{
    url::form_urlencoded::parse(query).into_owned().collect()
}

/// A query asks for changes or for a log to be followed.
pub open spec fn asks_to_stream(pairs: Seq<(Seq<char>, Seq<char>)>) -> bool {
    exists|i: int|
        0 <= i < pairs.len() && ((#[trigger] pairs[i]).0 == "watch"@ || pairs[i].0 == "follow"@)
            && pairs[i].1 == "true"@
}

/// The transfer encoding of a response is `chunked`, whatever its case.
pub open spec fn is_chunked(list: Seq<(Seq<char>, Seq<u8>)>) -> bool {
    let values = crate::http_fields::values_of(list, "transfer-encoding"@);
    &&& values.len() > 0
    &&& text_of(values[0]) matches Some(text) && lower(text) == "chunked"@
}

/// Whether the pairs of a query ask for changes (`watch=true`) or for a log to
/// be followed (`follow=true`).
pub fn query_streams(pairs: &Vec<(String, String)>) -> (r: bool)
    ensures
        r == asks_to_stream(entries_view(pairs@)),
{
    let mut i: usize = 0;
    let ghost view = entries_view(pairs@);
    while i < pairs.len()
        invariant
            i <= pairs.len(),
            view == entries_view(pairs@),
            forall|j: int|
                0 <= j < i ==> !(((#[trigger] view[j]).0 == "watch"@ || view[j].0 == "follow"@)
                    && view[j].1 == "true"@),
        decreases pairs.len() - i,
    {
        assert(view[i as int] == (pairs@[i as int].0@, pairs@[i as int].1@));
        let key: &str = pairs[i].0.as_str();
        if (same_text(key, "watch") || same_text(key, "follow")) && same_text(
            pairs[i].1.as_str(),
            "true",
        ) {
            return true;
        }
        i += 1;
    }
    false
}

/// Whether a response is passed on as a stream: it is chunked, or the request
/// asked to watch or to follow.
pub fn is_streaming_response(
    response_headers: &http::HeaderMap<http::HeaderValue>,
    query: Option<&str>,
) -> (r: bool)
    ensures
        r == (is_chunked(fields(*response_headers)) || query is Some && asks_to_stream(
            query_pairs(vstd::utf8::encode_utf8(query->0@)),
        )),
{
    proof {
        reveal_strlit("transfer-encoding");
    }
    let chunked: bool = match crate::http_fields::header_get(response_headers, "transfer-encoding") {
        None => false,
        Some(value) => match value_text(value) {
            None => false,
            Some(text) => crate::text::lower_is(text.as_str(), "chunked"),
        },
    };
    if chunked {
        return true;
    }
    match query {
        None => false,
        Some(query) => {
            let pairs: Vec<(String, String)> = parse_query(query.as_bytes());
            query_streams(&pairs)
        },
    }
}

} // verus!
