//! What taking, redacting and passing on headers comes to, header by header.
use vstd::prelude::*;

use crate::headers::{
    accept_text, accept_without_protobuf, copied, copy_response_headers, entries_view, fields_view,
    is_field, is_impersonation_header, is_sensitive_header, put, query_streams, redact_headers,
    redacted, take_request_headers, taken_headers, upstream, upstream_headers, without_protobuf,
    Entry, HeaderFields,
};
use crate::http_fields::{fields, is_name, is_value, is_visible, text_of, values_of};
use crate::text::{join, lower, split_on, starts_with, texts, trim};

verus! {

/// Copying a response's fields keeps those that are well formed, in order.
pub proof fn lemma_copied_is_filter(list: Seq<(Seq<char>, Seq<u8>)>)
    ensures
        copied(list) == list.filter(|field: (Seq<char>, Seq<u8>)| is_field(field)),
    decreases list.len(),
{
    reveal(Seq::filter);
    if list.len() > 0 {
        lemma_copied_is_filter(list.drop_last());
    }
}

/// What goes on to the cluster is every header that was taken up, but for those
/// that the gateway sets, that belong to one connection, or that are malformed.
pub proof fn lemma_upstream_is_filter(list: Seq<Entry>, entry: Entry)
    ensures
        upstream(list).contains(entry) <==> list.contains(entry) && lower(entry.0) != "host"@
            && lower(entry.0) != "content-length"@ && lower(entry.0) != "connection"@ && lower(
            entry.0,
        ) != "transfer-encoding"@ && lower(entry.0) != "authorization"@ && is_name(
            vstd::utf8::encode_utf8(entry.0),
        ) && is_value(vstd::utf8::encode_utf8(entry.1)),
    decreases list.len(),
{
    if list.len() > 0 {
        let init = list.drop_last();
        lemma_upstream_is_filter(init, entry);
        lemma_contains_push(init, list.last(), entry);
        assert(init.push(list.last()) =~= list);
        lemma_contains_push(upstream(init), list.last(), entry);
    }
}

proof fn lemma_contains_push<A>(list: Seq<A>, last: A, item: A)
    ensures
        list.push(last).contains(item) <==> list.contains(item) || item == last,
{
    if list.contains(item) {
        let k = choose|k: int| 0 <= k < list.len() && list[k] == item;
        assert(list.push(last)[k] == item);
    }
    assert(list.push(last)[list.len() as int] == last);
    if list.push(last).contains(item) && item != last {
        let k = choose|k: int| 0 <= k < list.push(last).len() && list.push(last)[k] == item;
        assert(list[k] == item);
    }
}

/// What is recorded is every header that was taken up, but for the credentials,
/// the cookies and the headers that impersonate.
pub proof fn lemma_redacted_is_filter(list: Seq<Entry>, entry: Entry)
    ensures
        redacted(list).contains(entry) <==> list.contains(entry) && lower(entry.0)
            != "authorization"@ && lower(entry.0) != "cookie"@ && !starts_with(
            lower(entry.0),
            "impersonate-"@,
        ),
    decreases list.len(),
{
    if list.len() > 0 {
        let init = list.drop_last();
        lemma_redacted_is_filter(init, entry);
        lemma_contains_push(init, list.last(), entry);
        assert(init.push(list.last()) =~= list);
        lemma_contains_push(redacted(init), list.last(), entry);
    }
}

/// A header impersonates exactly if its name begins with `impersonate-`, in
/// whatever case.
pub proof fn law_what_impersonates(name: &str, r: bool)
    requires
        call_ensures(is_impersonation_header, (name,), r),
    ensures
        r <==> starts_with(lower(name@), "impersonate-"@),
{
}

/// A header is sensitive exactly if it is the authorization or the cookies of the
/// client, or impersonates, in whatever case its name is written.
pub proof fn law_what_is_sensitive(name: &str, r: bool)
    requires
        call_ensures(is_sensitive_header, (name,), r),
    ensures
        r <==> lower(name@) == "authorization"@ || lower(name@) == "cookie"@ || starts_with(
            lower(name@),
            "impersonate-"@,
        ),
{
}

/// Redacting keeps exactly the headers that are not sensitive, each with its
/// value.
pub proof fn law_redaction_keeps_exactly_the_rest(
    headers: HeaderFields,
    r: HeaderFields,
    entry: Entry,
)
    requires
        call_ensures(redact_headers, (&headers,), r),
    ensures
        r@.contains(entry) <==> headers@.contains(entry) && lower(entry.0) != "authorization"@
            && lower(entry.0) != "cookie"@ && !starts_with(lower(entry.0), "impersonate-"@),
{
    lemma_redacted_is_filter(headers@, entry);
}

/// What is sent on is exactly the headers that the gateway does not set itself,
/// that belong to no single connection and that are well formed, each with its
/// value.
pub proof fn law_exactly_the_rest_is_sent_on(headers: HeaderFields, r: HeaderFields, entry: Entry)
    requires
        call_ensures(upstream_headers, (&headers,), r),
    ensures
        r@.contains(entry) <==> headers@.contains(entry) && lower(entry.0) != "host"@ && lower(
            entry.0,
        ) != "content-length"@ && lower(entry.0) != "connection"@ && lower(entry.0)
            != "transfer-encoding"@ && lower(entry.0) != "authorization"@ && is_name(
            vstd::utf8::encode_utf8(entry.0),
        ) && is_value(vstd::utf8::encode_utf8(entry.1)),
{
    lemma_upstream_is_filter(headers@, entry);
}

/// The client gets exactly the well-formed fields of a response, repeated ones
/// each time, in order, with their values.
pub proof fn law_exactly_the_well_formed_fields_are_copied(
    headers: http::HeaderMap<http::HeaderValue>,
    r: Vec<(String, Vec<u8>)>,
)
    requires
        call_ensures(copy_response_headers, (&headers,), r),
    ensures
        fields_view(r@) == fields(headers).filter(
            |field: (Seq<char>, Seq<u8>)|
                is_name(vstd::utf8::encode_utf8(field.0)) && is_value(field.1),
        ),
{
    let well_formed = |field: (Seq<char>, Seq<u8>)|
        is_name(vstd::utf8::encode_utf8(field.0)) && is_value(field.1);
    lemma_copied_is_filter(fields(headers));
    assert((|field: (Seq<char>, Seq<u8>)| is_field(field)) =~= well_formed);
}

proof fn lemma_put(list: Seq<Entry>, name: Seq<char>, value: Seq<char>, entry: Entry)
    requires
        crate::headers::distinct_names(list),
    ensures
        put(list, name, value).contains(entry) <==> entry == (name, value) || list.contains(entry)
            && entry.0 != name,
        crate::headers::distinct_names(put(list, name, value)),
{
    let after = put(list, name, value);
    if crate::headers::has_name(list, name) {
        let k = choose|k: int| 0 <= k < list.len() && (#[trigger] list[k]).0 == name;
        assert(after[k] == (name, value));
        if after.contains(entry) && entry != (name, value) {
            let i = choose|i: int| 0 <= i < after.len() && after[i] == entry;
            assert(list[i] == entry);
        }
        if list.contains(entry) && entry.0 != name {
            let i = choose|i: int| 0 <= i < list.len() && list[i] == entry;
            assert(after[i] == entry);
        }
    } else {
        lemma_contains_push(list, (name, value), entry);
        if list.contains(entry) {
            let i = choose|i: int| 0 <= i < list.len() && list[i] == entry;
            assert(list[i].0 != name);
        }
    }
}

/// Putting a header in replaces the one of its name, if there was one, and leaves
/// every other as it was.
pub proof fn law_a_header_replaces_its_namesake(
    headers: &mut HeaderFields,
    name: String,
    value: String,
    entry: Entry,
)
    requires
        crate::headers::distinct_names(old(headers)@),
        call_ensures(HeaderFields::insert, (headers, name, value), ()),
    ensures
        final(headers)@.contains(entry) <==> entry == (name@, value@) || old(headers)@.contains(
            entry,
        ) && entry.0 != name@,
{
    lemma_put(old(headers)@, name@, value@, entry);
}

/// Field `i` of a request is one that is taken up: it is text, it does not
/// impersonate, and it may be forwarded or says which encodings the client takes.
pub open spec fn is_taken(
    list: Seq<(Seq<char>, Seq<u8>)>,
    forwardable: Seq<Seq<char>>,
    i: int,
) -> bool {
    &&& 0 <= i < list.len()
    &&& text_of(list[i].1) is Some
    &&& !starts_with(lower(list[i].0), "impersonate-"@)
    &&& forwardable.contains(list[i].0) || list[i].0 == "accept-encoding"@
}

/// What is taken of such a field: its text, and of an `accept` field the text
/// without the protobuf encoding.
pub open spec fn taken_text(field: (Seq<char>, Seq<u8>)) -> Seq<char> {
    if field.0 == "accept"@ {
        accept_text(text_of(field.1)->0)
    } else {
        text_of(field.1)->0
    }
}

proof fn lemma_taken(
    list: Seq<(Seq<char>, Seq<u8>)>,
    forwardable: Seq<Seq<char>>,
    entry: Entry,
)
    ensures
        crate::headers::distinct_names(taken_headers(list, forwardable)),
        taken_headers(list, forwardable).contains(entry) <==> exists|i: int| #[trigger]
            is_taken(list, forwardable, i) && list[i].0 == entry.0 && taken_text(list[i]) == entry.1
                && forall|j: int|
                i < j && #[trigger] is_taken(list, forwardable, j) ==> list[j].0 != entry.0,
    decreases list.len(),
{
    if list.len() > 0 {
        let init = list.drop_last();
        let last = list.len() - 1;
        let before = taken_headers(init, forwardable);
        lemma_taken(init, forwardable, entry);
        assert forall|j: int| 0 <= j < last implies #[trigger] is_taken(list, forwardable, j)
            == is_taken(init, forwardable, j) by {
            assert(init[j] == list[j]);
        }
        assert forall|j: int| #[trigger] is_taken(init, forwardable, j) implies is_taken(
            list,
            forwardable,
            j,
        ) by {
            assert(init[j] == list[j]);
        }
        if is_taken(list, forwardable, last) {
            lemma_put(before, list[last].0, taken_text(list[last]), entry);
            if entry.0 == list[last].0 {
                if entry.1 == taken_text(list[last]) {
                    assert(is_taken(list, forwardable, last));
                }
            } else {
                lemma_taken_by_earlier(list, forwardable, entry);
            }
        } else {
            lemma_taken_by_earlier(list, forwardable, entry);
        }
    }
}

proof fn lemma_taken_by_earlier(
    list: Seq<(Seq<char>, Seq<u8>)>,
    forwardable: Seq<Seq<char>>,
    entry: Entry,
)
    requires
        list.len() > 0,
        is_taken(list, forwardable, list.len() - 1) ==> list.last().0 != entry.0,
    ensures
        (exists|i: int| #[trigger]
            is_taken(list, forwardable, i) && list[i].0 == entry.0 && taken_text(list[i]) == entry.1
                && forall|j: int|
                i < j && #[trigger] is_taken(list, forwardable, j) ==> list[j].0 != entry.0) <==> (
        exists|i: int| #[trigger]
            is_taken(list.drop_last(), forwardable, i) && list.drop_last()[i].0 == entry.0
                && taken_text(list.drop_last()[i]) == entry.1 && forall|j: int|
                i < j && #[trigger] is_taken(list.drop_last(), forwardable, j)
                    ==> list.drop_last()[j].0 != entry.0),
{
    let init = list.drop_last();
    if exists|i: int| #[trigger]
        is_taken(list, forwardable, i) && list[i].0 == entry.0 && taken_text(list[i]) == entry.1
            && forall|j: int|
            i < j && #[trigger] is_taken(list, forwardable, j) ==> list[j].0 != entry.0 {
        let i = choose|i: int| #[trigger]
            is_taken(list, forwardable, i) && list[i].0 == entry.0 && taken_text(list[i]) == entry.1
                && forall|j: int|
                i < j && #[trigger] is_taken(list, forwardable, j) ==> list[j].0 != entry.0;
        assert(is_taken(init, forwardable, i));
        assert forall|j: int| i < j && #[trigger] is_taken(init, forwardable, j) implies init[j].0
            != entry.0 by {
            assert(is_taken(list, forwardable, j));
        }
    }
    if exists|i: int| #[trigger]
        is_taken(init, forwardable, i) && init[i].0 == entry.0 && taken_text(init[i]) == entry.1
            && forall|j: int|
            i < j && #[trigger] is_taken(init, forwardable, j) ==> init[j].0 != entry.0 {
        let i = choose|i: int| #[trigger]
            is_taken(init, forwardable, i) && init[i].0 == entry.0 && taken_text(init[i]) == entry.1
                && forall|j: int|
                i < j && #[trigger] is_taken(init, forwardable, j) ==> init[j].0 != entry.0;
        assert(is_taken(list, forwardable, i));
        assert forall|j: int| i < j && #[trigger] is_taken(list, forwardable, j) implies list[j].0
            != entry.0 by {
            if j < list.len() - 1 {
                assert(is_taken(init, forwardable, j));
            }
        }
    }
}

/// The gateway takes up exactly the text fields of a request that do not
/// impersonate and that may be forwarded, and the encodings that the client
/// takes; of several fields of one name the last counts.
pub proof fn law_exactly_the_forwardable_fields_are_taken_up(
    headers: http::HeaderMap<http::HeaderValue>,
    forwardable: Vec<String>,
    taken: HeaderFields,
    entry: Entry,
)
    requires
        call_ensures(take_request_headers, (&headers, &forwardable), taken),
    ensures
        taken@.contains(entry) <==> exists|i: int| #[trigger]
            is_taken(fields(headers), texts(forwardable@), i) && fields(headers)[i].0 == entry.0
                && taken_text(fields(headers)[i]) == entry.1 && forall|j: int|
                i < j && #[trigger] is_taken(fields(headers), texts(forwardable@), j) ==> fields(
                    headers,
                )[j].0 != entry.0,
{
    lemma_taken(fields(headers), texts(forwardable@), entry);
}

proof fn lemma_without_protobuf(pieces: Seq<Seq<char>>)
    ensures
        without_protobuf(pieces) == pieces.map_values(|piece: Seq<char>| trim(piece)).filter(
            |piece: Seq<char>| piece != "application/vnd.kubernetes.protobuf"@,
        ),
    decreases pieces.len(),
{
    reveal(Seq::filter);
    let trims = |piece: Seq<char>| trim(piece);
    if pieces.len() > 0 {
        lemma_without_protobuf(pieces.drop_last());
        assert(pieces.map_values(trims).drop_last() =~= pieces.drop_last().map_values(trims));
        assert(pieces.map_values(trims).last() == trim(pieces.last()));
    }
}

/// An `Accept` header keeps all of its comma-separated entries, trimmed and in
/// order, but for the protobuf encoding.
pub proof fn law_only_protobuf_leaves_an_accept_header(text: &str, accept: String)
    requires
        call_ensures(accept_without_protobuf, (text,), accept),
    ensures
        accept@ == join(
            split_on(text@, ',').map_values(|piece: Seq<char>| trim(piece)).filter(
                |piece: Seq<char>| piece != "application/vnd.kubernetes.protobuf"@,
            ),
            ", "@,
        ),
{
    lemma_without_protobuf(split_on(text@, ','));
}

/// A query asks for a stream exactly if one of its pairs is `watch=true` or
/// `follow=true`.
pub proof fn law_what_asks_for_a_stream(pairs: Vec<(String, String)>, r: bool)
    requires
        call_ensures(query_streams, (&pairs,), r),
    ensures
        r <==> entries_view(pairs@).contains(("watch"@, "true"@)) || entries_view(pairs@).contains(
            ("follow"@, "true"@),
        ),
{
    let view = entries_view(pairs@);
    if view.contains(("watch"@, "true"@)) {
        let i = choose|i: int| 0 <= i < view.len() && view[i] == ("watch"@, "true"@);
        assert(view[i].0 == "watch"@);
    }
    if view.contains(("follow"@, "true"@)) {
        let i = choose|i: int| 0 <= i < view.len() && view[i] == ("follow"@, "true"@);
        assert(view[i].0 == "follow"@);
    }
    if crate::headers::asks_to_stream(view) {
        let i = choose|i: int|
            0 <= i < view.len() && ((#[trigger] view[i]).0 == "watch"@ || view[i].0 == "follow"@)
                && view[i].1 == "true"@;
        assert(view[i] == (view[i].0, view[i].1));
    }
}

/// The values of a name are those of the fields of that name, all of them and in
/// order.
pub proof fn law_the_values_of_a_name(list: Seq<(Seq<char>, Seq<u8>)>, name: Seq<char>)
    ensures
        values_of(list, name) == list.filter(
            |field: (Seq<char>, Seq<u8>)| field.0 == name,
        ).map_values(|field: (Seq<char>, Seq<u8>)| field.1),
    decreases list.len(),
{
    reveal(Seq::filter);
    let named = |field: (Seq<char>, Seq<u8>)| field.0 == name;
    let value = |field: (Seq<char>, Seq<u8>)| field.1;
    if list.len() > 0 {
        law_the_values_of_a_name(list.drop_last(), name);
        let init = list.drop_last().filter(named);
        if list.last().0 == name {
            assert(init.push(list.last()).map_values(value) =~= init.map_values(value).push(
                list.last().1,
            ));
        }
    } else {
        assert(values_of(list, name) =~= list.filter(named).map_values(value));
    }
}

/// A header is there exactly if one of the headers has its name.
pub proof fn law_a_header_is_there_by_its_name(headers: HeaderFields, name: &str, r: bool)
    requires
        call_ensures(HeaderFields::contains_key, (&headers, name), r),
    ensures
        r <==> exists|i: int| 0 <= i < headers@.len() && (#[trigger] headers@[i]).0 == name@,
{
}

/// A value is text exactly if every byte of it is printable ASCII, a space or a
/// tab, and the text has one character for each byte.
pub proof fn law_what_value_is_text(bytes: Seq<u8>, i: int)
    ensures
        text_of(bytes) is Some <==> forall|k: int|
            0 <= k < bytes.len() ==> (#[trigger] bytes[k]) == 9 || (bytes[k] >= 32 && bytes[k]
                <= 126),
        text_of(bytes) matches Some(text) ==> text.len() == bytes.len() && (0 <= i < bytes.len()
            ==> text[i] as u32 == bytes[i]),
{
    if text_of(bytes) is Some {
        assert forall|k: int| 0 <= k < bytes.len() implies (#[trigger] bytes[k]) == 9 || (bytes[k]
            >= 32 && bytes[k] <= 126) by {
            assert(is_visible(bytes[k]));
        }
    } else {
        let k = choose|k: int| 0 <= k < bytes.len() && !is_visible(#[trigger] bytes[k]);
        assert(bytes[k] != 9 && !(bytes[k] >= 32 && bytes[k] <= 126));
    }
}

} // verus!
