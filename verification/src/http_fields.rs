//! The header fields of a message, as the `http` crate holds them.
use vstd::prelude::*;

verus! {

/// The `http` crate's multimap of header fields.
#[verifier::external_type_specification]
#[verifier::external_body]
#[verifier::reject_recursive_types(T)]
pub struct ExHeaderMap<T>(http::HeaderMap<T>);

/// The `http` crate's value of one header field, which is a run of bytes.
#[verifier::external_type_specification]
#[verifier::external_body]
pub struct ExHeaderValue(http::HeaderValue);

/// The bytes that a header value holds.
pub uninterp spec fn value_bytes(value: http::HeaderValue) -> Seq<u8>;

/// The fields that a header map holds, name and value, in the order in which
/// the map is walked: the values of one name stand together, in the order in
/// which they were added.
pub uninterp spec fn fields(headers: http::HeaderMap<http::HeaderValue>) -> Seq<
    (Seq<char>, Seq<u8>),
>;

/// The values of the fields named `name`, in order.
pub open spec fn values_of(list: Seq<(Seq<char>, Seq<u8>)>, name: Seq<char>) -> Seq<Seq<u8>>
    decreases list.len(),
{
    if list.len() == 0 {
        Seq::empty()
    } else if list.last().0 == name {
        values_of(list.drop_last(), name).push(list.last().1)
    } else {
        values_of(list.drop_last(), name)
    }
}

/// A character of a field name in lower case.
pub open spec fn is_name_char(c: char) -> bool {
    ||| 'a' <= c && c <= 'z'
    ||| '0' <= c && c <= '9'
    ||| c == '!' || c == '#' || c == '$' || c == '%' || c == '&' || c == '\''
    ||| c == '*' || c == '+' || c == '-' || c == '.' || c == '^' || c == '_'
    ||| c == '`' || c == '|' || c == '~'
}

/// A field name in lower case.
pub open spec fn is_lower_name(name: Seq<char>) -> bool {
    &&& 0 < name.len() <= 65535
    &&& forall|i: int| 0 <= i < name.len() ==> is_name_char(#[trigger] name[i])
}

/// A printable ASCII character, or a tab.
pub open spec fn is_visible(b: u8) -> bool {
    32 <= b < 127 || b == 9
}

/// The text of a header value, which it has if all of its bytes are visible.
pub open spec fn text_of(bytes: Seq<u8>) -> Option<Seq<char>> {
    if forall|i: int| 0 <= i < bytes.len() ==> is_visible(#[trigger] bytes[i]) {
        Some(Seq::new(bytes.len(), |i: int| bytes[i] as char))
    } else {
        None
    }
}

/// The view of an optional string.
pub open spec fn opt_view(text: Option<String>) -> Option<Seq<char>> {
    match text {
        Some(t) => Some(t@),
        None => None,
    }
}

/// `http::HeaderMap::get`: the first value of the named field.
#[verifier::external_body]
pub(crate) fn header_get<'a>(
    headers: &'a http::HeaderMap<http::HeaderValue>,
    name: &str,
) -> (value: Option<&'a http::HeaderValue>)
    requires
        is_lower_name(name@),
    ensures
        value is Some <==> values_of(fields(*headers), name@).len() > 0,
        value is Some ==> value_bytes(*value->0) == values_of(fields(*headers), name@)[0],
{
    headers.get(name)
}

/// `http::HeaderMap::get_all`: all values of the named field, in order.
#[verifier::external_body]
pub(crate) fn header_get_all<'a>(
    headers: &'a http::HeaderMap<http::HeaderValue>,
    name: &str,
) -> (values: Vec<&'a http::HeaderValue>)
    requires
        is_lower_name(name@),
    ensures
        values@.len() == values_of(fields(*headers), name@).len(),
        forall|i: int| 0 <= i < values@.len() ==> value_bytes(*#[trigger] values@[i]) == values_of(
            fields(*headers),
            name@,
        )[i],
{
    headers.get_all(name).iter().collect()
}

/// `http::HeaderValue::to_str`: the text of the value, if it has one.
#[verifier::external_body]
pub(crate) fn value_text(value: &http::HeaderValue) -> (text: Option<String>)
    ensures
        opt_view(text) == text_of(value_bytes(*value)),
{
    value.to_str().ok().map(str::to_owned)
}

/// `http::HeaderMap::iter`: all fields, in the order in which the map is
/// walked. It is not said that `HeaderName::from_bytes` and
/// `HeaderValue::from_bytes` would accept them: `HeaderName::from_lowercase`
/// makes names with a `"`, which the former refuses, and
/// `HeaderValue::from_maybe_shared_unchecked`, by which `hyper` makes the values
/// of an HTTP/1 response, looks at no byte.
#[verifier::external_body]
pub(crate) fn all_fields<'a>(headers: &'a http::HeaderMap<http::HeaderValue>) -> (list: Vec<
    (String, &'a http::HeaderValue),
>)
    ensures
        list@.len() == fields(*headers).len(),
        forall|i: int| #![trigger list@[i]]
            0 <= i < list@.len() ==> (list@[i].0@, value_bytes(*list@[i].1)) == fields(*headers)[i],
{
    headers.iter().map(|(name, value)| (name.to_string(), value)).collect()
}

/// `http::HeaderValue::as_bytes`: the bytes of the value.
#[verifier::external_body]
pub(crate) fn bytes_of(value: &http::HeaderValue) -> (bytes: &[u8])
    ensures
        bytes@ == value_bytes(*value),
{
    value.as_bytes()
}

/// The bytes of a field name: up to 65535 of them, none of them a delimiter.
pub open spec fn is_name(bytes: Seq<u8>) -> bool {
    &&& 0 < bytes.len() <= 65535
    &&& forall|i: int| 0 <= i < bytes.len() ==> is_name_byte(#[trigger] bytes[i])
}

/// A byte of a field name, in either case.
pub open spec fn is_name_byte(b: u8) -> bool {
    ||| 65 <= b <= 90
    ||| b < 128 && is_name_char(b as char)
}

/// The bytes of a field value: no control characters but the tab.
pub open spec fn is_value(bytes: Seq<u8>) -> bool {
    forall|i: int|
        0 <= i < bytes.len() ==> (32 <= #[trigger] bytes[i] && bytes[i] != 127) || bytes[i] == 9
}

/// The bytes of a request method: the same characters as in a field name.
pub open spec fn is_method(bytes: Seq<u8>) -> bool {
    &&& 0 < bytes.len()
    &&& forall|i: int| 0 <= i < bytes.len() ==> is_name_byte(#[trigger] bytes[i])
}

/// `http::Method::from_bytes`, asked whether it accepts the bytes as a request
/// method.
#[verifier::external_body]
pub(crate) fn is_request_method(bytes: &[u8]) -> (r: bool)
    ensures
        r == is_method(bytes@),
{
    http::Method::from_bytes(bytes).is_ok()
}

/// `http::HeaderName::from_bytes`, asked whether it accepts the bytes as a
/// field name.
#[verifier::external_body]
pub(crate) fn is_field_name(bytes: &[u8]) -> (r: bool)
    ensures
        r == is_name(bytes@),
{
    http::HeaderName::from_bytes(bytes).is_ok()
}

/// `http::HeaderValue::from_bytes`, asked whether it accepts the bytes as a
/// field value.
#[verifier::external_body]
pub(crate) fn is_field_value(bytes: &[u8]) -> (r: bool)
    ensures
        r == is_value(bytes@),
{
    http::HeaderValue::from_bytes(bytes).is_ok()
}

} // verus!
