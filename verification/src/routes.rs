//! Paths and URLs of Kubernetes API requests: which target a path names, and
//! which URL of the cluster it stands for.
use vstd::prelude::*;

use crate::text::{
    find_char, first_position, lower, split_on, starts_with, trim_start_of, without_leading,
};

verus! {

/// The `url` crate's account of why a text is no URL.
#[verifier::external_type_specification]
#[verifier::external_body]
pub struct ExUrlParseError(url::ParseError);

/// The serialization of the URL that a text parses to, if it is a URL.
pub uninterp spec fn parsed_url(text: Seq<char>) -> Option<Seq<char>>;

/// The path of the URL that a text parses to, if it is a URL: the path in the
/// serialization, with its `.` and `..` segments resolved.
pub uninterp spec fn parsed_path(text: Seq<char>) -> Option<Seq<char>>;

/// `url::Url::parse`: the serialization of the URL that the text parses to.
/// Which texts are URLs, and how each is written out, depends on the text
/// alone.
#[verifier::external_body]
fn parse_url(text: &str) -> (r: Result<String, url::ParseError>)
    ensures
        r is Ok <==> parsed_url(text@) is Some,
        r is Ok ==> Some(r->Ok_0@) == parsed_url(text@),
{
    url::Url::parse(text).map(String::from)
}

/// The text of a path segment that stands for the segment itself or for the one
/// above, percent-encoded or not.
pub open spec fn is_dot_segment(segment: Seq<char>) -> bool {
    ||| lower(segment) == "."@
    ||| lower(segment) == "%2e"@
    ||| lower(segment) == ".."@
    ||| lower(segment) == ".%2e"@
    ||| lower(segment) == "%2e."@
    ||| lower(segment) == "%2e%2e"@
}

/// A path from the root without dot segments.
pub open spec fn is_resolved(path: Seq<char>) -> bool {
    &&& path.len() > 0 && path[0] == '/'
    &&& forall|i: int|
        0 <= i < split_on(path, '/').len() ==> !is_dot_segment(#[trigger] split_on(path, '/')[i])
}

/// `url::Url::path`: the path of the URL that the text parses to, which there
/// is for exactly the texts that are URLs. For a text on the local host it
/// begins at the root, and parsing has taken its dot segments out.
#[verifier::external_body]
fn parse_path(text: &str) -> (r: Result<String, url::ParseError>)
    ensures
        r is Ok <==> parsed_url(text@) is Some,
        r is Ok <==> parsed_path(text@) is Some,
        r is Ok ==> Some(r->Ok_0@) == parsed_path(text@),
        r is Ok && starts_with(text@, "http://localhost/"@) ==> is_resolved(r->Ok_0@),
{
    url::Url::parse(text).map(|url| url.path().to_owned())
}

/// The value of a hexadecimal digit.
pub open spec fn hex_value(b: u8) -> Option<int> {
    if 48 <= b <= 57 {
        Some(b - 48)
    } else if 65 <= b <= 70 {
        Some(b - 55)
    } else if 97 <= b <= 102 {
        Some(b - 87)
    } else {
        None
    }
}

/// The bytes with every `%` that two hexadecimal digits follow replaced, with
/// them, by the byte that the digits denote.
pub open spec fn percent_decoded(bytes: Seq<u8>) -> Seq<u8>
    decreases bytes.len(),
{
    if bytes.len() == 0 {
        Seq::empty()
    } else if bytes.len() >= 3 && bytes[0] == 37 && hex_value(bytes[1]) is Some && hex_value(
        bytes[2],
    ) is Some {
        seq![(hex_value(bytes[1])->0 * 16 + hex_value(bytes[2])->0) as u8] + percent_decoded(
            bytes.skip(3),
        )
    } else {
        seq![bytes[0]] + percent_decoded(bytes.drop_first())
    }
}

/// The text that a percent-encoded text stands for, if its decoded bytes are
/// UTF-8.
pub open spec fn decoded_text(text: Seq<char>) -> Option<Seq<char>> {
    let bytes = percent_decoded(vstd::utf8::encode_utf8(text));
    if vstd::utf8::valid_utf8(bytes) {
        Some(vstd::utf8::decode_utf8(bytes))
    } else {
        None
    }
}

/// `percent_encoding::percent_decode_str`, decoded as UTF-8: the text that the
/// argument stands for, or nothing if its decoded bytes are not UTF-8.
#[verifier::external_body]
fn percent_decode(text: &str) -> (decoded: Option<String>)
    ensures
        decoded is Some <==> decoded_text(text@) is Some,
        decoded is Some ==> Some(decoded->0@) == decoded_text(text@),
{
    percent_encoding::percent_decode_str(text).decode_utf8().ok().map(|text| text.into_owned())
}

/// Why a request path names no target.
#[derive(Debug)]
pub enum RouteError {
    /// The path has not the form of a target and a path below it.
    NotFound,
    /// The target's name is no text.
    InvalidTargetName,
    /// The path below the target is no URL path.
    InvalidPath(url::ParseError),
}

impl RouteError {
    /// The status that a request without a route is answered with.
    pub open spec fn spec_status(self) -> u16 {
        match self {
            RouteError::NotFound => 404,
            RouteError::InvalidTargetName | RouteError::InvalidPath(_) => 400,
        }
    }

    pub fn status(&self) -> (status: u16)
        ensures
            status == self.spec_status(),
    {
        match self {
            RouteError::NotFound => 404,
            RouteError::InvalidTargetName | RouteError::InvalidPath(_) => 400,
        }
    }
}

/// The cluster's address does not make a URL with the path of a request.
#[derive(Debug)]
pub struct TargetUrlError {
    pub source: url::ParseError,
}

/// The path is `/<target>/<rest>` with a target name that is not empty.
pub open spec fn names_target(path: Seq<char>) -> bool {
    &&& path.len() > 0 && path[0] == '/'
    &&& 0 < first_position(path.skip(1), '/') < path.skip(1).len()
}

/// The target name in a path, still percent-encoded.
pub open spec fn target_part(path: Seq<char>) -> Seq<char> {
    path.skip(1).take(first_position(path.skip(1), '/'))
}

/// What stands below the target name in a path.
pub open spec fn rest_part(path: Seq<char>) -> Seq<char> {
    path.skip(1).skip(first_position(path.skip(1), '/') + 1)
}

/// Splits `/<target>/<rest>` into the decoded target name and the rest as it
/// stands: only the target selector is decoded, upstream paths keep their
/// escaping.
pub fn named_target_path(path: &str) -> (r: Result<(String, String), RouteError>)
    ensures
        r is Ok <==> names_target(path@) && decoded_text(target_part(path@)) is Some,
        r matches Ok(parts) ==> Some(parts.0@) == decoded_text(target_part(path@)) && parts.1@
            == rest_part(path@),
        r matches Err(error) ==> (error is NotFound <==> !names_target(path@)),
        r matches Err(error) ==> error is NotFound || error is InvalidTargetName,
{
    let chars: Vec<char> = crate::text::chars_of(path);
    if chars.len() == 0 || chars[0] != '/' {
        return Err(RouteError::NotFound);
    }
    let below: &str = path.substring_char(1, chars.len());
    assert(below@ == path@.skip(1));
    let at: usize = find_char(below, '/');
    if at == 0 || at >= chars.len() - 1 {
        return Err(RouteError::NotFound);
    }
    let target: &str = below.substring_char(0, at);
    assert(target@ == target_part(path@));
    let rest: &str = below.substring_char(at + 1, chars.len() - 1);
    assert(rest@ == rest_part(path@));
    match percent_decode(target) {
        None => Err(RouteError::InvalidTargetName),
        Some(name) => Ok((name, rest.to_owned())),
    }
}

/// The path of a whole request that belongs to the target of a ticket: without
/// its leading slashes.
pub fn ticket_path(path: &str) -> (rest: String)
    ensures
        rest@ == trim_start_of(path@, '/'),
{
    without_leading(path, '/')
}

/// The text of the URL that the API path is resolved in.
pub open spec fn local_url(path: Seq<char>) -> Seq<char> {
    "http://localhost/"@ + path
}

/// The path exactly as the API server will see it, with `.` and `..` segments
/// resolved.
pub fn api_path(path: &str) -> (r: Result<String, RouteError>)
    ensures
        r is Ok <==> parsed_path(local_url(path@)) is Some,
        r matches Ok(api_path) ==> Some(api_path@) == parsed_path(local_url(path@)),
        r matches Ok(api_path) ==> is_resolved(api_path@),
        r matches Err(error) ==> error is InvalidPath,
{
    let text: String = "http://localhost/".to_owned().concat(path);
    assert(text@.take("http://localhost/"@.len() as int) =~= "http://localhost/"@);
    match parse_path(text.as_str()) {
        Ok(path) => Ok(path),
        Err(error) => Err(RouteError::InvalidPath(error)),
    }
}

/// The text of the cluster's URL for an API path and a query.
pub open spec fn target_url_text(
    cluster_url: Seq<char>,
    api_path: Seq<char>,
    query: Option<Seq<char>>,
) -> Seq<char> {
    if query is None || query->0.len() == 0 {
        cluster_url + api_path
    } else {
        cluster_url + api_path + "?"@ + query->0
    }
}

/// Writes out the cluster's URL for an API path and a query.
pub fn write_target_url(cluster_url: &str, api_path: &str, query: Option<&str>) -> (text: String)
    ensures
        text@ == target_url_text(
            cluster_url@,
            api_path@,
            crate::access_watch::opt_text(query),
        ),
{
    let base: String = cluster_url.to_owned().concat(api_path);
    match query {
        None => base,
        Some(query) => if query.is_empty() {
            base
        } else {
            base.concat("?").concat(query)
        },
    }
}

/// The URL of the Kubernetes API server for an API path and a query.
pub fn construct_target_url(cluster_url: &str, api_path: &str, query: Option<&str>) -> (r: Result<
    String,
    TargetUrlError,
>)
    ensures
        ({
            let parsed = parsed_url(
                target_url_text(cluster_url@, api_path@, crate::access_watch::opt_text(query)),
            );
            &&& r is Ok <==> parsed is Some
            &&& r matches Ok(url) ==> Some(url@) == parsed
        }),
{
    let text: String = write_target_url(cluster_url, api_path, query);
    match parse_url(text.as_str()) {
        Ok(url) => Ok(url),
        Err(source) => Err(TargetUrlError { source }),
    }
}

} // verus!
