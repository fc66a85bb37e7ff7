//! The upstream target: which URI a request is forwarded to, and which
//! `Host` header goes with it.
//!
//! URIs are parsed by `hyper`, whose `Uri` and `HeaderValue` are those of the
//! `http` crate. What the proxy reads of a parsed URI is kept as plain
//! strings in [`ParsedUri`].

use vstd::prelude::*;
use crate::text::utf8;

verus! {

/// A URI as the proxy reads it once it has been parsed.
#[derive(Debug, PartialEq, Eq)]
pub struct ParsedUri {
    /// The URI written out again: scheme, authority, path and query.
    pub text: String,
    /// The host in the URI's authority, if it has one.
    pub host: Option<String>,
}

/// A [`ParsedUri`] over mathematical sequences.
pub ghost struct UriModel {
    pub text: Seq<char>,
    pub host: Option<Seq<char>>,
}

impl View for ParsedUri {
    type V = UriModel;

    open spec fn view(&self) -> UriModel {
        UriModel {
            text: self.text@,
            host: match self.host {
                Some(host) => Some(host@),
                None => None,
            },
        }
    }
}

impl Clone for ParsedUri {
    fn clone(&self) -> (copy: ParsedUri)
        ensures
            copy@ == self@,
    {
        let host = match &self.host {
            Some(host) => Some(host.clone()),
            None => None,
        };
        ParsedUri { text: self.text.clone(), host }
    }
}

/// What parsing gave, over mathematical sequences.
pub open spec fn parse_model(parsed: Result<ParsedUri, String>) -> Result<UriModel, Seq<char>> {
    match parsed {
        Ok(uri) => Ok(uri@),
        Err(message) => Err(message@),
    }
}

/// What `hyper` makes of `text` when it parses it as a URI: the URI as the
/// proxy reads it, or the message of the error with which the text is
/// turned down.
pub uninterp spec fn parsed_uri(text: Seq<char>) -> Result<UriModel, Seq<char>>;

/// Parses `text` with `hyper::Uri::from_str`.
///
/// Trusted, not proved: the result depends on `text` alone, and is what
/// [`parsed_uri`] stands for. On success it holds what the parsed URI
/// displays as and what `Uri::host` returns for it; on failure, what the
/// `InvalidUri` displays as. The parser turns text down with an error and
/// does not panic.
#[verifier::external_body]
pub(crate) fn parse_uri(text: &str) -> (parsed: Result<ParsedUri, String>)
    ensures
        parse_model(parsed) == parsed_uri(text@),
{
    match text.parse::<hyper::Uri>() {
        Ok(uri) => Ok(ParsedUri { text: uri.to_string(), host: uri.host().map(String::from) }),
        Err(error) => Err(error.to_string()),
    }
}

/// The URI that is forwarded to, given the base URI and what re-parsing the
/// joined text gave: the re-parsed URI, or the base alone where there was
/// nothing to join or the joined text is no URI.
pub open spec fn selected_target(
    base: UriModel,
    reparsed: Option<Result<UriModel, Seq<char>>>,
) -> UriModel {
    match reparsed {
        Some(Ok(uri)) => uri,
        _ => base,
    }
}

/// The URI that a request for `path_and_query` is forwarded to: the base
/// URI's text with the path and query appended, parsed again; the base URI
/// alone where the request has no path and query or the joined text does
/// not parse.
pub open spec fn resolved_target(base: UriModel, path_and_query: Option<Seq<char>>) -> UriModel {
    selected_target(
        base,
        match path_and_query {
            Some(suffix) => Some(parsed_uri(base.text + suffix)),
            None => None,
        },
    )
}

/// The text of an optional string.
pub open spec fn optional_text(text: Option<&str>) -> Option<Seq<char>> {
    match text {
        Some(text) => Some(text@),
        None => None,
    }
}

/// Picks the forwarding URI once the joined text has gone through the
/// parser: the re-parsed URI if there is one, else the base URI. A joined
/// text that does not parse is no error: the path and query are dropped.
pub fn select_target(base: &ParsedUri, reparsed: Option<Result<ParsedUri, String>>) -> (target:
    ParsedUri)
    ensures
        target@ == selected_target(
            base@,
            match reparsed {
                Some(parsed) => Some(parse_model(parsed)),
                None => None,
            },
        ),
{
    match reparsed {
        Some(Ok(uri)) => uri,
        _ => base.clone(),
    }
}

/// Computes the URI to forward a request to.
pub fn resolve_target(base: &ParsedUri, path_and_query: Option<&str>) -> (target: ParsedUri)
    ensures
        target@ == resolved_target(base@, optional_text(path_and_query)),
{
    let reparsed = match path_and_query {
        Some(suffix) => {
            let joined = base.text.clone().concat(suffix);
            Some(parse_uri(joined.as_str()))
        },
        None => None,
    };
    select_target(base, reparsed)
}

/// Whether a byte may stand in the value of a header: anything but a
/// control character, the tab excepted.
pub open spec fn header_value_byte(byte: u8) -> bool {
    (byte >= 32 && byte != 127) || byte == 9
}

/// Whether `bytes` can be the value of a header.
pub open spec fn valid_header_value(bytes: Seq<u8>) -> bool {
    forall|k: int| 0 <= k < bytes.len() ==> header_value_byte(#[trigger] bytes[k])
}

/// The `Host` header that goes with the base URI: the bytes of its host,
/// where it has one that can be the value of a header.
pub open spec fn host_value(base: UriModel) -> Option<Seq<u8>> {
    match base.host {
        Some(host) => if valid_header_value(utf8(host)) {
            Some(utf8(host))
        } else {
            None
        },
        None => None,
    }
}

/// The bytes of an optional byte string.
pub open spec fn optional_bytes(bytes: Option<Vec<u8>>) -> Option<Seq<u8>> {
    match bytes {
        Some(bytes) => Some(bytes@),
        None => None,
    }
}

/// Encodes `text` with `hyper::header::HeaderValue::from_str` and hands out
/// the bytes of the value.
///
/// Trusted, not proved: the text is accepted exactly if each of its bytes is
/// a tab or neither a control character nor DEL (bytes from 128 on are
/// accepted), and the value then holds the bytes of the text unchanged.
#[verifier::external_body]
fn encode_header_value(text: &str) -> (value: Option<Vec<u8>>)
    ensures
        value is Some <==> valid_header_value(utf8(text@)),
        value matches Some(bytes) ==> bytes@ == utf8(text@),
{
    hyper::header::HeaderValue::from_str(text).ok().map(|value| value.as_bytes().to_vec())
}

/// Computes the value of the `Host` header from the base URI. Where the URI
/// has no host, or one that cannot be encoded, there is none, and the
/// request keeps the `Host` header it came with.
pub fn host_header(base: &ParsedUri) -> (value: Option<Vec<u8>>)
    ensures
        optional_bytes(value) == host_value(base@),
{
    match &base.host {
        Some(host) => encode_header_value(host.as_str()),
        None => None,
    }
}

} // verus!
