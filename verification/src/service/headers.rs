//! Header lines, and how the headers of a forwarded request are made.

use vstd::prelude::*;
use crate::text::bytes_of;
use crate::text::is_same_name;
use crate::text::same_name;
use crate::text::utf8;

verus! {

/// One header line: a name and a value, both as the bytes on the wire.
#[derive(Debug, PartialEq, Eq)]
pub struct Header {
    pub name: Vec<u8>,
    pub value: Vec<u8>,
}

/// A [`Header`] over mathematical sequences.
pub ghost struct HeaderModel {
    pub name: Seq<u8>,
    pub value: Seq<u8>,
}

impl View for Header {
    type V = HeaderModel;

    open spec fn view(&self) -> HeaderModel {
        HeaderModel { name: self.name@, value: self.value@ }
    }
}

impl Clone for Header {
    fn clone(&self) -> (copy: Header)
        ensures
            copy@ == self@,
    {
        Header { name: self.name.clone(), value: self.value.clone() }
    }
}

/// A list of headers over mathematical sequences.
pub open spec fn header_models(headers: Seq<Header>) -> Seq<HeaderModel> {
    headers.map_values(|header: Header| header@)
}

/// The name of the header by which a client asks for a compressed response.
pub open spec fn accept_encoding() -> Seq<u8> {
    utf8("accept-encoding"@)
}

/// The name of the header that names the host a request is meant for.
pub open spec fn host() -> Seq<u8> {
    utf8("host"@)
}

/// Whether a header of an inbound request is forwarded. `Accept-Encoding`
/// never is: the marker is searched in the body as the upstream sends it,
/// and a compressed body would hide it. `Host` is not where a new one takes
/// its place.
pub open spec fn is_forwarded(header: HeaderModel, new_host: bool) -> bool {
    &&& !same_name(header.name, accept_encoding())
    &&& !(new_host && same_name(header.name, host()))
}

/// The headers of the forwarded request: those of the inbound request that
/// are forwarded, in their order, followed by the new `Host` header where
/// there is one.
pub open spec fn outbound_headers(inbound: Seq<HeaderModel>, host_value: Option<Seq<u8>>) -> Seq<
    HeaderModel,
> {
    let kept = inbound.filter(|header: HeaderModel| is_forwarded(header, host_value is Some));
    match host_value {
        Some(value) => kept.push(HeaderModel { name: host(), value }),
        None => kept,
    }
}

/// The two header names are different names.
proof fn lemma_host_is_not_accept_encoding()
    ensures
        host().len() == 4,
        accept_encoding().len() == 15,
        !same_name(host(), accept_encoding()),
{
    reveal_strlit("host");
    reveal_strlit("accept-encoding");
    vstd::utf8::is_ascii_chars_encode_utf8("host"@);
    vstd::utf8::is_ascii_chars_encode_utf8("accept-encoding"@);
}

/// No forwarded request carries an `Accept-Encoding` header, whatever the
/// inbound request held.
pub proof fn lemma_accept_encoding_is_dropped(
    inbound: Seq<HeaderModel>,
    host_value: Option<Seq<u8>>,
    at: int,
)
    requires
        0 <= at < outbound_headers(inbound, host_value).len(),
    ensures
        !same_name(outbound_headers(inbound, host_value)[at].name, accept_encoding()),
{
    let keep = |header: HeaderModel| is_forwarded(header, host_value is Some);
    let kept = inbound.filter(keep);
    if at < kept.len() {
        inbound.lemma_filter_pred(keep, at);
    } else {
        lemma_host_is_not_accept_encoding();
    }
}

/// Where a new `Host` header is set, it is the only one, and the last
/// header of the forwarded request.
pub proof fn lemma_host_is_replaced(inbound: Seq<HeaderModel>, value: Seq<u8>, at: int)
    requires
        0 <= at < outbound_headers(inbound, Some(value)).len(),
    ensures
        same_name(outbound_headers(inbound, Some(value))[at].name, host()) <==> at
            == outbound_headers(inbound, Some(value)).len() - 1,
        outbound_headers(inbound, Some(value)).last() == (HeaderModel { name: host(), value }),
{
    let keep = |header: HeaderModel| is_forwarded(header, true);
    let kept = inbound.filter(keep);
    if at < kept.len() {
        inbound.lemma_filter_pred(keep, at);
    }
}

/// Makes the headers of the forwarded request from those of the inbound
/// request and the value of the new `Host` header, if there is one.
pub fn forwarded_headers(inbound: &Vec<Header>, host_value: Option<Vec<u8>>) -> (outbound: Vec<
    Header,
>)
    ensures
        header_models(outbound@) == outbound_headers(
            header_models(inbound@),
            match host_value {
                Some(value) => Some(value@),
                None => None,
            },
        ),
{
    let new_host = host_value.is_some();
    let ghost keep = |header: HeaderModel| is_forwarded(header, new_host);
    let ghost models = header_models(inbound@);
    let mut outbound: Vec<Header> = Vec::new();
    let length = inbound.len();
    let mut at: usize = 0;
    proof {
        reveal(Seq::filter);
        assert(models.take(0).filter(keep) =~= Seq::<HeaderModel>::empty());
    }
    while at < length
        invariant
            0 <= at <= length,
            length == inbound@.len(),
            models == header_models(inbound@),
            keep == |header: HeaderModel| is_forwarded(header, new_host),
            header_models(outbound@) =~= models.take(at as int).filter(keep),
        decreases length - at,
    {
        let header = &inbound[at];
        let dropped = is_same_name(header.name.as_slice(), "accept-encoding".as_bytes()) || (
        new_host && is_same_name(header.name.as_slice(), "host".as_bytes()));
        proof {
            reveal(Seq::filter);
            assert(models.take(at + 1).drop_last() =~= models.take(at as int));
            assert(models.take(at + 1).last() == header@);
            assert(keep(header@) == !dropped);
        }
        if !dropped {
            let ghost before = outbound@;
            outbound.push(header.clone());
            assert(header_models(outbound@) =~= header_models(before).push(header@));
        }
        at += 1;
    }
    assert(models.take(length as int) =~= models);
    match host_value {
        Some(value) => {
            let ghost before = outbound@;
            outbound.push(Header { name: bytes_of("host"), value });
            assert(header_models(outbound@) =~= header_models(before).push(
                HeaderModel { name: host(), value: value@ },
            ));
        },
        None => {},
    }
    outbound
}

} // verus!
