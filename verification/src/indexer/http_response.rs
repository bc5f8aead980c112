//! The embedded HTTP response parser, treated as a pure function from
//! body bytes to a status code and a header list.

use vstd::prelude::*;

verus! {

/// What the HTTP response parser makes of a body: nothing when the
/// bytes are rejected outright, else the status code as far as one was
/// read, and the header list as name and value byte pairs. A body cut
/// short is not rejected; the parser reports what it saw, and unused
/// header slots stay as empty pairs.
pub uninterp spec fn spec_http_parse(b: Seq<u8>) -> Option<(Option<u16>, Seq<(Seq<u8>, Seq<u8>)>)>;

/// The header list as plain byte sequences.
pub open spec fn spec_headers(h: Seq<(Vec<u8>, Vec<u8>)>) -> Seq<(Seq<u8>, Seq<u8>)> {
    h.map_values(|p: (Vec<u8>, Vec<u8>)| (p.0@, p.1@))
}

/// Relies on httparse's `Response::parse` with a sixty-four header
/// buffer: the outcome depends on the body bytes alone; a complete or
/// partial parse hands back the code and headers read so far, a parse
/// error hands back its message.
#[verifier::external_body]
pub(crate) fn parse_http_response(body: &[u8]) -> (r: Result<
    (Option<u16>, Vec<(Vec<u8>, Vec<u8>)>),
    String,
>)
    ensures
        r is Ok <==> spec_http_parse(body@) is Some,
        r matches Ok(p) ==> spec_http_parse(body@) matches Some(q) && p.0 == q.0
            && spec_headers(p.1@) == q.1,
{
    let mut headers = [httparse::EMPTY_HEADER; 64];
    let mut response = httparse::Response::new(&mut headers);
    match response.parse(body) {
        Ok(_) => {
            let code = response.code;
            let parsed = response
                .headers
                .iter()
                .map(|h| (h.name.as_bytes().to_vec(), h.value.to_vec()))
                .collect();
            Ok((code, parsed))
        },
        Err(e) => Err(e.to_string()),
    }
}

} // verus!
