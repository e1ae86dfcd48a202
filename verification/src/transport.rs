//! Plain-value descriptions of wire requests and responses, and the
//! normalization of response bodies for content encoding. The network
//! itself is driven by the surrounding application.

use vstd::prelude::*;

use crate::error::Error;
use crate::markup::str_eq;

verus! {

/// An HTTP method the gateway operations use.
#[derive(Clone, Copy, PartialEq, Eq, Structural, Debug)]
pub enum Method {
    Get,
    Post,
    Put,
}

/// A fully computed wire request: everything the transport needs to send.
#[derive(Debug)]
pub struct WireRequest {
    pub method: Method,
    pub url: String,
    pub headers: Vec<(String, String)>,
    pub body: Option<Vec<u8>>,
}

/// A response as handed back by the transport.
#[derive(Debug)]
pub struct HttpResponse {
    pub status: u16,
    pub content_encoding: Option<String>,
    pub body: Vec<u8>,
}

/// What gzip decompression yields on the given bytes, if it succeeds;
/// the result is a function of the input bytes alone.
pub uninterp spec fn gunzip_of(b: Seq<u8>) -> Option<Seq<u8>>;

/// Relies on libflate's gzip::Decoder: reading the decoder to its end
/// yields the decompressed payload, and fails on malformed input.
#[verifier::external_body]
fn gunzip(body: &Vec<u8>) -> (r: Option<Vec<u8>>)
    ensures
        r matches Some(d) ==> gunzip_of(body@) == Some(d@),
        r is None ==> gunzip_of(body@) is None,
{
    let mut dec = match libflate::gzip::Decoder::new(&body[..]) {
        Ok(d) => d,
        Err(_) => {
            return None;
        },
    };
    let mut out: Vec<u8> = Vec::new();
    match std::io::Read::read_to_end(&mut dec, &mut out) {
        Ok(_) => Some(out),
        Err(_) => None,
    }
}

/// What standard base64 encoding yields on the given bytes; the result is
/// a function of the input bytes alone.
pub uninterp spec fn base64_of(b: Seq<u8>) -> Seq<char>;

/// Relies on the base64 crate's standard-alphabet engine.
#[verifier::external_body]
pub fn base64_encode(b: &Vec<u8>) -> (r: String)
    ensures
        r@ == base64_of(b@),
{
    base64::Engine::encode(&base64::engine::general_purpose::STANDARD, b)
}

/// Relies on String::from_utf8: it succeeds exactly on UTF-8 input, and
/// returns the characters whose encoding is the input. Since UTF-8 is a
/// prefix-free code, decoding is a function: bytes that are the encoding
/// of some character sequence decode to exactly that sequence.
#[verifier::external_body]
pub fn bytes_to_string(b: Vec<u8>) -> (r: Option<String>)
    ensures
        r matches Some(s) ==> vstd::utf8::encode_utf8(s@) == b@ && (forall|cs: Seq<char>| b@
            == vstd::utf8::encode_utf8(cs) ==> s@ == cs),
        r is None ==> !(exists|cs: Seq<char>| vstd::utf8::encode_utf8(cs) == b@),
{
    String::from_utf8(b).ok()
}

/// The body a response carries once its content encoding is resolved:
/// the raw bytes when no encoding is declared, the decompressed bytes for
/// gzip, and nothing for an unrecognized encoding.
pub open spec fn normalized_body(enc: Option<String>, body: Seq<u8>) -> Option<Seq<u8>> {
    match enc {
        None => Some(body),
        Some(e) => if e@ == "gzip"@ {
            gunzip_of(body)
        } else {
            None
        },
    }
}

/// Resolves a response body's content encoding: an absent encoding passes
/// the bytes through, gzip decompresses them, and any other declared
/// encoding fails rather than handing garbage to the codec.
pub fn normalize_body(content_encoding: &Option<String>, body: Vec<u8>) -> (r: Result<
    Vec<u8>,
    Error,
>)
    ensures
        match r {
            Ok(b) => normalized_body(*content_encoding, body@) == Some(b@),
            Err(e) => {
                &&& normalized_body(*content_encoding, body@) is None
                &&& (content_encoding matches Some(enc) && enc@ != "gzip"@ <==> e matches
                    Error::UnsupportedEncoding)
                &&& (content_encoding matches Some(enc) && enc@ == "gzip"@ && gunzip_of(body@)
                    is None <==> e matches Error::Http(_))
            },
        },
{
    match content_encoding {
        None => Ok(body),
        Some(enc) => {
            if str_eq(enc.as_str(), "gzip") {
                match gunzip(&body) {
                    Some(d) => Ok(d),
                    None => Err(Error::Http("corrupt compressed response body".to_owned())),
                }
            } else {
                Err(Error::UnsupportedEncoding)
            }
        },
    }
}

} // verus!
