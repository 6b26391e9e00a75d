use vstd::prelude::*;

verus! {

/// The code that marks a startup packet as a TLS negotiation request.
pub const SSL_REQUEST_CODE: u32 = 80877103;

/// The byte by which the server accepts a TLS negotiation request.
pub const SSL_ACCEPT: u8 = 83;

/// The frame of a TLS negotiation request: a big-endian 32-bit length that
/// counts itself (8), then the request code, big-endian.
pub open spec fn ssl_request_frame() -> Seq<u8> {
    seq![0u8, 0u8, 0u8, 8u8, 4u8, 210u8, 22u8, 47u8]
}

/// Relies on postgres_protocol::message::frontend::ssl_request, which appends
/// to the buffer a length word of 8 followed by the code 80877103, both
/// big-endian; the buffer starts empty.
#[verifier::external_body]
fn frontend_ssl_request() -> (r: Vec<u8>)
    ensures
        r@ == ssl_request_frame(),
{
    let mut buf = bytes::BytesMut::new();
    postgres_protocol::message::frontend::ssl_request(&mut buf);
    buf.to_vec()
}

/// The bytes of the TLS negotiation request, ready to be written to the
/// stream in one piece.
pub fn ssl_request() -> (r: Vec<u8>)
    ensures
        r@ == ssl_request_frame(),
        r@.len() == 8,
        r@.subrange(4, 8) == seq![
            (SSL_REQUEST_CODE >> 24) as u8,
            ((SSL_REQUEST_CODE >> 16) & 0xff) as u8,
            ((SSL_REQUEST_CODE >> 8) & 0xff) as u8,
            (SSL_REQUEST_CODE & 0xff) as u8,
        ],
{
    let r = frontend_ssl_request();
    assert(r@.subrange(4, 8) =~= seq![4u8, 210u8, 22u8, 47u8]);
    assert((SSL_REQUEST_CODE >> 24) as u8 == 4u8) by (bit_vector);
    assert(((SSL_REQUEST_CODE >> 16) & 0xff) as u8 == 210u8) by (bit_vector);
    assert(((SSL_REQUEST_CODE >> 8) & 0xff) as u8 == 22u8) by (bit_vector);
    assert((SSL_REQUEST_CODE & 0xff) as u8 == 47u8) by (bit_vector);
    r
}

} // verus!
