//! The diagnostic line emitted for one handled connection: the connection
//! buffer decoded as lossy UTF-8, behind a fixed prefix.

use vstd::prelude::*;

use crate::buffer::BUFFER_LEN;
use crate::buffer::buffer_model;
use crate::buffer::fill_connection_buffer;
use crate::buffer::lemma_buffer_long_payload;
use crate::buffer::lemma_buffer_short_payload;

verus! {

/// The characters that lossy UTF-8 decoding produces for the bytes `b`:
/// well-formed UTF-8 sequences become their characters, ill-formed ones a
/// replacement character. The result depends on the bytes alone.
pub uninterp spec fn lossy_utf8_of(b: Seq<u8>) -> Seq<char>;

/// Relies on `String::from_utf8_lossy`: decodes arbitrary bytes to text,
/// substituting a placeholder for invalid sequences; the result is a
/// function of the bytes alone.
#[verifier::external_body]
fn decode_lossy(bytes: &[u8]) -> (s: String)
    ensures
        s@ == lossy_utf8_of(bytes@),
{
    String::from_utf8_lossy(bytes).into_owned()
}

/// The diagnostic line for a read that delivered `data`: a fixed prefix,
/// then the lossy UTF-8 rendering of the zero-padded connection buffer.
pub open spec fn log_line_model(data: Seq<u8>) -> Seq<char> {
    "Request: "@ + lossy_utf8_of(buffer_model(data))
}

/// Render the diagnostic line for one connection whose single read
/// delivered `data`.
pub fn render_request(data: &[u8]) -> (line: String)
    ensures
        line@ == log_line_model(data@),
{
    let buf = fill_connection_buffer(data);
    let decoded = decode_lossy(buf.as_slice());
    let line = String::from_str("Request: ");
    line.concat(decoded.as_str())
}

/// Of a payload longer than the buffer, only the first `BUFFER_LEN` bytes
/// reach the diagnostic line: the line equals the one rendered for the
/// truncated payload.
pub proof fn lemma_long_payload_truncated(data: Seq<u8>)
    requires
        data.len() >= BUFFER_LEN,
    ensures
        log_line_model(data) == log_line_model(data.subrange(0, BUFFER_LEN as int)),
{
    lemma_buffer_long_payload(data);
    let first = data.subrange(0, BUFFER_LEN as int);
    lemma_buffer_short_payload(first);
    assert(buffer_model(first) =~= first);
}

} // verus!
