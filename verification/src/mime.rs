//! Content-type sniffing from a file's leading bytes.
//!
//! Classification itself is done by the `infer` crate, which walks an
//! ordered table of magic-byte matchers. Its verdict is a function of
//! the bytes alone, named here by `sniffed_mime`; when no signature
//! matches, the upload falls back to the generic binary content type.

use vstd::prelude::*;

verus! {

/// The generic binary content type used when no signature matches.
pub open spec fn spec_octet_stream() -> Seq<char> {
    "application/octet-stream"@
}

/// The content type `infer::get` reports for these bytes, or `None`
/// when no matcher in its table fires.
pub uninterp spec fn sniffed_mime(head: Seq<u8>) -> Option<Seq<char>>;

/// The three-byte JPEG signature at the start of the buffer.
pub open spec fn jpeg_signature(head: Seq<u8>) -> bool {
    head.len() > 2 && head[0] == 0xff && head[1] == 0xd8 && head[2] == 0xff
}

/// The Mobipocket book signature, `BOOKMOBI` at offset 60. Its matcher
/// ignores the leading bytes and is consulted before the JPEG one, so
/// a buffer carrying it is never classified as a JPEG.
pub open spec fn mobi_signature(head: Seq<u8>) -> bool {
    head.len() > 67 && head[60] == 0x42 && head[61] == 0x4f && head[62] == 0x4f && head[63] == 0x4b
        && head[64] == 0x4d && head[65] == 0x4f && head[66] == 0x42 && head[67] == 0x49
}

/// Relies on `infer::get`: it scans a fixed matcher table in order, so
/// its verdict depends on the bytes alone. Every matcher tried before
/// the JPEG one either requires leading bytes other than `FF D8 FF` or
/// is the Mobipocket matcher, which reads only offsets 60 through 67.
#[verifier::external_body]
fn detect_mime(head: &[u8]) -> (r: Option<&'static str>)
    ensures
        r is Some <==> sniffed_mime(head@) is Some,
        r matches Some(m) ==> sniffed_mime(head@) == Some(m@),
        r is Some && r->0@ == "image/jpeg"@ <== jpeg_signature(head@) && !mobi_signature(head@),
{
    infer::get(head).map(|kind| kind.mime_type())
}

/// Classifies a file's leading bytes, defaulting to the generic binary
/// content type when no known signature matches.
pub fn sniff_mime(head: &[u8]) -> (r: String)
    ensures
        r@ == spec_sniffed_or_default(head@),
        jpeg_signature(head@) && !mobi_signature(head@) ==> r@ == "image/jpeg"@,
{
    match detect_mime(head) {
        Some(m) => String::from_str(m),
        None => String::from_str("application/octet-stream"),
    }
}

/// The content type the sniffer reports: the sniffed one, or the
/// generic binary type when nothing matched.
pub open spec fn spec_sniffed_or_default(head: Seq<u8>) -> Seq<char> {
    match sniffed_mime(head) {
        Some(m) => m,
        None => spec_octet_stream(),
    }
}

} // verus!
