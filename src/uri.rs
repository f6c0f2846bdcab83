//! Conversion of the URIs carried by a drag payload into local paths.

use vstd::prelude::*;
use vstd::utf8::encode_utf8;

verus! {

/// The bytes of the `file://` scheme prefix.
pub open spec fn file_scheme() -> Seq<u8> {
    seq![102u8, 105u8, 108u8, 101u8, 58u8, 47u8, 47u8]
}

pub open spec fn has_file_scheme(b: Seq<u8>) -> bool {
    b.len() >= 7 && b.take(7) == file_scheme()
}

/// The bytes after a leading `file://`, or all of them where there is none.
pub open spec fn strip_file_scheme(b: Seq<u8>) -> Seq<u8> {
    if has_file_scheme(b) {
        b.skip(7)
    } else {
        b
    }
}

/// The text that percent-decoding `b` gives, with every byte sequence that is
/// not UTF-8 replaced by U+FFFD.
pub uninterp spec fn percent_decoded_lossy(b: Seq<u8>) -> Seq<char>;

/// The local path that a payload URI names.
pub open spec fn path_of(uri: Seq<char>) -> Seq<char> {
    percent_decoded_lossy(strip_file_scheme(encode_utf8(uri)))
}

/// The local paths that a list of payload URIs names, in the same order.
pub open spec fn paths_of(uris: Seq<Seq<char>>) -> Seq<Seq<char>> {
    Seq::new(uris.len(), |i: int| path_of(uris[i]))
}

/// Relies on `percent_encoding::percent_decode` followed by
/// `PercentDecode::decode_utf8_lossy`: the decoded text depends on the bytes
/// alone, and no bytes decode to no text.
#[verifier::external_body]
fn decode_lossy(bytes: &[u8]) -> (r: String)
    ensures
        r@ == percent_decoded_lossy(bytes@),
        bytes@.len() == 0 ==> r@.len() == 0,
{
    percent_encoding::percent_decode(bytes).decode_utf8_lossy().into_owned()
}

/// Whether `b` starts with `file://`.
pub fn starts_with_file_scheme(b: &[u8]) -> (r: bool)
    ensures
        r == has_file_scheme(b@),
{
    if b.len() < 7 {
        return false;
    }
    let r = b[0] == 102u8 && b[1] == 105u8 && b[2] == 108u8 && b[3] == 101u8 && b[4] == 58u8
        && b[5] == 47u8 && b[6] == 47u8;
    assert(r == (b@.take(7) =~= file_scheme()));
    r
}

/// Converts one payload URI into a local path: a leading `file://` is
/// removed (a URI without it passes through), and the rest is
/// percent-decoded, lossily where it is not UTF-8.
pub fn path_from_uri(uri: &str) -> (r: String)
    ensures
        r@ == path_of(uri@),
{
    let bytes = uri.as_bytes();
    if starts_with_file_scheme(bytes) {
        let (_, rest) = bytes.split_at(7);
        decode_lossy(rest)
    } else {
        decode_lossy(bytes)
    }
}

/// Converts every URI of a payload into a local path, keeping their order.
pub fn paths_from_uris(uris: &Vec<String>) -> (r: Vec<String>)
    ensures
        r.deep_view() == paths_of(uris.deep_view()),
{
    let mut out: Vec<String> = Vec::new();
    let mut i: usize = 0;
    while i < uris.len()
        invariant
            i <= uris.len(),
            out@.len() == i,
            forall|j: int| 0 <= j < i ==> #[trigger] out@[j]@ == path_of(uris@[j]@),
        decreases uris.len() - i,
    {
        let p = path_from_uri(uris[i].as_str());
        out.push(p);
        i += 1;
    }
    assert(out.deep_view() =~= paths_of(uris.deep_view()));
    out
}

/// Stripping the scheme loses nothing: where a URI starts with `file://`,
/// that prefix followed by what the decoder reads is the whole URI again.
pub proof fn lemma_file_scheme_restored(b: Seq<u8>)
    requires
        has_file_scheme(b),
    ensures
        file_scheme() + strip_file_scheme(b) == b,
{
    assert(file_scheme() + b.skip(7) =~= b);
}

} // verus!
