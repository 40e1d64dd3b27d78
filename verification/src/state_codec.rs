//! Compact, URL-safe encoding of the persisted explorer state, used for
//! the URL hash so that a view can be bookmarked and shared.
//!
//! An encoded state is `"v1:"` followed by the unpadded URL-safe base64 of
//! the DEFLATE-compressed JSON text of the state.

use vstd::prelude::*;
use std::io::{Read, Write};

verus! {

/// Version of the persisted state that this library writes and accepts.
pub const PERSISTED_STATE_VERSION: u32 = 1;

/// Whether a persisted state of the given schema version is accepted.
pub fn accepts_version(version: u32) -> (r: bool)
    ensures
        r == (version == PERSISTED_STATE_VERSION),
{
    version == PERSISTED_STATE_VERSION
}

/// What the `flate2` DEFLATE encoder at its best compression level produces
/// for the given input.
pub uninterp spec fn deflate_best(data: Seq<u8>) -> Seq<u8>;

/// Character of the 6-bit value `v` in the URL-safe base64 alphabet of
/// RFC 4648 §5: `A`-`Z`, `a`-`z`, `0`-`9`, `-`, `_`.
pub open spec fn base64_url_char(v: int) -> char {
    if v < 26 {
        (65 + v) as char
    } else if v < 52 {
        (97 + v - 26) as char
    } else if v < 62 {
        (48 + v - 52) as char
    } else if v == 62 {
        '-'
    } else {
        '_'
    }
}

/// The unpadded URL-safe base64 text of `data` (RFC 4648 §5): each group
/// of three bytes gives four characters, a final group of one or two bytes
/// gives two or three characters (its unused low bits zero), no padding.
pub open spec fn base64_url_no_pad(data: Seq<u8>) -> Seq<char>
    decreases data.len(),
{
    if data.len() == 0 {
        Seq::empty()
    } else if data.len() == 1 {
        seq![base64_url_char((data[0] as int) / 4), base64_url_char(((data[0] as int) % 4) * 16)]
    } else if data.len() == 2 {
        seq![
            base64_url_char((data[0] as int) / 4),
            base64_url_char(((data[0] as int) % 4) * 16 + (data[1] as int) / 16),
            base64_url_char(((data[1] as int) % 16) * 4),
        ]
    } else {
        seq![
            base64_url_char((data[0] as int) / 4),
            base64_url_char(((data[0] as int) % 4) * 16 + (data[1] as int) / 16),
            base64_url_char(((data[1] as int) % 16) * 4 + (data[2] as int) / 64),
            base64_url_char((data[2] as int) % 64),
        ] + base64_url_no_pad(data.subrange(3, data.len() as int))
    }
}

/// What the `flate2` DEFLATE decoder gives for the given compressed bytes
/// when read to the end: the decompressed bytes, or `None` when it reports
/// an error.
pub uninterp spec fn inflate(data: Seq<u8>) -> Option<Seq<u8>>;

/// Compress `data` with `flate2::write::DeflateEncoder` at
/// `Compression::best()` (`new`, `write_all`, `finish`). Claimed: the call
/// succeeds and gives the encoder's output for `data`. The output goes to
/// a `Vec`, whose writes do not fail; flate2 maps a `Buf` status of
/// miniz_oxide to progress, not to an error; the parameters of the best
/// level are valid; and miniz_oxide's own source notes that its remaining
/// error (a failed buffer flush) cannot arise without a custom callback,
/// which this path does not use.
#[verifier::external_body]
fn deflate_compress(data: &[u8]) -> (r: Option<Vec<u8>>)
    ensures
        r is Some && r.unwrap()@ == deflate_best(data@),
{
    let mut encoder = flate2::write::DeflateEncoder::new(Vec::new(), flate2::Compression::best());
    encoder.write_all(data).ok()?;
    encoder.finish().ok()
}

/// Decompress with `flate2::read::DeflateDecoder` (`new`, `read_to_end`).
/// Claimed: the result is `inflate` of the input (the decoder depends on
/// its input alone), and the encoder's output for some data decompresses
/// to that data.
#[verifier::external_body]
fn deflate_decompress(compressed: &[u8]) -> (r: Option<Vec<u8>>)
    ensures
        r is Some <==> inflate(compressed@) is Some,
        r is Some ==> r.unwrap()@ == inflate(compressed@).unwrap(),
        forall|d: Seq<u8>| compressed@ == #[trigger] deflate_best(d) ==> r is Some && r.unwrap()@ == d,
{
    let mut decoder = flate2::read::DeflateDecoder::new(compressed);
    let mut out = Vec::new();
    decoder.read_to_end(&mut out).ok()?;
    Some(out)
}

/// `base64::engine::general_purpose::URL_SAFE_NO_PAD.encode`. Claimed: the
/// result is the unpadded URL-safe base64 text of `data` as RFC 4648 §5
/// defines it (`base64_url_no_pad`).
#[verifier::external_body]
fn base64_url_encode(data: &[u8]) -> (r: String)
    ensures
        r@ == base64_url_no_pad(data@),
{
    base64::Engine::encode(&base64::engine::general_purpose::URL_SAFE_NO_PAD, data)
}

/// `base64::engine::general_purpose::URL_SAFE_NO_PAD.decode`. Claimed:
/// decoding succeeds exactly on the canonical unpadded URL-safe text of
/// some bytes (the `NO_PAD` configuration rejects padding, and its default
/// rejects non-zero trailing bits, symbols outside the alphabet and a
/// length of one more than a multiple of four), and then gives those bytes.
#[verifier::external_body]
fn base64_url_decode(text: &str) -> (r: Option<Vec<u8>>)
    ensures
        r is Some <==> exists|d: Seq<u8>| text@ == #[trigger] base64_url_no_pad(d),
        forall|d: Seq<u8>| text@ == #[trigger] base64_url_no_pad(d) ==> r is Some && r.unwrap()@ == d,
{
    base64::Engine::decode(&base64::engine::general_purpose::URL_SAFE_NO_PAD, text).ok()
}

/// The version prefix `"v1:"`.
pub open spec fn version_prefix() -> Seq<char> {
    seq!['v', '1', ':']
}

/// The URL-hash text of a state whose JSON text has the bytes `json`.
pub open spec fn encoded_state(json: Seq<u8>) -> Seq<char> {
    version_prefix() + base64_url_no_pad(deflate_best(json))
}

/// `s` begins with the version prefix.
pub open spec fn has_version_prefix(s: Seq<char>) -> bool {
    s.len() >= 3 && s.subrange(0, 3) == version_prefix()
}

/// The text after the version prefix, or `None` without the prefix.
pub fn strip_version_prefix(s: &str) -> (r: Option<&str>)
    ensures
        r is Some <==> has_version_prefix(s@),
        r matches Some(rest) ==> rest@ == s@.subrange(3, s@.len() as int),
{
    let n = s.unicode_len();
    if n < 3 {
        return None;
    }
    if s.get_char(0) == 'v' && s.get_char(1) == '1' && s.get_char(2) == ':' {
        proof {
            assert(s@.subrange(0, 3) =~= version_prefix());
        }
        Some(s.substring_char(3, n))
    } else {
        proof {
            if has_version_prefix(s@) {
                assert(s@.subrange(0, 3)[0] == 'v');
                assert(s@.subrange(0, 3)[1] == '1');
                assert(s@.subrange(0, 3)[2] == ':');
            }
        }
        None
    }
}

/// Encode the JSON text of a state to a compressed, URL-safe string with
/// the version prefix.
pub fn encode_state(json: &[u8]) -> (r: Option<String>)
    ensures
        r is Some && r.unwrap()@ == encoded_state(json@),
{
    let compressed = match deflate_compress(json) {
        Some(c) => c,
        None => return None,
    };
    let encoded = base64_url_encode(compressed.as_slice());
    let mut s = String::from_str("v1:");
    proof {
        reveal_strlit("v1:");
    }
    s.append(encoded.as_str());
    proof {
        assert(s@ =~= encoded_state(json@));
    }
    Some(s)
}

/// The text after the version prefix.
pub open spec fn state_payload(s: Seq<char>) -> Seq<char> {
    s.subrange(3, s.len() as int)
}

/// The JSON text a URL-hash string decodes to: with the version prefix and
/// a payload that is the base64 text of some bytes, the decompression of
/// those bytes; `None` otherwise.
pub open spec fn decoded_state(s: Seq<char>) -> Option<Seq<u8>> {
    if has_version_prefix(s) && exists|d: Seq<u8>| state_payload(s) == #[trigger] base64_url_no_pad(d) {
        inflate(choose|d: Seq<u8>| state_payload(s) == #[trigger] base64_url_no_pad(d))
    } else {
        None
    }
}

/// Decode a URL-hash string back to the JSON text of the state: strip the
/// version prefix, decode the base64, decompress. Text without the prefix,
/// or whose payload is not valid base64, gives `None`; the encoding of any
/// JSON text gives that text back.
pub fn decode_state(encoded: &str) -> (r: Option<Vec<u8>>)
    ensures
        r is Some <==> decoded_state(encoded@) is Some,
        r is Some ==> r.unwrap()@ == decoded_state(encoded@).unwrap(),
        !has_version_prefix(encoded@) ==> r is None,
        forall|json: Seq<u8>| encoded@ == #[trigger] encoded_state(json) ==> r is Some && r.unwrap()@ == json,
{
    let data = match strip_version_prefix(encoded) {
        Some(d) => d,
        None => {
            proof {
                assert forall|json: Seq<u8>| encoded@ == #[trigger] encoded_state(json) implies false by {
                    assert(encoded_state(json).subrange(0, 3) =~= version_prefix());
                }
            }
            return None;
        },
    };
    let compressed = match base64_url_decode(data) {
        Some(c) => c,
        None => {
            proof {
                assert(state_payload(encoded@) == data@);
                assert forall|json: Seq<u8>| encoded@ == #[trigger] encoded_state(json) implies false by {
                    assert(data@ =~= base64_url_no_pad(deflate_best(json)));
                }
            }
            return None;
        },
    };
    let r = deflate_decompress(compressed.as_slice());
    proof {
        let d = choose|d: Seq<u8>| state_payload(encoded@) == #[trigger] base64_url_no_pad(d);
        assert(state_payload(encoded@) == data@);
        assert(compressed@ == d);
        assert forall|json: Seq<u8>| encoded@ == #[trigger] encoded_state(json) implies r is Some && r.unwrap()@ == json by {
            assert(data@ =~= base64_url_no_pad(deflate_best(json)));
            assert(compressed@ == deflate_best(json));
        }
    }
    r
}

} // verus!
