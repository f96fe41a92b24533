//! Decoding of fetched manifest and configuration bodies: a gzip-encoded
//! response body is inflated before parsing, anything else is taken as
//! (lossy) UTF-8 text. The inflate itself comes from the `flate2` crate;
//! the encoding decision and the contract around it are verified.

use vstd::prelude::*;
use crate::text::str_to_chars;

verus! {

/// The text that inflating a gzip byte stream yields, when the stream is
/// valid gzip and inflates to valid UTF-8; nothing otherwise.
pub uninterp spec fn gunzip_of(data: Seq<u8>) -> Option<Seq<char>>;

/// Relies on `flate2::read::GzDecoder` together with `Read::read_to_string`:
/// inflating a byte buffer is a function of the bytes alone, and it fails
/// exactly when the buffer is not a valid gzip stream or the inflated bytes
/// are not UTF-8.
#[verifier::external_body]
fn gunzip_text(data: &Vec<u8>) -> (r: Result<String, String>)
    ensures
        match (r, gunzip_of(data@)) {
            (Result::Ok(s), Option::Some(t)) => s@ == t,
            (Result::Err(_), Option::None) => true,
            _ => false,
        },
{
    let mut gz = flate2::read::GzDecoder::new(&data[..]);
    let mut out = String::new();
    match std::io::Read::read_to_string(&mut gz, &mut out) {
        Ok(_) => Ok(out),
        Err(e) => Err(format!("Error decompressing: {}", e)),
    }
}

/// The text that a byte buffer reads as, invalid sequences replaced.
pub uninterp spec fn utf8_lossy_of(data: Seq<u8>) -> Seq<char>;

/// Relies on `String::from_utf8_lossy` from std: the result is a function
/// of the bytes alone, invalid sequences becoming replacement characters.
#[verifier::external_body]
fn utf8_lossy(data: &Vec<u8>) -> (r: String)
    ensures
        r@ == utf8_lossy_of(data@),
{
    String::from_utf8_lossy(data).into_owned()
}

/// Whether the four characters `gzip` occur anywhere in the header value.
pub open spec fn has_gzip(s: Seq<char>) -> bool {
    exists|i: int|
        0 <= i && i + 4 <= s.len() && #[trigger] s[i] == 'g' && s[i + 1] == 'z' && s[i + 2] == 'i'
            && s[i + 3] == 'p'
}

fn contains_gzip(s: &str) -> (r: bool)
    ensures
        r == has_gzip(s@),
{
    let chars = str_to_chars(s);
    let n = chars.len();
    let mut i: usize = 0;
    while i < n && n - i >= 4
        invariant
            i <= n,
            n == chars@.len(),
            chars@ == s@,
            forall|j: int|
                0 <= j < i ==> !(#[trigger] s@[j] == 'g' && s@[j + 1] == 'z' && s@[j + 2] == 'i'
                    && s@[j + 3] == 'p'),
        decreases n - i,
    {
        if chars[i] == 'g' && chars[i + 1] == 'z' && chars[i + 2] == 'i' && chars[i + 3] == 'p' {
            assert(has_gzip(s@));
            return true;
        }
        i = i + 1;
    }
    proof {
        assert forall|j: int| !(0 <= j && j + 4 <= s@.len() && #[trigger] s@[j] == 'g'
            && s@[j + 1] == 'z' && s@[j + 2] == 'i' && s@[j + 3] == 'p') by {
            if 0 <= j && j + 4 <= s@.len() {
                assert(j < i);
            }
        }
    }
    false
}

/// Decodes a fetched body: a `content-encoding` that mentions gzip has the
/// body inflated (failing exactly when the bytes are not a valid gzip
/// stream of UTF-8 text), any other encoding has the bytes read as text
/// directly.
pub fn decompress_if_gzipped(content_encoding: &str, body: &Vec<u8>) -> (r: Result<String, String>)
    ensures
        ({
            let expected = if has_gzip(content_encoding@) {
                gunzip_of(body@)
            } else {
                Option::Some(utf8_lossy_of(body@))
            };
            match (r, expected) {
                (Result::Ok(s), Option::Some(t)) => s@ == t,
                (Result::Err(_), Option::None) => true,
                _ => false,
            }
        }),
{
    if contains_gzip(content_encoding) {
        gunzip_text(body)
    } else {
        Result::Ok(utf8_lossy(body))
    }
}

} // verus!
