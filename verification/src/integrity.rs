//! Integrity checking: MD5 content hashing (through the `md5` crate) and
//! validation of a local file against an optional expected size and an
//! optional expected hex digest.
//!
//! Hashing streams: a hasher is fed chunks and finished, so a large file
//! never has to sit in memory whole. Absence of an expectation means
//! "don't care", and a missing file never passes the check.

use vstd::prelude::*;
use crate::text::chars_to_string;
use md5::Digest;

verus! {

/// The MD5 digest (16 raw bytes) of a byte sequence.
pub uninterp spec fn md5_of(data: Seq<u8>) -> Seq<u8>;

#[verifier::external_type_specification]
#[verifier::external_body]
pub struct ExMd5(md5::Md5);

/// The bytes a hasher has been fed so far.
pub uninterp spec fn fed_bytes(h: md5::Md5) -> Seq<u8>;

/// Relies on `Md5::new` of the `md5` crate: a fresh hasher has been fed
/// nothing.
#[verifier::external_body]
fn md5_new() -> (h: md5::Md5)
    ensures
        fed_bytes(h) == Seq::<u8>::empty(),
{
    md5::Md5::new()
}

/// Relies on `Digest::update`: feeding a chunk appends it to what the
/// hasher has seen; chunk boundaries do not matter.
#[verifier::external_body]
fn md5_update(h: &mut md5::Md5, data: &[u8])
    ensures
        fed_bytes(*final(h)) == fed_bytes(*old(h)) + data@,
{
    h.update(data);
}

/// Relies on `Digest::finalize`: the digest of everything fed, a function
/// of those bytes alone, always 16 bytes long.
#[verifier::external_body]
fn md5_finalize(h: md5::Md5) -> (r: Vec<u8>)
    ensures
        r@ == md5_of(fed_bytes(h)),
        r@.len() == 16,
{
    h.finalize().to_vec()
}

/// The character for one hexadecimal digit, lower case.
pub open spec fn hex_digit_char(d: nat) -> char {
    if d == 0 {
        '0'
    } else if d == 1 {
        '1'
    } else if d == 2 {
        '2'
    } else if d == 3 {
        '3'
    } else if d == 4 {
        '4'
    } else if d == 5 {
        '5'
    } else if d == 6 {
        '6'
    } else if d == 7 {
        '7'
    } else if d == 8 {
        '8'
    } else if d == 9 {
        '9'
    } else if d == 10 {
        'a'
    } else if d == 11 {
        'b'
    } else if d == 12 {
        'c'
    } else if d == 13 {
        'd'
    } else if d == 14 {
        'e'
    } else {
        'f'
    }
}

/// Lower-case hexadecimal rendering of a byte sequence, two digits per byte.
pub open spec fn hex_of(data: Seq<u8>) -> Seq<char>
    decreases data.len(),
{
    if data.len() == 0 {
        Seq::empty()
    } else {
        seq![
            hex_digit_char((data[0] / 16) as nat),
            hex_digit_char((data[0] % 16) as nat),
        ] + hex_of(data.skip(1))
    }
}

proof fn lemma_hex_of_snoc(s: Seq<u8>, b: u8)
    ensures
        hex_of(s.push(b)) == hex_of(s) + seq![
            hex_digit_char((b / 16) as nat),
            hex_digit_char((b % 16) as nat),
        ],
    decreases s.len(),
{
    let p = s.push(b);
    let pair = seq![hex_digit_char((b / 16) as nat), hex_digit_char((b % 16) as nat)];
    if s.len() == 0 {
        assert(p[0] == b);
        assert(p.skip(1) =~= Seq::<u8>::empty());
        assert(hex_of(Seq::<u8>::empty()) == Seq::<char>::empty());
        assert(hex_of(p) == pair + hex_of(p.skip(1)));
        assert(hex_of(s) == Seq::<char>::empty());
        assert(hex_of(p) =~= hex_of(s) + pair);
    } else {
        lemma_hex_of_snoc(s.skip(1), b);
        let head = seq![
            hex_digit_char((s[0] / 16) as nat),
            hex_digit_char((s[0] % 16) as nat),
        ];
        assert(p.skip(1) =~= s.skip(1).push(b));
        assert(p[0] == s[0]);
        assert(hex_of(p) == head + hex_of(s.skip(1).push(b)));
        assert(hex_of(s) == head + hex_of(s.skip(1)));
        assert(hex_of(p) =~= hex_of(s) + pair);
    }
}

fn hex_digit(d: u8) -> (c: char)
    requires
        d < 16,
    ensures
        c == hex_digit_char(d as nat),
{
    if d == 0 {
        '0'
    } else if d == 1 {
        '1'
    } else if d == 2 {
        '2'
    } else if d == 3 {
        '3'
    } else if d == 4 {
        '4'
    } else if d == 5 {
        '5'
    } else if d == 6 {
        '6'
    } else if d == 7 {
        '7'
    } else if d == 8 {
        '8'
    } else if d == 9 {
        '9'
    } else if d == 10 {
        'a'
    } else if d == 11 {
        'b'
    } else if d == 12 {
        'c'
    } else if d == 13 {
        'd'
    } else if d == 14 {
        'e'
    } else {
        'f'
    }
}

/// Lower-case hex string of `data`, two digits per byte.
pub fn to_hex(data: &Vec<u8>) -> (r: String)
    ensures
        r@ == hex_of(data@),
{
    let mut out: Vec<char> = Vec::new();
    let mut i: usize = 0;
    while i < data.len()
        invariant
            i <= data@.len(),
            out@ == hex_of(data@.subrange(0, i as int)),
        decreases data@.len() - i,
    {
        let b = data[i];
        out.push(hex_digit(b / 16));
        out.push(hex_digit(b % 16));
        proof {
            lemma_hex_of_snoc(data@.subrange(0, i as int), b);
            assert(data@.subrange(0, i as int).push(b) =~= data@.subrange(0, i + 1));
            assert(out@ =~= hex_of(data@.subrange(0, i + 1)));
        }
        i = i + 1;
    }
    assert(data@.subrange(0, data@.len() as int) =~= data@);
    chars_to_string(&out)
}

/// The lower-case hex MD5 digest of a file's bytes, as contracts speak of it.
pub open spec fn md5_hex_spec(data: Seq<u8>) -> Seq<char> {
    hex_of(md5_of(data))
}

/// The hex rendering is two characters per byte.
pub proof fn lemma_hex_of_len(data: Seq<u8>)
    ensures
        hex_of(data).len() == 2 * data.len(),
    decreases data.len(),
{
    if data.len() > 0 {
        lemma_hex_of_len(data.skip(1));
    }
}

/// A streaming MD5 hasher: content is fed in chunks (of any size) and the
/// digest is taken at the end, so a large file never has to be held in
/// memory whole.
pub struct Md5Stream {
    /// The hasher itself, opaque to contracts except through `fed_bytes`.
    pub inner: md5::Md5,
}

impl Md5Stream {
    /// The bytes fed so far.
    pub open spec fn fed(&self) -> Seq<u8> {
        fed_bytes(self.inner)
    }

    /// A hasher that has seen nothing yet.
    pub fn new() -> (h: Md5Stream)
        ensures
            h.fed() == Seq::<u8>::empty(),
    {
        Md5Stream { inner: md5_new() }
    }

    /// Feeds one chunk; the hasher has then seen the old bytes followed by
    /// the chunk, regardless of how the content was split.
    pub fn update(&mut self, chunk: &[u8])
        ensures
            final(self).fed() == old(self).fed() + chunk@,
    {
        md5_update(&mut self.inner, chunk);
    }

    /// The lower-case 32-character hex digest of everything fed.
    pub fn finish(self) -> (r: String)
        ensures
            r@ == md5_hex_spec(self.fed()),
            r@.len() == 32,
    {
        let digest = md5_finalize(self.inner);
        proof {
            lemma_hex_of_len(digest@);
        }
        to_hex(&digest)
    }
}

/// Lower-case hex MD5 digest of `data`: always 32 characters.
pub fn calculate_md5(data: &Vec<u8>) -> (r: String)
    ensures
        r@ == md5_hex_spec(data@),
        r@.len() == 32,
{
    let mut h = Md5Stream::new();
    h.update(data.as_slice());
    proof {
        assert(Seq::<u8>::empty() + data@ =~= data@);
    }
    h.finish()
}

/// Whether a local file (`None` when it does not exist, else its bytes)
/// satisfies the given expectations. A missing expectation is "don't care";
/// a missing file always fails.
pub open spec fn file_check_spec(
    file: Option<Seq<u8>>,
    expected_md5: Option<Seq<char>>,
    expected_size: Option<u64>,
) -> bool {
    match file {
        Option::None => false,
        Option::Some(b) => {
            &&& match expected_size {
                Option::None => true,
                Option::Some(s) => b.len() == s,
            }
            &&& match expected_md5 {
                Option::None => true,
                Option::Some(m) => md5_hex_spec(b) == m,
            }
        },
    }
}

/// The bytes of an optional file, at the specification level.
pub open spec fn view_bytes(file: Option<&Vec<u8>>) -> Option<Seq<u8>> {
    match file {
        Option::None => Option::None,
        Option::Some(v) => Option::Some(v@),
    }
}

/// The characters of an optional string, at the specification level.
pub open spec fn view_chars(s: Option<&String>) -> Option<Seq<char>> {
    match s {
        Option::None => Option::None,
        Option::Some(v) => Option::Some(v@),
    }
}

/// Validates a local file against an optional expected MD5 hex digest and an
/// optional expected byte size. Returns false for a missing file; checks the
/// size before hashing, so a size mismatch costs no digest computation.
pub fn check_existing_file(
    file: Option<&Vec<u8>>,
    expected_md5: Option<&String>,
    expected_size: Option<u64>,
) -> (r: bool)
    ensures
        r == file_check_spec(view_bytes(file), view_chars(expected_md5), expected_size),
{
    match file {
        Option::None => false,
        Option::Some(bytes) => {
            if let Option::Some(s) = expected_size {
                if bytes.len() as u64 != s {
                    return false;
                }
            }
            if let Option::Some(m) = expected_md5 {
                let actual = calculate_md5(bytes);
                if actual != *m {
                    return false;
                }
            }
            true
        },
    }
}

/// The download of a file may be skipped only when both an expected hash and
/// an expected size are known and the local file already satisfies both.
pub fn should_skip_download(
    file: Option<&Vec<u8>>,
    md5: Option<&String>,
    size: Option<u64>,
) -> (r: bool)
    ensures
        r == (md5 is Some && size is Some && file_check_spec(
            view_bytes(file),
            view_chars(md5),
            size,
        )),
{
    match (md5, size) {
        (Option::Some(m), Option::Some(s)) => check_existing_file(
            file,
            Option::Some(m),
            Option::Some(s),
        ),
        _ => false,
    }
}

/// What a size-first look at a file settles before any content is read.
#[derive(Debug, Clone, Copy, PartialEq, Eq, Structural)]
pub enum QuickCheck {
    /// The file is missing or its size contradicts the expectation: the
    /// check has failed, and no content needs to be read.
    Invalid,
    /// Size (where expected) agrees and no hash is expected: the check has
    /// passed without reading content.
    Valid,
    /// Size (where expected) agrees and a hash is expected: the content
    /// must be hashed to decide.
    NeedHash,
}

/// What the cheap first half of the file check must answer, from the
/// file's observed existence and size alone.
pub open spec fn quick_check_spec(
    exists: bool,
    actual_size: u64,
    has_md5: bool,
    expected_size: Option<u64>,
) -> QuickCheck {
    if !exists {
        QuickCheck::Invalid
    } else if (match expected_size {
        Option::Some(s) => actual_size != s,
        Option::None => false,
    }) {
        QuickCheck::Invalid
    } else if has_md5 {
        QuickCheck::NeedHash
    } else {
        QuickCheck::Valid
    }
}

/// The cheap first half of the file check, from the file's observed
/// existence and size alone: a size mismatch fails before any content is
/// read, and hashing is requested only when a hash expectation remains.
pub fn check_size_first(
    exists: bool,
    actual_size: u64,
    has_md5: bool,
    expected_size: Option<u64>,
) -> (r: QuickCheck)
    ensures
        r == quick_check_spec(exists, actual_size, has_md5, expected_size),
{
    if !exists {
        return QuickCheck::Invalid;
    }
    if let Option::Some(s) = expected_size {
        if actual_size != s {
            return QuickCheck::Invalid;
        }
    }
    if has_md5 {
        QuickCheck::NeedHash
    } else {
        QuickCheck::Valid
    }
}

/// The second half of the file check: whether the computed hex digest
/// equals the expected one, character for character.
pub fn hash_check(actual_md5: &String, expected_md5: &String) -> (r: bool)
    ensures
        r == (actual_md5@ == expected_md5@),
{
    *actual_md5 == *expected_md5
}

/// With both a size and a hash expectation present, the check passes exactly
/// when the actual size equals the expected size and the actual digest equals
/// the expected digest; any single mismatch fails it, as does a missing file.
pub proof fn lemma_verify_iff(
    file: Option<Seq<u8>>,
    expected_md5: Seq<char>,
    expected_size: u64,
)
    ensures
        file_check_spec(file, Option::Some(expected_md5), Option::Some(expected_size))
            <==> (file is Some && file->0.len() == expected_size && md5_hex_spec(file->0)
            == expected_md5),
{
}

} // verus!
