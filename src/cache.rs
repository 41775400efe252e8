//! The on-disk thumbnail cache: where the thumbnail of a source image is
//! kept, and when a kept thumbnail is stale.
//!
//! A thumbnail's file is named after the MD5 digest, in lowercase hex, of the
//! bytes that std's `Hash` for `Path` feeds a hasher for the canonical path
//! of its source.

use vstd::prelude::*;
use vstd::string::StringExecFns;

use md5::Digest;
use std::hash::Hash;

verus! {

/// The MD5 digest of a byte sequence.
pub uninterp spec fn md5_of(bytes: Seq<u8>) -> Seq<u8>;

/// Relies on `md5::Md5::digest` (the `md-5` crate): the MD5 digest of the
/// bytes, which is 16 bytes long.
#[verifier::external_body]
fn md5_digest(bytes: &[u8]) -> (r: Vec<u8>)
    ensures
        r@ == md5_of(bytes@),
        r@.len() == 16,
{
    md5::Md5::digest(bytes).to_vec()
}

/// The lowercase hexadecimal digits.
pub open spec fn hex_digits() -> Seq<char> {
    seq!['0', '1', '2', '3', '4', '5', '6', '7', '8', '9', 'a', 'b', 'c', 'd', 'e', 'f']
}

/// Two lowercase hex digits for each byte, the high half of the byte first.
pub open spec fn hex_of(bytes: Seq<u8>) -> Seq<char>
    decreases bytes.len(),
{
    if bytes.len() == 0 {
        Seq::empty()
    } else {
        let last = bytes.last() as int;
        hex_of(bytes.drop_last()) + seq![hex_digits()[last / 16], hex_digits()[last % 16]]
    }
}

/// The hex form of a byte sequence has two characters for each byte.
pub proof fn lemma_hex_len(bytes: Seq<u8>)
    ensures
        hex_of(bytes).len() == 2 * bytes.len(),
    decreases bytes.len(),
{
    if bytes.len() > 0 {
        lemma_hex_len(bytes.drop_last());
    }
}

/// Relies on `hex::encode`: each byte becomes two lowercase hex digits, the
/// high half first (the table `0123456789abcdef` of hex 0.4).
#[verifier::external_body]
fn hex_encode(bytes: &[u8]) -> (r: String)
    ensures
        r@ == hex_of(bytes@),
{
    hex::encode(bytes)
}

/// A hasher that keeps the bytes it is fed rather than reducing them.
pub struct HashCollecter {
    data: Vec<u8>,
}

impl HashCollecter {
    pub closed spec fn data_spec(&self) -> Seq<u8> {
        self.data@
    }

    /// A collector that holds nothing.
    pub fn new() -> (r: Self)
        ensures
            r.data_spec() == Seq::<u8>::empty(),
    {
        HashCollecter { data: Vec::new() }
    }

    /// The bytes collected.
    pub fn data(self) -> (r: Vec<u8>)
        ensures
            r@ == self.data_spec(),
    {
        self.data
    }

    /// Append `bytes` to what was collected.
    pub fn collect(&mut self, bytes: &[u8])
        ensures
            final(self).data_spec() == old(self).data_spec() + bytes@,
    {
        let mut i: usize = 0;
        while i < bytes.len()
            invariant
                0 <= i <= bytes@.len(),
                self.data_spec() == old(self).data_spec() + bytes@.subrange(0, i as int),
            decreases bytes@.len() - i,
        {
            self.data.push(bytes[i]);
            i += 1;
            proof {
                assert(bytes@.subrange(0, i as int) =~= bytes@.subrange(0, i - 1).push(
                    bytes@[i - 1],
                ));
            }
        }
        proof {
            assert(bytes@.subrange(0, bytes@.len() as int) =~= bytes@);
        }
    }
}

impl std::hash::Hasher for HashCollecter {
    /// The number of bytes collected: the collector keeps its input whole.
    fn finish(&self) -> u64 {
        self.data.len() as u64
    }

    fn write(&mut self, bytes: &[u8]) {
        self.collect(bytes);
    }
}

/// Relies on std's `Hash` for `Path`: it feeds the hasher bytes that depend on
/// the path and on the platform. Nothing is stated of them.
#[verifier::external_body]
fn hash_path(path: &str, hasher: &mut HashCollecter) {
    std::path::Path::new(path).hash(hasher)
}

/// The bytes of a path that go into its cache key.
pub fn path_to_bytes(path: &str) -> Vec<u8> {
    let mut hasher = HashCollecter::new();
    hash_path(path, &mut hasher);
    hasher.data()
}

/// The cache key of the bytes of a path: their MD5 digest in lowercase hex.
pub fn cache_key(bytes: &[u8]) -> (r: String)
    ensures
        r@ == hex_of(md5_of(bytes@)),
        r@.len() == 32,
{
    let digest = md5_digest(bytes);
    proof {
        lemma_hex_len(digest@);
    }
    hex_encode(digest.as_slice())
}

/// Whether a path is absolute.
pub open spec fn is_absolute(path: Seq<char>) -> bool {
    path.len() > 0 && path[0] == '/'
}

/// The cache key of an absolute path.
pub fn hash_filepath(path: &str) -> (r: String)
    requires
        is_absolute(path@),
    ensures
        exists|bytes: Seq<u8>| r@ == hex_of(md5_of(bytes)),
        r@.len() == 32,
{
    let bytes = path_to_bytes(path);
    cache_key(bytes.as_slice())
}

/// `name` joined to `dir` with one separator between them.
pub open spec fn join_path(dir: Seq<char>, name: Seq<char>) -> Seq<char> {
    if dir.len() == 0 {
        name
    } else if dir.last() == '/' {
        dir + name
    } else {
        dir + seq!['/'] + name
    }
}

/// The file of the cache that holds the thumbnail with the given key.
pub open spec fn thumbnail_file_spec(thumbnail_dir: Seq<char>, key: Seq<char>) -> Seq<char> {
    join_path(thumbnail_dir, key) + seq!['.', 'p', 'n', 'g']
}

/// The file of the cache that holds the thumbnail with the given key.
pub fn thumbnail_file(thumbnail_dir: &str, key: &str) -> (r: String)
    ensures
        r@ == thumbnail_file_spec(thumbnail_dir@, key@),
{
    let mut path = String::from_str(thumbnail_dir);
    let n = thumbnail_dir.unicode_len();
    if n > 0 && thumbnail_dir.get_char(n - 1) != '/' {
        path.append("/");
    }
    path.append(key);
    path.append(".png");
    proof {
        reveal_strlit("/");
        reveal_strlit(".png");
    }
    path
}

/// The file of the cache for the thumbnail of the image at the absolute `path`.
pub fn thumbnail_path(path: &str, thumbnail_dir: &str) -> (r: String)
    requires
        is_absolute(path@),
    ensures
        exists|bytes: Seq<u8>|
            r@ == thumbnail_file_spec(thumbnail_dir@, hex_of(md5_of(bytes))),
{
    let key = hash_filepath(path);
    thumbnail_file(thumbnail_dir, key.as_str())
}

/// A point in time, in nanoseconds from the Unix epoch (negative before it).
#[derive(Clone, Copy, PartialEq, Eq, Structural, Debug)]
pub struct Timestamp {
    pub nanos: i128,
}

/// Whether a thumbnail is stale: its source was modified at or after the
/// thumbnail's creation. `None` when either time is unknown.
pub open spec fn stale_spec(created: Option<Timestamp>, modified: Option<Timestamp>) -> Option<
    bool,
> {
    match (created, modified) {
        (Some(c), Some(m)) => Some(m.nanos >= c.nanos),
        _ => None,
    }
}

/// Check whether a thumbnail is stale, given the creation time of the
/// thumbnail's file and the modification time of its source.
/// Returns `None` when this cannot be determined.
pub fn check_stale_thumbnail(created: Option<Timestamp>, modified: Option<Timestamp>) -> (r: Option<
    bool,
>)
    ensures
        r == stale_spec(created, modified),
{
    match (created, modified) {
        (Some(c), Some(m)) => Some(m.nanos >= c.nanos),
        _ => None,
    }
}

/// Whether a kept thumbnail may be used: it exists and is not known to be
/// stale (when staleness cannot be determined it is taken as fresh).
pub fn reuse_existing(exists: bool, stale: Option<bool>) -> (r: bool)
    ensures
        r == (exists && stale != Some(true)),
{
    exists && !matches!(stale, Some(true))
}

} // verus!
