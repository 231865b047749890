//! The MD5 checksum of a download, compared with the one that the catalog names.

use vstd::prelude::*;
use vstd::slice::slice_subrange;
use crate::text::{eq_ignore_ascii_case, same_ignoring_ascii_case};

verus! {

/// The size of the blocks in which a download is fed to the hash.
pub const HASH_BLOCK_LEN: usize = 8192;

/// The running hash of the `md5` crate.
#[verifier::external_type_specification]
#[verifier::external_body]
pub struct ExMd5Context(md5::Context);

/// The bytes that a hash context has been fed so far.
pub uninterp spec fn md5_consumed(context: md5::Context) -> Seq<u8>;

/// The MD5 digest of `data`, as the `md5` crate computes it, in 32
/// lower-case hexadecimal digits.
pub uninterp spec fn md5_hex(data: Seq<u8>) -> Seq<char>;

/// `md5::Context::new`: a context that has been fed nothing.
#[verifier::external_body]
pub(crate) fn md5_new() -> (context: md5::Context)
    ensures
        md5_consumed(context) == Seq::<u8>::empty(),
{
    md5::Context::new()
}

/// `md5::Context::consume`: the block is fed behind what was fed before.
#[verifier::external_body]
pub(crate) fn md5_consume(context: &mut md5::Context, block: &[u8])
    ensures
        md5_consumed(*final(context)) == md5_consumed(*old(context)) + block@,
{
    context.consume(block);
}

/// `md5::Context::finalize`, and the digest written with `{:x}`: the digest
/// of all that was fed, in lower-case hexadecimal digits.
#[verifier::external_body]
pub(crate) fn md5_finish_hex(context: md5::Context) -> (digest: String)
    ensures
        digest@ == md5_hex(md5_consumed(context)),
{
    format!("{:x}", context.finalize())
}

/// A checksum in the making.
pub struct Md5Check {
    context: md5::Context,
}

impl Md5Check {
    /// The bytes fed so far.
    pub closed spec fn fed(&self) -> Seq<u8> {
        md5_consumed(self.context)
    }

    /// A check that has been fed nothing.
    pub fn new() -> (check: Self)
        ensures
            check.fed() == Seq::<u8>::empty(),
    {
        Md5Check { context: md5_new() }
    }

    /// Feeds the next block of the file.
    pub fn update(&mut self, block: &[u8])
        ensures
            final(self).fed() == old(self).fed() + block@,
    {
        md5_consume(&mut self.context, block);
    }

    /// Whether the digest of what was fed is `expected_md5`, in either case
    /// of its hexadecimal digits.
    pub fn matches(self, expected_md5: &str) -> (same: bool)
        ensures
            same == same_ignoring_ascii_case(md5_hex(self.fed()), expected_md5@),
    {
        let digest = md5_finish_hex(self.context);
        eq_ignore_ascii_case(digest.as_str(), expected_md5)
    }
}

/// Checks the bytes of a download against the checksum that the catalog
/// names, feeding them to the hash block by block.
pub fn verify_md5(data: &[u8], expected_md5: &str) -> (same: bool)
    ensures
        same == same_ignoring_ascii_case(md5_hex(data@), expected_md5@),
{
    let mut check = Md5Check::new();
    let mut at: usize = 0;
    while at < data.len()
        invariant
            at <= data@.len(),
            check.fed() == data@.subrange(0, at as int),
        decreases data@.len() - at,
    {
        let end = if data.len() - at > HASH_BLOCK_LEN {
            at + HASH_BLOCK_LEN
        } else {
            data.len()
        };
        check.update(slice_subrange(data, at, end));
        assert(data@.subrange(0, at as int) + data@.subrange(at as int, end as int)
            =~= data@.subrange(0, end as int));
        at = end;
    }
    assert(data@.subrange(0, data@.len() as int) =~= data@);
    check.matches(expected_md5)
}

} // verus!
