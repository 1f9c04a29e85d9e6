//! Instruction discriminators: the first eight bytes of the SHA-256 digest
//! of `"global:"` followed by the instruction name, the convention under
//! which a chained step names the ledger instruction to run next.

use vstd::prelude::*;
use vstd::string::StringSliceAdditionalSpecFns;

verus! {

/// The SHA-256 digest of a byte sequence. The digest is computed by an
/// external routine; nothing here states which bytes it holds, only that it
/// is a function of the input alone.
pub uninterp spec fn sha256_of(data: Seq<u8>) -> Seq<u8>;

/// The bytes of the namespace prefix `"global:"`.
pub open spec fn namespace_prefix() -> Seq<u8> {
    "global:".spec_bytes()
}

/// The bytes hashed to form an instruction's discriminator: the namespace
/// prefix followed by the instruction name.
pub open spec fn sighash_preimage(name: Seq<u8>) -> Seq<u8> {
    namespace_prefix() + name
}

/// The eight-byte discriminator of the named instruction.
pub open spec fn sighash_of(name: Seq<u8>) -> Seq<u8> {
    sha256_of(sighash_preimage(name)).take(8)
}

/// Relies on `solana_program::hash::hash`: a SHA-256 digest of the input
/// bytes alone, returned as a 32-byte hash value.
#[verifier::external_body]
fn sha256(data: &Vec<u8>) -> (r: Vec<u8>)
    ensures
        r@ == sha256_of(data@),
        r@.len() == 32,
{
    solana_program::hash::hash(data.as_slice()).to_bytes().to_vec()
}

/// Appends every byte of `bytes` to `out`.
fn push_bytes(out: &mut Vec<u8>, bytes: &[u8])
    ensures
        final(out)@ == old(out)@ + bytes@,
{
    let ghost out0 = out@;
    let n: usize = bytes.len();
    let mut i: usize = 0;
    while i < n
        invariant
            out0 == old(out)@,
            n == bytes@.len(),
            i <= n,
            out@ == out0 + bytes@.take(i as int),
        decreases n - i,
    {
        out.push(bytes[i]);
        proof {
            assert(out@ =~= out0 + bytes@.take(i + 1));
        }
        i += 1;
    }
    proof {
        assert(out0 + bytes@.take(n as int) =~= out0 + bytes@);
    }
}

/// Computes the eight-byte discriminator of the named instruction: the
/// leading bytes of the SHA-256 digest of `"global:"` followed by the name.
pub fn anchor_sighash(name: &str) -> (r: Vec<u8>)
    ensures
        r@ == sighash_of(name.spec_bytes()),
        r@.len() == 8,
{
    let mut preimage: Vec<u8> = Vec::new();
    push_bytes(&mut preimage, "global:".as_bytes());
    push_bytes(&mut preimage, name.as_bytes());
    proof {
        assert(preimage@ =~= sighash_preimage(name.spec_bytes()));
    }
    let digest = sha256(&preimage);
    let mut r: Vec<u8> = Vec::new();
    let mut i: usize = 0;
    while i < 8
        invariant
            i <= 8,
            digest@ == sha256_of(sighash_preimage(name.spec_bytes())),
            digest@.len() == 32,
            r@ == digest@.take(i as int),
        decreases 8 - i,
    {
        r.push(digest[i]);
        proof {
            assert(r@ =~= digest@.take(i + 1));
        }
        i += 1;
    }
    r
}

} // verus!
