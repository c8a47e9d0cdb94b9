use vstd::prelude::*;

verus! {

/// The SHA-256 digest of a byte sequence. The digest is a fixed function of
/// its input alone; it only gets a name here, and the trusted wrapper below
/// ties the name to the real implementation.
pub uninterp spec fn sha256_of(data: Seq<u8>) -> Seq<u8>;

/// Relies on `anchor_lang::solana_program::hash::hash`, which returns the
/// SHA-256 digest of the input bytes, and on `Hash::to_bytes`, which hands
/// out the digest's 32 bytes: the result depends on `data` alone and is
/// always 32 bytes long.
#[verifier::external_body]
fn sha256(data: &Vec<u8>) -> (r: Vec<u8>)
    ensures
        r@ == sha256_of(data@),
        r@.len() == 32,
{
    anchor_lang::solana_program::hash::hash(data.as_slice())
        .to_bytes()
        .to_vec()
}

/// The preimage the operator commits to: the answer bytes, one `:` separator
/// byte (ASCII 58), then the salt bytes. This is a plain concatenation join,
/// not a length-prefixed encoding; it is safe because the salt is
/// operator-chosen and secret, not because the encoding is injective.
pub open spec fn commit_preimage(answer: Seq<u8>, salt: Seq<u8>) -> Seq<u8> {
    answer + seq![58u8] + salt
}

/// Appends every byte of `src` to `dst`.
fn append_bytes(dst: &mut Vec<u8>, src: &Vec<u8>)
    ensures
        final(dst)@ == old(dst)@ + src@,
{
    let mut i: usize = 0;
    while i < src.len()
        invariant
            i <= src@.len(),
            dst@ == old(dst)@ + src@.take(i as int),
        decreases src@.len() - i,
    {
        dst.push(src[i]);
        proof {
            assert(old(dst)@ + src@.take(i + 1) =~= (old(dst)@ + src@.take(i as int)).push(
                src@[i as int],
            ));
        }
        i = i + 1;
    }
    proof {
        assert(src@.take(src@.len() as int) =~= src@);
    }
}

/// Builds the commitment preimage `"{answer}:{salt}"` as bytes.
pub fn commit_input(answer: &Vec<u8>, salt: &Vec<u8>) -> (r: Vec<u8>)
    ensures
        r@ == commit_preimage(answer@, salt@),
{
    let mut out: Vec<u8> = Vec::new();
    append_bytes(&mut out, answer);
    out.push(58);
    append_bytes(&mut out, salt);
    proof {
        assert(out@ =~= commit_preimage(answer@, salt@));
    }
    out
}

/// Recomputes the digest of `"{answer}:{salt}"` and compares it byte for
/// byte with the stored commitment: true exactly when the reveal matches.
pub fn verify_commit(answer: &Vec<u8>, salt: &Vec<u8>, commit_hash: &Vec<u8>) -> (r: bool)
    ensures
        r == (sha256_of(commit_preimage(answer@, salt@)) == commit_hash@),
{
    let input = commit_input(answer, salt);
    let computed = sha256(&input);
    let eq = computed == *commit_hash;
    proof {
        if eq {
            assert(computed@ =~= commit_hash@);
        } else {
            assert(!(computed@ =~= commit_hash@));
        }
    }
    eq
}

} // verus!
