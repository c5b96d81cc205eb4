use vstd::prelude::*;

verus! {

/// The SHA-256 digest of a byte string, as the ledger host computes it.
pub uninterp spec fn sha256(data: Seq<u8>) -> Seq<u8>;

/// Calls `soroban_sdk::crypto::Crypto::sha256`, on an environment made for
/// the call and with the bytes handed over as a `soroban_sdk::Bytes`.
/// Believed and not proved: the array that comes back is the SHA-256 digest
/// of exactly the bytes given, and depends on nothing else. The call is
/// charged against the host's metering budget, which short inputs stay far
/// inside; hence the bound on the length.
#[verifier::external_body]
fn host_sha256(data: &Vec<u8>) -> (digest: [u8; 32])
    requires
        data@.len() <= 1024,
    ensures
        digest@ == sha256(data@),
{
    let env = soroban_sdk::Env::default();
    let bytes = soroban_sdk::Bytes::from_slice(&env, data.as_slice());
    env.crypto().sha256(&bytes).to_array()
}

/// The digits of `v` to the base 256, most significant first, in `width`
/// places.
pub open spec fn be_bytes(v: nat, width: nat) -> Seq<u8>
    decreases width,
{
    if width == 0 {
        Seq::empty()
    } else {
        be_bytes(v / 256, (width - 1) as nat).push((v % 256) as u8)
    }
}

/// An amount as an unsigned number of 128 bits, in two's complement.
pub open spec fn amount_code(amount: i128) -> nat {
    if amount >= 0 {
        amount as nat
    } else {
        (amount + 0x1_0000_0000_0000_0000_0000_0000_0000_0000) as nat
    }
}

/// What is hashed for a commitment: the amount in sixteen bytes, most
/// significant first, then the salt.
pub open spec fn preimage(amount: i128, salt: Seq<u8>) -> Seq<u8> {
    be_bytes(amount_code(amount), 16) + salt
}

/// The commitment that binds `amount` and `salt`.
pub open spec fn commitment_of(amount: i128, salt: Seq<u8>) -> Seq<u8> {
    sha256(preimage(amount, salt))
}

pub proof fn lemma_be_bytes_len(v: nat, width: nat)
    ensures
        be_bytes(v, width).len() == width,
    decreases width,
{
    if width > 0 {
        lemma_be_bytes_len(v / 256, (width - 1) as nat);
    }
}

fn push_be_bytes(out: &mut Vec<u8>, v: u128, width: usize)
    ensures
        final(out)@ == old(out)@ + be_bytes(v as nat, width as nat),
    decreases width,
{
    if width > 0 {
        push_be_bytes(out, v / 256, (width - 1) as usize);
        out.push((v % 256) as u8);
        assert(out@ =~= old(out)@ + be_bytes(v as nat, width as nat));
    } else {
        assert(out@ =~= old(out)@ + be_bytes(v as nat, width as nat));
    }
}

fn encode_amount(amount: i128) -> (code: u128)
    ensures
        code == amount_code(amount),
{
    if amount >= 0 {
        amount as u128
    } else {
        let low: i128 = amount + i128::MAX + 1;
        (low as u128) + 0x8000_0000_0000_0000_0000_0000_0000_0000u128
    }
}

/// Writes out the bytes that are hashed for a commitment.
pub fn encode_preimage(amount: i128, salt: &[u8; 32]) -> (out: Vec<u8>)
    ensures
        out@ == preimage(amount, salt@),
        out@.len() == 48,
{
    let mut out: Vec<u8> = Vec::new();
    push_be_bytes(&mut out, encode_amount(amount), 16);
    proof {
        lemma_be_bytes_len(amount_code(amount), 16);
    }
    let ghost head = out@;
    let mut k: usize = 0;
    while k < 32
        invariant
            k <= 32,
            head == be_bytes(amount_code(amount), 16),
            head.len() == 16,
            out@ == head + salt@.subrange(0, k as int),
        decreases 32 - k,
    {
        out.push(salt[k]);
        assert(out@ =~= head + salt@.subrange(0, k + 1));
        k = k + 1;
    }
    assert(salt@.subrange(0, 32) =~= salt@);
    out
}

/// Computes the commitment that binds `amount` and `salt`.
pub fn commitment_hash(amount: i128, salt: &[u8; 32]) -> (digest: [u8; 32])
    ensures
        digest@ == commitment_of(amount, salt@),
{
    let data = encode_preimage(amount, salt);
    host_sha256(&data)
}

/// Whether two digests agree byte for byte.
pub fn digests_equal(a: &[u8; 32], b: &[u8; 32]) -> (r: bool)
    ensures
        r == (a@ == b@),
{
    let mut k: usize = 0;
    while k < 32
        invariant
            k <= 32,
            a@.subrange(0, k as int) == b@.subrange(0, k as int),
        decreases 32 - k,
    {
        if a[k] != b[k] {
            return false;
        }
        assert(a@.subrange(0, k + 1) =~= a@.subrange(0, k as int).push(a@[k as int]));
        assert(b@.subrange(0, k + 1) =~= b@.subrange(0, k as int).push(b@[k as int]));
        k = k + 1;
    }
    assert(a@.subrange(0, 32) =~= a@);
    assert(b@.subrange(0, 32) =~= b@);
    true
}

} // verus!
