//! How the house draws its number from the environment readings of a turn.

use vstd::prelude::*;

verus! {

/// The readings the environment supplies for one turn: a sequence counter
/// (a ledger slot) and a wall-clock timestamp.
#[derive(Clone, Copy, Debug, PartialEq, Eq, Structural)]
pub struct EnvironmentalEntropy {
    pub slot: u64,
    pub unix_timestamp: u64,
}

/// The `n` lowest bytes of `x`, least significant first.
pub open spec fn le_bytes(x: nat, n: nat) -> Seq<u8>
    decreases n,
{
    if n == 0 {
        seq![]
    } else {
        seq![(x % 256) as u8] + le_bytes(x / 256, (n - 1) as nat)
    }
}

/// The number that the bytes `s` spell, least significant first.
pub open spec fn le_value(s: Seq<u8>) -> nat
    decreases s.len(),
{
    if s.len() == 0 {
        0
    } else {
        s[0] as nat + 256 * le_value(s.drop_first())
    }
}

/// `256` to the power `n`.
pub open spec fn pow256(n: nat) -> nat
    decreases n,
{
    if n == 0 {
        1
    } else {
        256 * pow256((n - 1) as nat)
    }
}

/// The bytes that are hashed: the counter, then the timestamp, eight bytes
/// each, little-endian.
pub open spec fn entropy_bytes(e: EnvironmentalEntropy) -> Seq<u8> {
    le_bytes(e.slot as nat, 8) + le_bytes(e.unix_timestamp as nat, 8)
}

/// The house's number for a digest: its first eight bytes read as a
/// little-endian integer, reduced modulo six, plus one.
pub open spec fn choice_of_digest(digest: Seq<u8>) -> u8 {
    (le_value(digest.subrange(0, 8)) % 6 + 1) as u8
}

/// The house's number for a turn with the readings `e`.
pub open spec fn house_choice(e: EnvironmentalEntropy) -> u8 {
    choice_of_digest(sha256_digest(entropy_bytes(e)))
}

/// The SHA-256 digest of `data`.
pub uninterp spec fn sha256_digest(data: Seq<u8>) -> Seq<u8>;

/// Relies on `solana_program::hash::hashv`, which returns the SHA-256 digest
/// of the concatenation of its slices: a function of those bytes alone.
#[verifier::external_body]
fn sha256(data: &[u8]) -> (r: [u8; 32])
    ensures
        r@ == sha256_digest(data@),
{
    anchor_lang::solana_program::hash::hashv(&[data]).to_bytes()
}

proof fn lemma_le_value_bound(s: Seq<u8>)
    ensures
        le_value(s) < pow256(s.len()),
    decreases s.len(),
{
    if s.len() > 0 {
        lemma_le_value_bound(s.drop_first());
        let rest = le_value(s.drop_first());
        let p = pow256((s.len() - 1) as nat);
        assert(s[0] as nat + 256 * rest < 256 * p) by (nonlinear_arith)
            requires
                rest < p,
                s[0] < 256,
        ;
    }
}

/// Appends the eight bytes of `x`, least significant first.
fn push_le_bytes(out: &mut Vec<u8>, x: u64)
    ensures
        final(out)@ == old(out)@ + le_bytes(x as nat, 8),
{
    let ghost start = out@;
    let mut v: u64 = x;
    let mut k: usize = 0;
    while k < 8
        invariant
            k <= 8,
            out@ + le_bytes(v as nat, (8 - k) as nat) == start + le_bytes(x as nat, 8),
        decreases 8 - k,
    {
        let ghost before = out@;
        let byte = (v % 256) as u8;
        proof {
            assert(le_bytes(v as nat, (8 - k) as nat) == seq![byte] + le_bytes(
                (v / 256) as nat,
                (8 - k - 1) as nat,
            ));
        }
        out.push(byte);
        v = v / 256;
        k = k + 1;
        proof {
            assert(out@ + le_bytes(v as nat, (8 - k) as nat) =~= before + (seq![byte] + le_bytes(
                v as nat,
                (8 - k) as nat,
            )));
        }
    }
}

/// Reads the first eight bytes of `digest` as a little-endian integer.
fn read_le_u64(digest: &[u8; 32]) -> (r: u64)
    ensures
        r as nat == le_value(digest@.subrange(0, 8)),
{
    let mut acc: u64 = 0;
    let mut i: usize = 8;
    proof {
        assert(digest@.subrange(8, 8) =~= Seq::<u8>::empty());
    }
    while i > 0
        invariant
            i <= 8,
            digest@.len() == 32,
            acc as nat == le_value(digest@.subrange(i as int, 8)),
        decreases i,
    {
        let ghost tail = digest@.subrange(i as int, 8);
        i = i - 1;
        let ghost s = digest@.subrange(i as int, 8);
        proof {
            assert(s.drop_first() =~= tail);
            lemma_le_value_bound(tail);
            lemma_pow256_eight();
            lemma_pow256_monotone((8 - i - 1) as nat, 7);
            assert(acc as nat * 256 + digest@[i as int] < 0x1_0000_0000_0000_0000) by (nonlinear_arith)
                requires
                    acc < pow256(7),
                    pow256(8) == 256 * pow256(7),
                    pow256(8) == 0x1_0000_0000_0000_0000,
                    digest@[i as int] < 256,
            ;
        }
        acc = acc * 256 + digest[i] as u64;
    }
    acc
}

proof fn lemma_pow256_eight()
    ensures
        pow256(8) == 0x1_0000_0000_0000_0000,
        pow256(8) == 256 * pow256(7),
{
    reveal_with_fuel(pow256, 9);
}

proof fn lemma_pow256_monotone(a: nat, b: nat)
    requires
        a <= b,
    ensures
        pow256(a) <= pow256(b),
    decreases b,
{
    if a < b {
        lemma_pow256_monotone(a, (b - 1) as nat);
    }
}

/// The house's number for a given digest.
pub fn choice_from_digest(digest: &[u8; 32]) -> (r: u8)
    ensures
        r == choice_of_digest(digest@),
        1 <= r <= 6,
{
    let num = read_le_u64(digest);
    (num % 6 + 1) as u8
}

/// Draws the house's number for a turn: the readings are serialised, hashed
/// with SHA-256, and the digest is reduced to a number from one to six.
pub fn derive_choice(entropy: EnvironmentalEntropy) -> (r: u8)
    ensures
        r == house_choice(entropy),
        1 <= r <= 6,
{
    let mut bytes: Vec<u8> = Vec::new();
    push_le_bytes(&mut bytes, entropy.slot);
    push_le_bytes(&mut bytes, entropy.unix_timestamp);
    proof {
        assert(bytes@ =~= entropy_bytes(entropy));
    }
    let digest = sha256(bytes.as_slice());
    choice_from_digest(&digest)
}

/// The house's number depends on the readings alone, and is always from
/// one to six: equal readings give equal numbers.
pub proof fn lemma_derive_choice_deterministic(a: EnvironmentalEntropy, b: EnvironmentalEntropy)
    requires
        a == b,
    ensures
        house_choice(a) == house_choice(b),
        1 <= house_choice(a) <= 6,
{
}

} // verus!
