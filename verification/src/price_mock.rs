use vstd::prelude::*;
use crate::structs::Pubkey;

verus! {

/// The SHA-256 digest of `bytes`.
pub uninterp spec fn sha256_digest(bytes: Seq<u8>) -> Seq<u8>;

/// Calls `solana_sha256_hasher::hash` and returns the digest's 32 bytes; claimed: the
/// result is `sha256_digest` of the input bytes, a function of them alone.
#[verifier::external_body]
fn sha256(bytes: &[u8]) -> (r: [u8; 32])
    ensures
        r@ == sha256_digest(bytes@),
{
    solana_sha256_hasher::hash(bytes).to_bytes()
}

/// The `n` low bytes of `x`, least significant first.
pub open spec fn le_bytes(x: nat, n: nat) -> Seq<u8>
    decreases n,
{
    if n == 0 {
        Seq::empty()
    } else {
        seq![(x % 256) as u8] + le_bytes(x / 256, (n - 1) as nat)
    }
}

/// Appends the `n` low bytes of `x` to `out`, least significant first.
fn push_le_bytes(out: &mut Vec<u8>, x: u128, n: usize)
    ensures
        final(out)@ == old(out)@ + le_bytes(x as nat, n as nat),
{
    let mut v = x;
    let mut i: usize = 0;
    while i < n
        invariant
            0 <= i <= n,
            old(out)@ + le_bytes(x as nat, n as nat) == out@ + le_bytes(v as nat, (n - i) as nat),
        decreases n - i,
    {
        let ghost before = out@;
        let ghost rest = le_bytes((v / 256) as nat, (n - i - 1) as nat);
        assert(le_bytes(v as nat, (n - i) as nat) == seq![(v % 256) as u8] + rest);
        out.push((v % 256) as u8);
        v = v / 256;
        i = i + 1;
        assert((before + seq![out@.last()]) + rest =~= before + (seq![out@.last()] + rest));
    }
}

/// The bytes of one packed feed: its id, its value as 16 little-endian bytes (two's
/// complement), and its minimum number of oracle samples.
pub open spec fn feed_bytes(feed_id: [u8; 32], feed_value: i128, min_oracle_samples: u8) -> Seq<u8> {
    feed_id@ + le_bytes((feed_value as u128) as nat, 16) + seq![min_oracle_samples]
}

/// The bytes of the first `n` feeds, in order.
pub open spec fn feeds_bytes(feed_ids: Seq<[u8; 32]>, feed_values: Seq<i128>, min_oracle_samples: u8, n: nat)
    -> Seq<u8>
    decreases n,
{
    if n == 0 {
        Seq::empty()
    } else {
        feeds_bytes(feed_ids, feed_values, min_oracle_samples, (n - 1) as nat) + feed_bytes(feed_ids[n - 1],
            feed_values[n - 1], min_oracle_samples)
    }
}

/// The trailing marker of a quote account, "SBOD".
pub open spec fn quote_tail() -> Seq<u8> {
    seq![83u8, 66u8, 79u8, 68u8]
}

/// A mocked oracle quote account's bytes: the queue's address; an empty signature list
/// (a two byte count); the signed slot hash; the feed count (one byte, truncated) and
/// the feeds; an empty oracle index list (a one byte count); the slot (eight
/// little-endian bytes); the version, 1; and the trailing marker.
pub open spec fn spec_quote_bytes(
    queue: Pubkey,
    signed_slothash: Seq<u8>,
    feed_ids: Seq<[u8; 32]>,
    feed_values: Seq<i128>,
    min_oracle_samples: u8,
    slot: u64,
) -> Seq<u8> {
    queue.bytes@ + le_bytes(0, 2) + signed_slothash + seq![feed_ids.len() as u8] + feeds_bytes(feed_ids,
        feed_values, min_oracle_samples, feed_ids.len()) + seq![0u8] + le_bytes(slot as nat, 8) + seq![1u8]
        + quote_tail()
}

/// Encodes a mocked oracle quote account (see `spec_quote_bytes`).
pub fn encode_switchboard_quote(
    queue: Pubkey,
    signed_slothash: [u8; 32],
    feed_ids: &Vec<[u8; 32]>,
    feed_values: &Vec<i128>,
    min_oracle_samples: u8,
    slot: u64,
) -> (r: Vec<u8>)
    requires
        feed_ids.len() == feed_values.len(),
    ensures
        r@ == spec_quote_bytes(queue, signed_slothash@, feed_ids@, feed_values@, min_oracle_samples, slot),
{
    let mut out: Vec<u8> = Vec::new();
    let mut k: usize = 0;
    while k < 32
        invariant
            0 <= k <= 32,
            out@ == queue.bytes@.take(k as int),
        decreases 32 - k,
    {
        out.push(queue.bytes[k]);
        k = k + 1;
        assert(out@ =~= queue.bytes@.take(k as int));
    }
    assert(queue.bytes@.take(32) =~= queue.bytes@);
    push_le_bytes(&mut out, 0, 2);
    let ghost head = out@;
    k = 0;
    while k < 32
        invariant
            0 <= k <= 32,
            out@ == head + signed_slothash@.take(k as int),
        decreases 32 - k,
    {
        out.push(signed_slothash[k]);
        k = k + 1;
        assert(out@ =~= head + signed_slothash@.take(k as int));
    }
    assert(signed_slothash@.take(32) =~= signed_slothash@);
    out.push(feed_ids.len() as u8);
    let ghost before_feeds = out@;
    let mut i: usize = 0;
    while i < feed_ids.len()
        invariant
            0 <= i <= feed_ids.len(),
            feed_ids.len() == feed_values.len(),
            out@ == before_feeds + feeds_bytes(feed_ids@, feed_values@, min_oracle_samples, i as nat),
        decreases feed_ids.len() - i,
    {
        let ghost before = out@;
        let id = feed_ids[i];
        k = 0;
        while k < 32
            invariant
                0 <= k <= 32,
                out@ == before + id@.take(k as int),
            decreases 32 - k,
        {
            out.push(id[k]);
            k = k + 1;
            assert(out@ =~= before + id@.take(k as int));
        }
        assert(id@.take(32) =~= id@);
        let value = feed_values[i] as u128;
        push_le_bytes(&mut out, value, 16);
        out.push(min_oracle_samples);
        i = i + 1;
        assert(out@ =~= before_feeds + feeds_bytes(feed_ids@, feed_values@, min_oracle_samples, i as nat));
    }
    out.push(0u8);
    push_le_bytes(&mut out, slot as u128, 8);
    out.push(1u8);
    out.push(83u8);
    out.push(66u8);
    out.push(79u8);
    out.push(68u8);
    assert(out@ =~= spec_quote_bytes(queue, signed_slothash@, feed_ids@, feed_values@, min_oracle_samples, slot));
    out
}

/// Why a mocked quote is refused: one value must be given per feed id.
#[derive(Debug, Clone, Copy, PartialEq, Eq, Structural)]
pub enum MockQuoteError {
    ConstraintRaw,
}

/// A mocked oracle quote account for the slot `slot`: refused unless one value is given
/// per feed id; signed with the SHA-256 hash of the slot's eight little-endian bytes.
pub fn set_mocked_switchboard_quote_data(
    queue: Pubkey,
    slot: u64,
    feed_ids: &Vec<[u8; 32]>,
    feed_values: &Vec<i128>,
    min_feed_oracle_samples: u8,
) -> (r: Result<Vec<u8>, MockQuoteError>)
    ensures
        feed_ids.len() != feed_values.len() ==> r == Err::<Vec<u8>, MockQuoteError>(MockQuoteError::ConstraintRaw),
        feed_ids.len() == feed_values.len() ==> (r matches Ok(bytes) && bytes@ == spec_quote_bytes(queue,
            sha256_digest(le_bytes(slot as nat, 8)), feed_ids@, feed_values@, min_feed_oracle_samples, slot)),
{
    if feed_ids.len() != feed_values.len() {
        return Err(MockQuoteError::ConstraintRaw);
    }
    let mut slot_bytes: Vec<u8> = Vec::new();
    push_le_bytes(&mut slot_bytes, slot as u128, 8);
    let signed_slothash = sha256(slot_bytes.as_slice());
    Ok(encode_switchboard_quote(queue, signed_slothash, feed_ids, feed_values, min_feed_oracle_samples, slot))
}

} // verus!
