use vstd::prelude::*;
use vstd::bytes::{lemma_auto_spec_u64_to_from_le_bytes, spec_u64_from_le_bytes, spec_u64_to_le_bytes, u64_to_le_bytes};

use crate::pubkey::Pubkey;

verus! {

/// The byte strings held in a list of seeds.
pub open spec fn seeds_view(seeds: Seq<Vec<u8>>) -> Seq<Seq<u8>> {
    seeds.map_values(|s: Vec<u8>| s@)
}

/// The seed that starts the address of an exchange's state account: the ASCII
/// bytes of `state`.
pub open spec fn state_tag() -> Seq<u8> {
    seq![115u8, 116u8, 97u8, 116u8, 101u8]
}

/// The seed that starts the address of an exchange's escrow token wallet: the
/// ASCII bytes of `wallet`.
pub open spec fn wallet_tag() -> Seq<u8> {
    seq![119u8, 97u8, 108u8, 108u8, 101u8, 116u8]
}

/// Seeds of a program-derived account of an exchange: the tag, the exchange
/// index in little-endian bytes, then the addresses that identify the exchange.
pub open spec fn exchange_seeds(tag: Seq<u8>, exchange_idx: u64, keys: Seq<Seq<u8>>) -> Seq<Seq<u8>> {
    seq![tag, spec_u64_to_le_bytes(exchange_idx)] + keys
}

/// The addresses that identify an exchange of SOL for tokens.
pub open spec fn sol_token_keys(initializer: Seq<u8>, taker: Seq<u8>, taker_mint: Seq<u8>) -> Seq<Seq<u8>> {
    seq![initializer, taker, taker_mint]
}

/// The addresses that identify an exchange of tokens for SOL.
pub open spec fn token_sol_keys(initializer: Seq<u8>, initializer_mint: Seq<u8>, taker: Seq<u8>) -> Seq<Seq<u8>> {
    seq![initializer, initializer_mint, taker]
}

/// The addresses that identify an exchange of tokens for tokens.
pub open spec fn token_token_keys(
    initializer: Seq<u8>,
    initializer_mint: Seq<u8>,
    taker: Seq<u8>,
    taker_mint: Seq<u8>,
) -> Seq<Seq<u8>> {
    seq![initializer, initializer_mint, taker, taker_mint]
}

/// Whether `seeds` keep to the runtime's limits for deriving an address:
/// fewer than 16 seeds, which leaves room for the bump, and none longer than
/// 32 bytes.
pub open spec fn within_seed_limits(seeds: Seq<Seq<u8>>) -> bool {
    &&& seeds.len() < 16
    &&& forall|i: int| 0 <= i < seeds.len() ==> #[trigger] seeds[i].len() <= 32
}

/// `seeds` followed by the one-byte seed holding `bump`.
pub open spec fn with_bump(seeds: Seq<Seq<u8>>, bump: u8) -> Seq<Seq<u8>> {
    seeds.push(seq![bump])
}

fn state_tag_bytes() -> (tag: Vec<u8>)
    ensures
        tag@ == state_tag(),
{
    let tag: Vec<u8> = vec![115u8, 116u8, 97u8, 116u8, 101u8];
    proof {
        assert(tag@ =~= state_tag());
    }
    tag
}

fn wallet_tag_bytes() -> (tag: Vec<u8>)
    ensures
        tag@ == wallet_tag(),
{
    let tag: Vec<u8> = vec![119u8, 97u8, 108u8, 108u8, 101u8, 116u8];
    proof {
        assert(tag@ =~= wallet_tag());
    }
    tag
}

/// Builds `exchange_seeds(tag, exchange_idx, keys)`.
fn build_seeds(tag: Vec<u8>, exchange_idx: u64, keys: &Vec<Pubkey>) -> (seeds: Vec<Vec<u8>>)
    requires
        tag@.len() <= 32,
        keys.len() <= 4,
    ensures
        seeds_view(seeds@) == exchange_seeds(tag@, exchange_idx, keys@.map_values(|k: Pubkey| k@)),
        within_seed_limits(seeds_view(seeds@)),
{
    let mut seeds: Vec<Vec<u8>> = Vec::new();
    seeds.push(tag);
    seeds.push(u64_to_le_bytes(exchange_idx));
    let ghost head = seeds_view(seeds@);
    assert(head =~= seq![tag@, spec_u64_to_le_bytes(exchange_idx)]);
    let mut i: usize = 0;
    while i < keys.len()
        invariant
            0 <= i <= keys.len(),
            head.len() == 2,
            seeds_view(seeds@) =~= head + keys@.map_values(|k: Pubkey| k@).take(i as int),
        decreases keys.len() - i,
    {
        let key_bytes = keys[i].to_vec();
        let ghost before = seeds@;
        seeds.push(key_bytes);
        proof {
            assert(seeds@ =~= before.push(key_bytes));
            assert(seeds_view(seeds@) =~= seeds_view(before).push(key_bytes@));
            assert(keys@.map_values(|k: Pubkey| k@).take(i + 1) =~= keys@.map_values(|k: Pubkey| k@).take(
                i as int,
            ).push(keys@[i as int]@));
        }
        i = i + 1;
    }
    proof {
        assert(keys@.map_values(|k: Pubkey| k@).take(keys.len() as int) =~= keys@.map_values(|k: Pubkey| k@));
        lemma_auto_spec_u64_to_from_le_bytes();
        let all = seeds_view(seeds@);
        assert forall|j: int| 0 <= j < all.len() implies #[trigger] all[j].len() <= 32 by {
            if j >= 2 {
                let k = keys@[j - 2];
                assert(all[j] == k@);
                assert(k.bytes@.len() == 32);
            }
        }
    }
    seeds
}

/// The seeds of the state account of an exchange of SOL for tokens.
pub fn sol_token_state_seeds(exchange_idx: u64, initializer: &Pubkey, taker: &Pubkey, taker_mint: &Pubkey) -> (seeds: Vec<Vec<u8>>)
    ensures
        within_seed_limits(seeds_view(seeds@)),
        seeds_view(seeds@) == exchange_seeds(state_tag(), exchange_idx, sol_token_keys(initializer@, taker@, taker_mint@)),
{
    let keys: Vec<Pubkey> = vec![*initializer, *taker, *taker_mint];
    proof {
        assert(keys@.map_values(|k: Pubkey| k@) =~= sol_token_keys(initializer@, taker@, taker_mint@));
    }
    build_seeds(state_tag_bytes(), exchange_idx, &keys)
}

/// The seeds of an account (state or escrow wallet, by `tag`) of an exchange
/// of tokens for SOL.
fn token_sol_seeds(
    tag: Vec<u8>,
    exchange_idx: u64,
    initializer: &Pubkey,
    initializer_mint: &Pubkey,
    taker: &Pubkey,
) -> (seeds: Vec<Vec<u8>>)
    requires
        tag@.len() <= 32,
    ensures
        within_seed_limits(seeds_view(seeds@)),
        seeds_view(seeds@) == exchange_seeds(tag@, exchange_idx, token_sol_keys(initializer@, initializer_mint@, taker@)),
{
    let keys: Vec<Pubkey> = vec![*initializer, *initializer_mint, *taker];
    proof {
        assert(keys@.map_values(|k: Pubkey| k@) =~= token_sol_keys(initializer@, initializer_mint@, taker@));
    }
    build_seeds(tag, exchange_idx, &keys)
}

/// The seeds of the state account of an exchange of tokens for SOL.
pub fn token_sol_state_seeds(exchange_idx: u64, initializer: &Pubkey, initializer_mint: &Pubkey, taker: &Pubkey) -> (seeds: Vec<Vec<u8>>)
    ensures
        within_seed_limits(seeds_view(seeds@)),
        seeds_view(seeds@) == exchange_seeds(state_tag(), exchange_idx, token_sol_keys(initializer@, initializer_mint@, taker@)),
{
    token_sol_seeds(state_tag_bytes(), exchange_idx, initializer, initializer_mint, taker)
}

/// The seeds of the escrow wallet of an exchange of tokens for SOL.
pub fn token_sol_wallet_seeds(exchange_idx: u64, initializer: &Pubkey, initializer_mint: &Pubkey, taker: &Pubkey) -> (seeds: Vec<Vec<u8>>)
    ensures
        within_seed_limits(seeds_view(seeds@)),
        seeds_view(seeds@) == exchange_seeds(wallet_tag(), exchange_idx, token_sol_keys(initializer@, initializer_mint@, taker@)),
{
    token_sol_seeds(wallet_tag_bytes(), exchange_idx, initializer, initializer_mint, taker)
}

/// The seeds of an account (state or escrow wallet, by `tag`) of an exchange
/// of tokens for tokens.
fn token_token_seeds(
    tag: Vec<u8>,
    exchange_idx: u64,
    initializer: &Pubkey,
    initializer_mint: &Pubkey,
    taker: &Pubkey,
    taker_mint: &Pubkey,
) -> (seeds: Vec<Vec<u8>>)
    requires
        tag@.len() <= 32,
    ensures
        within_seed_limits(seeds_view(seeds@)),
        seeds_view(seeds@) == exchange_seeds(
            tag@,
            exchange_idx,
            token_token_keys(initializer@, initializer_mint@, taker@, taker_mint@),
        ),
{
    let keys: Vec<Pubkey> = vec![*initializer, *initializer_mint, *taker, *taker_mint];
    proof {
        assert(keys@.map_values(|k: Pubkey| k@) =~= token_token_keys(initializer@, initializer_mint@, taker@, taker_mint@));
    }
    build_seeds(tag, exchange_idx, &keys)
}

/// The seeds of the state account of an exchange of tokens for tokens.
pub fn token_token_state_seeds(
    exchange_idx: u64,
    initializer: &Pubkey,
    initializer_mint: &Pubkey,
    taker: &Pubkey,
    taker_mint: &Pubkey,
) -> (seeds: Vec<Vec<u8>>)
    ensures
        within_seed_limits(seeds_view(seeds@)),
        seeds_view(seeds@) == exchange_seeds(
            state_tag(),
            exchange_idx,
            token_token_keys(initializer@, initializer_mint@, taker@, taker_mint@),
        ),
{
    token_token_seeds(state_tag_bytes(), exchange_idx, initializer, initializer_mint, taker, taker_mint)
}

/// The seeds of the escrow wallet of an exchange of tokens for tokens.
pub fn token_token_wallet_seeds(
    exchange_idx: u64,
    initializer: &Pubkey,
    initializer_mint: &Pubkey,
    taker: &Pubkey,
    taker_mint: &Pubkey,
) -> (seeds: Vec<Vec<u8>>)
    ensures
        within_seed_limits(seeds_view(seeds@)),
        seeds_view(seeds@) == exchange_seeds(
            wallet_tag(),
            exchange_idx,
            token_token_keys(initializer@, initializer_mint@, taker@, taker_mint@),
        ),
{
    token_token_seeds(wallet_tag_bytes(), exchange_idx, initializer, initializer_mint, taker, taker_mint)
}

/// Appends the bump seed to a list of seeds, making the signer seeds of a
/// program-derived account.
pub fn push_bump(seeds: &mut Vec<Vec<u8>>, bump: u8)
    ensures
        seeds_view(final(seeds)@) == with_bump(seeds_view(old(seeds)@), bump),
{
    let b: Vec<u8> = vec![bump];
    let ghost before = seeds@;
    seeds.push(b);
    proof {
        assert(seeds@ =~= before.push(b));
        assert(b@ =~= seq![bump]);
        assert(seeds_view(seeds@) =~= seeds_view(before).push(seq![bump]));
    }
}

/// The seeds of an exchange account determine its tag, exchange index and
/// addresses: accounts of exchanges that differ in any of them never share
/// seeds.
pub proof fn exchange_seeds_are_injective(
    tag1: Seq<u8>,
    exchange_idx1: u64,
    keys1: Seq<Seq<u8>>,
    tag2: Seq<u8>,
    exchange_idx2: u64,
    keys2: Seq<Seq<u8>>,
)
    requires
        exchange_seeds(tag1, exchange_idx1, keys1) == exchange_seeds(tag2, exchange_idx2, keys2),
    ensures
        tag1 == tag2,
        exchange_idx1 == exchange_idx2,
        keys1 == keys2,
{
    let s1 = exchange_seeds(tag1, exchange_idx1, keys1);
    let s2 = exchange_seeds(tag2, exchange_idx2, keys2);
    assert(s1[0] == tag1 && s2[0] == tag2);
    assert(s1[1] == spec_u64_to_le_bytes(exchange_idx1) && s2[1] == spec_u64_to_le_bytes(exchange_idx2));
    lemma_auto_spec_u64_to_from_le_bytes();
    assert(spec_u64_from_le_bytes(spec_u64_to_le_bytes(exchange_idx1)) == exchange_idx1);
    assert(spec_u64_from_le_bytes(spec_u64_to_le_bytes(exchange_idx2)) == exchange_idx2);
    assert(keys1 =~= s1.subrange(2, s1.len() as int));
    assert(keys2 =~= s2.subrange(2, s2.len() as int));
}

/// The state account and the escrow wallet of exchanges never share seeds.
pub proof fn state_and_wallet_seeds_differ(
    exchange_idx1: u64,
    keys1: Seq<Seq<u8>>,
    exchange_idx2: u64,
    keys2: Seq<Seq<u8>>,
)
    ensures
        exchange_seeds(state_tag(), exchange_idx1, keys1) != exchange_seeds(wallet_tag(), exchange_idx2, keys2),
{
    if exchange_seeds(state_tag(), exchange_idx1, keys1) == exchange_seeds(wallet_tag(), exchange_idx2, keys2) {
        exchange_seeds_are_injective(state_tag(), exchange_idx1, keys1, wallet_tag(), exchange_idx2, keys2);
        assert(state_tag().len() != wallet_tag().len());
    }
}

} // verus!
