use anchor_lang::prelude::Pubkey as SolanaPubkey;
use safe_exchange::lamports::move_lamports;
use safe_exchange::native_mint::native_mint;
use safe_exchange::pda::find_program_address;
use safe_exchange::pubkey::Pubkey;
use safe_exchange::seeds::{
    push_bump, sol_token_state_seeds, token_sol_state_seeds, token_sol_wallet_seeds, token_token_state_seeds,
    token_token_wallet_seeds,
};
use safe_exchange::state::ExchangeState;

fn key(n: u8) -> Pubkey {
    Pubkey::new_from_array([n; 32])
}

#[test]
fn space_counts_discriminator_and_fields() {
    assert_eq!(ExchangeState::space(), 160);
}

#[test]
fn native_mint_is_the_wrapped_sol_mint() {
    let mint = native_mint().expect("the native mint text decodes");
    assert_eq!(mint.bytes, anchor_spl::token::spl_token::native_mint::ID.to_bytes());
}

#[test]
fn from_slice_takes_exactly_32_bytes() {
    assert_eq!(Pubkey::from_slice(&[7u8; 32]), Some(key(7)));
    assert_eq!(Pubkey::from_slice(&[7u8; 31]), None);
    assert_eq!(Pubkey::from_slice(&[7u8; 33]), None);
    assert_eq!(Pubkey::from_slice(&[]), None);
}

#[test]
fn key_eq_compares_every_byte() {
    let mut other = [5u8; 32];
    assert!(key(5).key_eq(&Pubkey::new_from_array(other)));
    other[31] = 6;
    assert!(!key(5).key_eq(&Pubkey::new_from_array(other)));
    assert_eq!(key(9).to_vec(), vec![9u8; 32]);
}

#[test]
fn derived_address_is_the_runtime_one() {
    let program = key(200);
    let seeds: Vec<Vec<u8>> = vec![b"state".to_vec(), 3u64.to_le_bytes().to_vec(), vec![1u8; 32]];
    let refs: Vec<&[u8]> = seeds.iter().map(|s| s.as_slice()).collect();
    let (expected, expected_bump) = SolanaPubkey::find_program_address(&refs, &SolanaPubkey::new_from_array(program.bytes));
    let (address, bump) = find_program_address(&seeds, &program).expect("an address exists");
    assert_eq!(address.bytes, expected.to_bytes());
    assert_eq!(bump, expected_bump);
    assert_ne!(address, program);
}

#[test]
fn state_seeds_list_tag_index_and_parties() {
    let seeds = sol_token_state_seeds(0x0102, &key(1), &key(2), &key(3));
    assert_eq!(
        seeds,
        vec![
            b"state".to_vec(),
            vec![2, 1, 0, 0, 0, 0, 0, 0],
            vec![1u8; 32],
            vec![2u8; 32],
            vec![3u8; 32],
        ]
    );
    let seeds = token_sol_state_seeds(u64::MAX, &key(1), &key(4), &key(2));
    assert_eq!(seeds, vec![b"state".to_vec(), vec![255u8; 8], vec![1u8; 32], vec![4u8; 32], vec![2u8; 32]]);
    let seeds = token_token_state_seeds(7, &key(1), &key(4), &key(2), &key(3));
    assert_eq!(
        seeds,
        vec![
            b"state".to_vec(),
            7u64.to_le_bytes().to_vec(),
            vec![1u8; 32],
            vec![4u8; 32],
            vec![2u8; 32],
            vec![3u8; 32],
        ]
    );
}

#[test]
fn wallet_seeds_differ_from_state_seeds_by_tag_only() {
    let state = token_sol_state_seeds(5, &key(1), &key(4), &key(2));
    let wallet = token_sol_wallet_seeds(5, &key(1), &key(4), &key(2));
    assert_eq!(wallet[0], b"wallet".to_vec());
    assert_eq!(wallet[1..], state[1..]);
    assert_ne!(wallet, state);
    let state = token_token_state_seeds(5, &key(1), &key(4), &key(2), &key(3));
    let wallet = token_token_wallet_seeds(5, &key(1), &key(4), &key(2), &key(3));
    assert_eq!(wallet[0], b"wallet".to_vec());
    assert_eq!(wallet[1..], state[1..]);
}

#[test]
fn distinct_indices_give_distinct_seeds() {
    let a = sol_token_state_seeds(1, &key(1), &key(2), &key(3));
    let b = sol_token_state_seeds(256, &key(1), &key(2), &key(3));
    assert_ne!(a, b);
}

#[test]
fn bump_is_appended_as_one_byte_seed() {
    let mut seeds = sol_token_state_seeds(1, &key(1), &key(2), &key(3));
    push_bump(&mut seeds, 254);
    assert_eq!(seeds.len(), 6);
    assert_eq!(seeds[5], vec![254u8]);
}

#[test]
fn lamports_move_and_total_is_kept() {
    assert_eq!(move_lamports(100, 5, 30), (70, 35));
    assert_eq!(move_lamports(30, 0, 30), (0, 30));
    assert_eq!(move_lamports(0, u64::MAX, 0), (0, u64::MAX));
    let (a, b) = move_lamports(1_000_000, 2_000, 999_999);
    assert_eq!(a as u128 + b as u128, 1_002_000);
}
