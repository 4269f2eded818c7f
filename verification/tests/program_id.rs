use anchor_lang::prelude::Pubkey;
use linkportal_contract_solana::{id, initialize, Context, Initialize, ID};
use std::str::FromStr;

const DECLARED: &str = "42jc2ZN9851SM6NWMhZbowzezQrbLHP3niw12v5zVwGY";

#[test]
fn program_id_matches_the_declared_constant() {
    assert_eq!(Pubkey::new_from_array(ID).to_string(), DECLARED);
    assert_eq!(Pubkey::from_str(DECLARED).unwrap().to_bytes(), ID);
}

#[test]
fn id_returns_the_program_id() {
    assert_eq!(id(), ID);
    assert_eq!(Pubkey::new_from_array(id()), Pubkey::from_str(DECLARED).unwrap());
}

#[test]
fn program_id_bytes() {
    assert_eq!(ID.len(), 32);
    assert_eq!(ID[0], 0x2d);
    assert_eq!(ID[31], 0x4d);
}

#[test]
fn initialize_logs_what_the_framework_prints_for_the_address() {
    let mut addresses = vec![ID, [0u8; 32], [255u8; 32]];
    for seed in 0u8..32 {
        let mut address = [0u8; 32];
        for (i, byte) in address.iter_mut().enumerate() {
            *byte = seed.wrapping_mul(37).wrapping_add((i as u8).wrapping_mul(11));
        }
        address[seed as usize] = seed;
        addresses.push(address);
    }
    for address in addresses {
        let mut ctx = Context { program_id: address, accounts: Initialize {} };
        let mut log = Vec::new();
        assert!(initialize(&mut ctx, &mut log).is_ok());
        let key = Pubkey::new_from_array(address);
        assert_eq!(log, vec![format!("Greetings from: {:?}", &key)]);
    }
}
