use account_gate::{
    decode_bus, decode_treasury, derive_address, load_account, load_bus, load_mint, load_pda,
    load_signer, load_token_account, load_treasury, load_uninitialized_account,
    load_uninitialized_pda, require_owner, AccountHandle, Address, Bus, Config, LoadError,
    Treasury,
};

fn addr(bytes: [u8; 32]) -> Address {
    Address::new(bytes.to_vec()).unwrap()
}

fn pattern_addr(x: u8) -> Address {
    addr([x; 32])
}

fn cfg() -> Config {
    Config {
        program_id: pattern_addr(1),
        token_program_id: addr(spl_token::id().to_bytes()),
        system_program_id: addr(solana_program::system_program::id().to_bytes()),
        mint_address: pattern_addr(9),
    }
}

fn handle(
    address: &Address,
    owner: &Address,
    data: Vec<u8>,
    is_signer: bool,
    is_writable: bool,
) -> AccountHandle {
    AccountHandle {
        address: address.clone(),
        owner: owner.clone(),
        data,
        is_signer,
        is_writable,
    }
}

/// Finds a bump for which `tag ++ extra ++ [bump]` derives a valid address.
fn find_bump(tag: &[u8], extra: &[Vec<u8>], pid: &Address) -> (u8, Address) {
    for b in 0..=255u8 {
        let mut seeds: Vec<Vec<u8>> = vec![tag.to_vec()];
        for e in extra {
            seeds.push(e.clone());
        }
        seeds.push(vec![b]);
        if let Ok(a) = derive_address(&seeds, pid) {
            return (b, a);
        }
    }
    panic!("no bump derives a valid address for this tag");
}

fn le8(x: u64) -> Vec<u8> {
    x.to_le_bytes().to_vec()
}

fn mint_record_bytes() -> Vec<u8> {
    vec![0u8; 82]
}

fn token_record_bytes(mint: &Address, owner: &Address) -> Vec<u8> {
    let mut data = vec![0u8; 165];
    data[0..32].copy_from_slice(&mint.bytes);
    data[32..64].copy_from_slice(&owner.bytes);
    data
}

#[test]
fn derivation_is_deterministic() {
    let pid = pattern_addr(1);
    let seeds = vec![b"treasury".to_vec(), vec![find_bump(b"treasury", &[], &pid).0]];
    let a1 = derive_address(&seeds, &pid).unwrap();
    let a2 = derive_address(&seeds, &pid).unwrap();
    assert_eq!(a1, a2);
}

#[test]
fn derivation_changes_with_inputs() {
    let pid = pattern_addr(1);
    let (b1, a1) = find_bump(b"treasury", &[], &pid);
    for b2 in (b1 + 1)..=255u8 {
        let seeds = vec![b"treasury".to_vec(), vec![b2]];
        if let Ok(a2) = derive_address(&seeds, &pid) {
            assert_ne!(a1, a2);
            return;
        }
    }
    panic!("no second bump derives a valid address");
}

#[test]
fn derivation_matches_host_runtime() {
    let pid = pattern_addr(1);
    let solana_pid =
        solana_program::pubkey::Pubkey::new_from_array(pid.bytes.clone().try_into().unwrap());
    let (expected, bump) =
        solana_program::pubkey::Pubkey::find_program_address(&[b"treasury"], &solana_pid);
    let seeds = vec![b"treasury".to_vec(), vec![bump]];
    let derived = derive_address(&seeds, &pid).unwrap();
    assert_eq!(derived.bytes, expected.to_bytes().to_vec());
}

#[test]
fn signer_accepted_and_rejected_on_flag_alone() {
    let a = pattern_addr(3);
    let signed = handle(&a, &a, vec![1, 2, 3], true, false);
    assert_eq!(load_signer(&signed).unwrap(), &signed);
    let unsigned = handle(&a, &a, vec![1, 2, 3], false, true);
    assert_eq!(load_signer(&unsigned).unwrap_err(), LoadError::MissingSignature);
}

#[test]
fn pda_accepts_matching_handle() {
    let c = cfg();
    let (b, derived) = find_bump(b"treasury", &[], &c.program_id);
    let seeds = vec![b"treasury".to_vec(), vec![b]];
    let h = handle(&derived, &c.program_id, vec![], false, true);
    assert_eq!(load_pda(&h, &seeds, true, &c).unwrap(), &h);
}

#[test]
fn pda_rejects_wrong_address() {
    let c = cfg();
    let (b, _derived) = find_bump(b"treasury", &[], &c.program_id);
    let seeds = vec![b"treasury".to_vec(), vec![b]];
    let other = pattern_addr(200);
    let h = handle(&other, &c.program_id, vec![], false, true);
    assert_eq!(load_pda(&h, &seeds, true, &c).unwrap_err(), LoadError::InvalidSeeds);
}

#[test]
fn pda_rejects_wrong_owner() {
    let c = cfg();
    let (b, derived) = find_bump(b"treasury", &[], &c.program_id);
    let seeds = vec![b"treasury".to_vec(), vec![b]];
    let h = handle(&derived, &pattern_addr(200), vec![], false, true);
    assert_eq!(load_pda(&h, &seeds, true, &c).unwrap_err(), LoadError::InvalidAccountOwner);
}

#[test]
fn pda_rejects_non_writable_when_writable_asked() {
    let c = cfg();
    let (b, derived) = find_bump(b"treasury", &[], &c.program_id);
    let seeds = vec![b"treasury".to_vec(), vec![b]];
    let h = handle(&derived, &c.program_id, vec![], false, false);
    assert_eq!(load_pda(&h, &seeds, true, &c).unwrap_err(), LoadError::InvalidAccountData);
    assert_eq!(load_pda(&h, &seeds, false, &c).unwrap(), &h);
}

#[test]
fn bus_round_trip_accepts() {
    let c = cfg();
    let id: u64 = 2;
    let (b, derived) = find_bump(b"bus", &[vec![id as u8]], &c.program_id);
    let mut data = le8(id);
    data.extend(le8(b as u64));
    let h = handle(&derived, &c.program_id, data, false, true);
    assert_eq!(load_bus(&h, &c).unwrap(), &h);
}

#[test]
fn bus_rejects_foreign_owner_even_at_right_address() {
    let c = cfg();
    let id: u64 = 2;
    let (b, derived) = find_bump(b"bus", &[vec![id as u8]], &c.program_id);
    let mut data = le8(id);
    data.extend(le8(b as u64));
    let h = handle(&derived, &pattern_addr(200), data, false, true);
    assert_eq!(load_bus(&h, &c).unwrap_err(), LoadError::InvalidAccountOwner);
}

#[test]
fn bus_rejects_empty_buffer() {
    let c = cfg();
    let h = handle(&pattern_addr(5), &c.program_id, vec![], false, true);
    assert_eq!(load_bus(&h, &c).unwrap_err(), LoadError::UninitializedAccount);
}

#[test]
fn bus_rejects_mismatched_record() {
    let c = cfg();
    let id: u64 = 2;
    let (b, derived) = find_bump(b"bus", &[vec![id as u8]], &c.program_id);
    let mut data = le8(id + 1);
    data.extend(le8(b as u64));
    let h = handle(&derived, &c.program_id, data, false, true);
    assert_eq!(load_bus(&h, &c).unwrap_err(), LoadError::InvalidSeeds);
}

#[test]
fn treasury_accepts_matching_record() {
    let c = cfg();
    let (b, derived) = find_bump(b"treasury", &[], &c.program_id);
    let h = handle(&derived, &c.program_id, le8(b as u64), false, false);
    assert_eq!(load_treasury(&h, &c).unwrap(), &h);
}

#[test]
fn treasury_rejects_record_with_other_bump() {
    let c = cfg();
    let (b, derived) = find_bump(b"treasury", &[], &c.program_id);
    let other_bump = if b == 0 { 1u64 } else { (b - 1) as u64 };
    let h = handle(&derived, &c.program_id, le8(other_bump), false, false);
    assert_eq!(load_treasury(&h, &c).unwrap_err(), LoadError::InvalidSeeds);
}

#[test]
fn treasury_rejects_foreign_owner_even_at_right_address() {
    let c = cfg();
    let (b, derived) = find_bump(b"treasury", &[], &c.program_id);
    let h = handle(&derived, &pattern_addr(77), le8(b as u64), false, false);
    assert_eq!(load_treasury(&h, &c).unwrap_err(), LoadError::InvalidAccountOwner);
}

#[test]
fn uninitialized_account_gate() {
    let c = cfg();
    let empty_ok = handle(&pattern_addr(4), &c.system_program_id, vec![], false, true);
    assert_eq!(load_uninitialized_account(&empty_ok, &c).unwrap(), &empty_ok);

    let not_writable = handle(&pattern_addr(4), &c.system_program_id, vec![], false, false);
    assert_eq!(
        load_uninitialized_account(&not_writable, &c).unwrap_err(),
        LoadError::InvalidAccountData
    );

    let populated = handle(&pattern_addr(4), &c.system_program_id, vec![0], false, true);
    assert_eq!(
        load_uninitialized_account(&populated, &c).unwrap_err(),
        LoadError::AccountAlreadyInitialized
    );

    let claimed = handle(&pattern_addr(4), &c.program_id, vec![], false, true);
    assert_eq!(
        load_uninitialized_account(&claimed, &c).unwrap_err(),
        LoadError::AccountAlreadyInitialized
    );
}

#[test]
fn uninitialized_pda_accepts_fresh_account() {
    let c = cfg();
    let id: u64 = 2;
    let (b, derived) = find_bump(b"bus", &[vec![id as u8]], &c.program_id);
    let seeds = vec![b"bus".to_vec(), vec![id as u8], vec![b]];
    let h = handle(&derived, &c.system_program_id, vec![], false, true);
    assert_eq!(load_uninitialized_pda(&h, &seeds, &c).unwrap(), &h);
}

#[test]
fn uninitialized_pda_rejects_populated_account() {
    let c = cfg();
    let id: u64 = 2;
    let (b, derived) = find_bump(b"bus", &[vec![id as u8]], &c.program_id);
    let seeds = vec![b"bus".to_vec(), vec![id as u8], vec![b]];
    let h = handle(&derived, &c.system_program_id, vec![1, 2], false, true);
    assert_eq!(
        load_uninitialized_pda(&h, &seeds, &c).unwrap_err(),
        LoadError::AccountAlreadyInitialized
    );
}

#[test]
fn uninitialized_pda_rejects_non_writable_account() {
    let c = cfg();
    let id: u64 = 2;
    let (b, derived) = find_bump(b"bus", &[vec![id as u8]], &c.program_id);
    let seeds = vec![b"bus".to_vec(), vec![id as u8], vec![b]];
    let h = handle(&derived, &c.system_program_id, vec![], false, false);
    assert_eq!(load_uninitialized_pda(&h, &seeds, &c).unwrap_err(), LoadError::InvalidAccountData);
}

#[test]
fn uninitialized_pda_rejects_wrong_address() {
    let c = cfg();
    let id: u64 = 2;
    let (b, _derived) = find_bump(b"bus", &[vec![id as u8]], &c.program_id);
    let seeds = vec![b"bus".to_vec(), vec![id as u8], vec![b]];
    let h = handle(&pattern_addr(111), &c.system_program_id, vec![], false, true);
    assert_eq!(load_uninitialized_pda(&h, &seeds, &c).unwrap_err(), LoadError::InvalidSeeds);
}

#[test]
fn mint_accepts_the_fixed_address() {
    let c = cfg();
    let h = handle(&c.mint_address, &c.token_program_id, mint_record_bytes(), false, false);
    assert_eq!(load_mint(&h, &c).unwrap(), &h);
}

#[test]
fn mint_rejects_any_other_address() {
    let c = cfg();
    let h = handle(&pattern_addr(10), &c.token_program_id, mint_record_bytes(), false, false);
    assert_eq!(load_mint(&h, &c).unwrap_err(), LoadError::InvalidAccountData);
}

#[test]
fn mint_rejects_foreign_owner_and_empty_buffer() {
    let c = cfg();
    let foreign = handle(&c.mint_address, &pattern_addr(10), mint_record_bytes(), false, false);
    assert_eq!(load_mint(&foreign, &c).unwrap_err(), LoadError::InvalidAccountOwner);
    let empty = handle(&c.mint_address, &c.token_program_id, vec![], false, false);
    assert_eq!(load_mint(&empty, &c).unwrap_err(), LoadError::UninitializedAccount);
}

#[test]
fn mint_rejects_malformed_record() {
    let c = cfg();
    let mut bad_tag = mint_record_bytes();
    bad_tag[0] = 5;
    let h = handle(&c.mint_address, &c.token_program_id, bad_tag, false, false);
    assert_eq!(load_mint(&h, &c).unwrap_err(), LoadError::InvalidAccountData);

    let short = vec![0u8; 81];
    let h2 = handle(&c.mint_address, &c.token_program_id, short, false, false);
    assert_eq!(load_mint(&h2, &c).unwrap_err(), LoadError::InvalidAccountData);
}

#[test]
fn token_account_accepts_matching_fields() {
    let c = cfg();
    let owner = pattern_addr(20);
    let mint = pattern_addr(9);
    let data = token_record_bytes(&mint, &owner);
    let h = handle(&pattern_addr(30), &c.token_program_id, data, false, false);
    assert_eq!(load_token_account(&h, &owner, &mint, &c).unwrap(), &h);
}

#[test]
fn token_account_rejects_wrong_mint_field() {
    let c = cfg();
    let owner = pattern_addr(20);
    let mint = pattern_addr(9);
    let data = token_record_bytes(&pattern_addr(8), &owner);
    let h = handle(&pattern_addr(30), &c.token_program_id, data, false, false);
    assert_eq!(
        load_token_account(&h, &owner, &mint, &c).unwrap_err(),
        LoadError::InvalidAccountData
    );
}

#[test]
fn token_account_rejects_wrong_owner_field() {
    let c = cfg();
    let owner = pattern_addr(20);
    let mint = pattern_addr(9);
    let data = token_record_bytes(&mint, &pattern_addr(21));
    let h = handle(&pattern_addr(30), &c.token_program_id, data, false, false);
    assert_eq!(
        load_token_account(&h, &owner, &mint, &c).unwrap_err(),
        LoadError::InvalidAccountData
    );
}

#[test]
fn token_account_rejects_malformed_record_and_foreign_owner() {
    let c = cfg();
    let owner = pattern_addr(20);
    let mint = pattern_addr(9);
    let mut bad_state = token_record_bytes(&mint, &owner);
    bad_state[108] = 5;
    let h = handle(&pattern_addr(30), &c.token_program_id, bad_state, false, false);
    assert_eq!(
        load_token_account(&h, &owner, &mint, &c).unwrap_err(),
        LoadError::InvalidAccountData
    );

    let foreign = handle(&pattern_addr(30), &pattern_addr(2), token_record_bytes(&mint, &owner), false, false);
    assert_eq!(
        load_token_account(&foreign, &owner, &mint, &c).unwrap_err(),
        LoadError::InvalidAccountOwner
    );

    let empty = handle(&pattern_addr(30), &c.token_program_id, vec![], false, false);
    assert_eq!(
        load_token_account(&empty, &owner, &mint, &c).unwrap_err(),
        LoadError::UninitializedAccount
    );
}

#[test]
fn owner_gate_compares_declared_owner_alone() {
    let expected = pattern_addr(60);
    let h = handle(&pattern_addr(61), &expected, vec![1, 2], false, false);
    assert_eq!(require_owner(&h, &expected).unwrap(), &h);
    assert_eq!(
        require_owner(&h, &pattern_addr(62)).unwrap_err(),
        LoadError::InvalidAccountOwner
    );
}

#[test]
fn account_identity_check() {
    let key = pattern_addr(40);
    let h = handle(&key, &pattern_addr(41), vec![1], true, true);
    assert_eq!(load_account(&h, &key).unwrap(), &h);
    assert_eq!(load_account(&h, &pattern_addr(42)).unwrap_err(), LoadError::InvalidAccountData);
}

#[test]
fn bus_record_decodes_little_endian_fields() {
    let mut data = le8(513);
    data.extend(le8(7));
    assert_eq!(decode_bus(&data).unwrap(), Bus { id: 513, bump: 7 });
    assert_eq!(decode_bus(&vec![0u8; 15]).unwrap_err(), LoadError::InvalidAccountData);
    assert_eq!(decode_bus(&vec![0u8; 17]).unwrap_err(), LoadError::InvalidAccountData);
}

#[test]
fn treasury_record_decodes_little_endian_field() {
    assert_eq!(decode_treasury(&le8(0x0102030405060708)).unwrap(), Treasury {
        bump: 0x0102030405060708
    });
    assert_eq!(decode_treasury(&vec![0u8; 9]).unwrap_err(), LoadError::InvalidAccountData);
}

#[test]
fn derivation_failure_propagates_as_invalid_seeds() {
    let pid = pattern_addr(1);
    for b in 0..=255u8 {
        let seeds = vec![b"treasury".to_vec(), vec![b]];
        if derive_address(&seeds, &pid).is_err() {
            let c = cfg();
            let h = handle(&pattern_addr(50), &c.program_id, vec![], false, true);
            assert_eq!(load_pda(&h, &seeds, false, &c).unwrap_err(), LoadError::InvalidSeeds);
            return;
        }
    }
    panic!("every bump derived a valid address for this tag");
}
