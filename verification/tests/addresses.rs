use airdrop_tracker::pda::record_address;
use airdrop_tracker::pda::run_address;
use airdrop_tracker::pda::state_address;
use airdrop_tracker::pubkey::Pubkey;

fn program() -> anchor_lang::prelude::Pubkey {
    anchor_lang::prelude::Pubkey::new_from_array([7u8; 32])
}

fn eth(fill: u8) -> [u8; 42] {
    let mut bytes = [fill; 42];
    bytes[0] = b'0';
    bytes[1] = b'x';
    bytes
}

#[test]
fn state_address_is_the_address_of_the_state_seed() {
    let (expected, bump) =
        anchor_lang::prelude::Pubkey::find_program_address(&[b"state"], &program());
    let found = state_address(&Pubkey::new_from_array([7u8; 32])).unwrap();
    assert_eq!(found.address.to_bytes(), expected.to_bytes());
    assert_eq!(found.bump, bump);
    assert_ne!(found.address.to_bytes(), [7u8; 32]);
}

#[test]
fn run_address_uses_the_identifier_in_little_endian() {
    let run_id: u64 = 0x0102_0304_0506_0708;
    let (expected, bump) = anchor_lang::prelude::Pubkey::find_program_address(
        &[b"run", run_id.to_le_bytes().as_ref()],
        &program(),
    );
    let found = run_address(&Pubkey::new_from_array([7u8; 32]), run_id).unwrap();
    assert_eq!(found.address.to_bytes(), expected.to_bytes());
    assert_eq!(found.bump, bump);
    let other = run_address(&Pubkey::new_from_array([7u8; 32]), run_id + 1).unwrap();
    assert_ne!(other.address, found.address);
}

#[test]
fn record_address_uses_the_wallet_and_twenty_bytes() {
    let wallet = anchor_lang::prelude::Pubkey::new_from_array([9u8; 32]);
    let address = eth(b'a');
    let (expected, bump) = anchor_lang::prelude::Pubkey::find_program_address(
        &[b"airdrop_record", wallet.as_ref(), &address[..20]],
        &program(),
    );
    let found = record_address(
        &Pubkey::new_from_array([7u8; 32]),
        &Pubkey::new_from_array([9u8; 32]),
        &address,
    )
    .unwrap();
    assert_eq!(found.address.to_bytes(), expected.to_bytes());
    assert_eq!(found.bump, bump);
}

#[test]
fn record_address_ignores_the_bytes_after_the_twentieth() {
    let program_id = Pubkey::new_from_array([7u8; 32]);
    let wallet = Pubkey::new_from_array([9u8; 32]);
    let first = eth(b'a');
    let mut second = first;
    second[20] = b'f';
    second[41] = b'0';
    assert_eq!(
        record_address(&program_id, &wallet, &first),
        record_address(&program_id, &wallet, &second)
    );
    let mut third = first;
    third[19] = b'f';
    assert_ne!(
        record_address(&program_id, &wallet, &first),
        record_address(&program_id, &wallet, &third)
    );
}

#[test]
fn record_address_depends_on_the_program() {
    let wallet = Pubkey::new_from_array([9u8; 32]);
    let address = eth(b'a');
    assert_ne!(
        record_address(&Pubkey::new_from_array([7u8; 32]), &wallet, &address),
        record_address(&Pubkey::new_from_array([8u8; 32]), &wallet, &address)
    );
}
