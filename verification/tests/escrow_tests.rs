use pinocchio_escrow::account::AccountState;
use pinocchio_escrow::address::escrow_address;
use pinocchio_escrow::address::Authorization;
use pinocchio_escrow::errors::EscrowError;
use pinocchio_escrow::instructions::EscrowInstructions;
use pinocchio_escrow::process_instruction;
use pinocchio_escrow::state::Escrow;
use pinocchio_escrow::token::close_account;
use pinocchio_escrow::token::transfer_checked;
use pinocchio_escrow::ProgramEnv;

const LAMPORTS_PER_SOL: u64 = 1_000_000_000;
const RECORD_RENT: u64 = 1_113_600;
const TOKEN_ACCOUNT_RENT: u64 = 2_039_280;

/// A 32-byte address, distinct per tag.
fn addr(tag: u8) -> Vec<u8> {
    let mut v = vec![0u8; 32];
    v[0] = tag;
    v[31] = tag;
    v
}

fn env() -> ProgramEnv {
    ProgramEnv {
        program_id: addr(240),
        token_program_id: addr(241),
        system_program_id: vec![0u8; 32],
        record_rent: RECORD_RENT,
        token_account_rent: TOKEN_ACCOUNT_RENT,
    }
}

/// The stored bytes of a balance account: mint ‖ owner ‖ amount ‖ zeros.
fn token_account_data(mint: &[u8], owner: &[u8], amount: u64) -> Vec<u8> {
    let mut v = Vec::new();
    v.extend_from_slice(mint);
    v.extend_from_slice(owner);
    v.extend_from_slice(&amount.to_le_bytes());
    v.extend_from_slice(&[0u8; 93]);
    v
}

/// The stored bytes of an asset descriptor with the given decimal precision.
fn mint_data(decimals: u8) -> Vec<u8> {
    let mut v = vec![0u8; 82];
    v[44] = decimals;
    v
}

fn wallet(address: Vec<u8>, lamports: u64, signer: bool) -> AccountState {
    AccountState {
        address,
        owner: vec![0u8; 32],
        lamports,
        data: Vec::new(),
        is_signer: signer,
    }
}

fn token_account(
    e: &ProgramEnv,
    address: Vec<u8>,
    mint: &[u8],
    owner: &[u8],
    amount: u64,
) -> AccountState {
    AccountState {
        address,
        owner: e.token_program_id.clone(),
        lamports: TOKEN_ACCOUNT_RENT,
        data: token_account_data(mint, owner, amount),
        is_signer: false,
    }
}

fn mint_account(e: &ProgramEnv, address: Vec<u8>) -> AccountState {
    AccountState {
        address,
        owner: e.token_program_id.clone(),
        lamports: 1_461_600,
        data: mint_data(9),
        is_signer: false,
    }
}

fn program_handle(address: Vec<u8>) -> AccountState {
    wallet(address, 1, false)
}

/// The fixture the scenarios share: funded maker and taker, two assets, and
/// the four user balance accounts, mirrored from the protocol's reference
/// deployment: 100_000_000 units of asset A for the maker and of asset B for
/// the taker.
struct Setup {
    env: ProgramEnv,
    maker: AccountState,
    taker: AccountState,
    mint_a: AccountState,
    mint_b: AccountState,
    maker_ata_a: AccountState,
    maker_ata_b: AccountState,
    taker_ata_a: AccountState,
    taker_ata_b: AccountState,
}

fn setup() -> Setup {
    let e = env();
    let maker_key = addr(1);
    let taker_key = addr(2);
    let mint_a_key = addr(3);
    let mint_b_key = addr(4);
    Setup {
        maker: wallet(maker_key.clone(), 10 * LAMPORTS_PER_SOL, true),
        taker: wallet(taker_key.clone(), 10 * LAMPORTS_PER_SOL, true),
        mint_a: mint_account(&e, mint_a_key.clone()),
        mint_b: mint_account(&e, mint_b_key.clone()),
        maker_ata_a: token_account(&e, addr(5), &mint_a_key, &maker_key, 100_000_000),
        maker_ata_b: token_account(&e, addr(6), &mint_b_key, &maker_key, 0),
        taker_ata_a: token_account(&e, addr(7), &mint_a_key, &taker_key, 0),
        taker_ata_b: token_account(&e, addr(8), &mint_b_key, &taker_key, 100_000_000),
        env: e,
    }
}

fn make_payload(amount_a: u64, amount_b: u64, seed: u8, bump: u8) -> Vec<u8> {
    let mut v = vec![0u8];
    v.extend_from_slice(&amount_a.to_le_bytes());
    v.extend_from_slice(&amount_b.to_le_bytes());
    v.push(seed);
    v.push(bump);
    v
}

fn clone_account(a: &AccountState) -> AccountState {
    AccountState {
        address: a.address.clone(),
        owner: a.owner.clone(),
        lamports: a.lamports,
        data: a.data.clone(),
        is_signer: a.is_signer,
    }
}

/// The account list of an Open instruction, with the record slot at the
/// address derived for (maker, seed, bump) and an empty custodial slot.
fn make_accounts(s: &Setup, seed: u8, bump: u8) -> Vec<AccountState> {
    let escrow_key = escrow_address(&s.maker.address, seed, bump, &s.env.program_id);
    vec![
        clone_account(&s.maker),
        clone_account(&s.mint_a),
        clone_account(&s.mint_b),
        clone_account(&s.maker_ata_a),
        wallet(addr(9), 0, false),
        wallet(escrow_key, 0, false),
        program_handle(s.env.system_program_id.clone()),
        program_handle(s.env.token_program_id.clone()),
        program_handle(addr(242)),
    ]
}

fn read_amount(a: &AccountState) -> u64 {
    u64::from_le_bytes(a.data[64..72].try_into().unwrap())
}

fn run_make(s: &Setup, seed: u8, bump: u8, amount_a: u64, amount_b: u64) -> Vec<AccountState> {
    let accounts = make_accounts(s, seed, bump);
    let payload = make_payload(amount_a, amount_b, seed, bump);
    process_instruction(&s.env, accounts, &payload).expect("open should succeed")
}

#[test]
fn test_make() {
    let s = setup();
    let seed: u8 = 1;
    let amount_a: u64 = 70_000_000;
    let amount_b: u64 = 50_000_000;
    let bump: u8 = 254;

    let out = run_make(&s, seed, bump, amount_a, amount_b);

    // The maker paid both minimum-balance deposits.
    assert_eq!(out[0].lamports, 10 * LAMPORTS_PER_SOL - RECORD_RENT - TOKEN_ACCOUNT_RENT);
    // The offered amount left the maker's balance and sits in custody.
    assert_eq!(read_amount(&out[3]), 30_000_000);
    assert_eq!(read_amount(&out[4]), 70_000_000);
    assert_eq!(out[4].owner, s.env.token_program_id);
    // The custodial account's owning identity is the record's address.
    assert_eq!(&out[4].data[32..64], out[5].address.as_slice());
    // The record is owned by the protocol and carries the populated record.
    assert_eq!(out[5].owner, s.env.program_id);
    assert_eq!(out[5].lamports, RECORD_RENT);
    let record = Escrow::from_account_data(&out[5].data).expect("record must decode");
    assert_eq!(record.mint_b, s.mint_b.address);
    assert_eq!(record.amount_b, amount_b);
    assert_eq!(record.seed, seed);
    assert_eq!(record.bump, bump);
}

fn take_accounts(s: &Setup, made: &[AccountState]) -> Vec<AccountState> {
    vec![
        clone_account(&s.taker),
        clone_account(&made[0]),
        clone_account(&s.mint_a),
        clone_account(&s.mint_b),
        clone_account(&s.taker_ata_a),
        clone_account(&s.taker_ata_b),
        clone_account(&made[4]),
        clone_account(&s.maker_ata_b),
        clone_account(&made[5]),
        program_handle(s.env.system_program_id.clone()),
        program_handle(s.env.token_program_id.clone()),
    ]
}

fn refund_accounts(s: &Setup, made: &[AccountState]) -> Vec<AccountState> {
    vec![
        clone_account(&made[0]),
        clone_account(&s.mint_a),
        clone_account(&s.mint_b),
        clone_account(&made[3]),
        clone_account(&made[4]),
        clone_account(&made[5]),
        program_handle(s.env.system_program_id.clone()),
        program_handle(s.env.token_program_id.clone()),
    ]
}

#[test]
fn test_take() {
    let s = setup();
    let seed: u8 = 123;
    let amount_a: u64 = 30_000_000;
    let amount_b: u64 = 70_000_000;
    let bump: u8 = 254;

    let made = run_make(&s, seed, bump, amount_a, amount_b);
    let out = process_instruction(&s.env, take_accounts(&s, &made), &vec![1u8])
        .expect("settle should succeed");

    // The taker received exactly the custodied amount of asset A.
    assert_eq!(read_amount(&out[4]), 30_000_000);
    // The maker received exactly the wanted amount of asset B.
    assert_eq!(read_amount(&out[7]), 70_000_000);
    // The taker paid it.
    assert_eq!(read_amount(&out[5]), 30_000_000);
    // Custodial and record accounts both end with zero balance.
    assert_eq!(out[6].lamports, 0);
    assert!(out[6].data.is_empty());
    assert_eq!(out[8].lamports, 0);
    // Both deposits returned to the maker.
    assert_eq!(
        out[1].lamports,
        made[0].lamports + TOKEN_ACCOUNT_RENT + RECORD_RENT
    );
}

#[test]
fn test_refund() {
    let s = setup();
    let seed: u8 = 255;
    let amount_a: u64 = 70_000_000;
    let amount_b: u64 = 30_000_000;
    let bump: u8 = 254;

    let made = run_make(&s, seed, bump, amount_a, amount_b);
    let out = process_instruction(&s.env, refund_accounts(&s, &made), &vec![2u8])
        .expect("cancel should succeed");

    // The maker's asset-A balance is restored to its pre-Open value.
    assert_eq!(read_amount(&out[3]), 100_000_000);
    // The maker's lamports are restored too: both deposits came back.
    assert_eq!(out[0].lamports, 10 * LAMPORTS_PER_SOL);
    // Custodial and record accounts are closed.
    assert_eq!(out[4].lamports, 0);
    assert!(out[4].data.is_empty());
    assert_eq!(out[5].lamports, 0);
    // No asset-B balance was in the account list at all, so none moved.
    assert_eq!(read_amount(&s.maker_ata_b), 0);
    assert_eq!(read_amount(&s.taker_ata_b), 100_000_000);
}

#[test]
fn test_open_twice_same_pair_fails() {
    let s = setup();
    let made = run_make(&s, 7, 254, 10_000_000, 20_000_000);

    // A second Open for the same (maker, nonce) re-derives the same record
    // address, so it is handed the record the first Open created — which is
    // no longer an unowned slot.
    let mut accounts = make_accounts(&s, 7, 254);
    accounts[4] = clone_account(&made[4]);
    accounts[5] = clone_account(&made[5]);
    let payload = make_payload(10_000_000, 20_000_000, 7, 254);
    match process_instruction(&s.env, accounts, &payload) {
        Err(e) => assert_eq!(e, EscrowError::InvalidAccountOwner),
        Ok(_) => panic!("second open must fail"),
    }
}

#[test]
fn test_cancel_after_settle_fails() {
    let s = setup();
    let made = run_make(&s, 11, 254, 30_000_000, 40_000_000);
    let settled = process_instruction(&s.env, take_accounts(&s, &made), &vec![1u8])
        .expect("settle should succeed");

    // The cancel is handed the closed custodial and record accounts.
    let mut accounts = refund_accounts(&s, &made);
    accounts[4] = clone_account(&settled[6]);
    accounts[5] = clone_account(&settled[8]);
    match process_instruction(&s.env, accounts, &vec![2u8]) {
        Err(e) => assert_eq!(e, EscrowError::InvalidAccountOwner),
        Ok(_) => panic!("cancel after settle must fail"),
    }
}

#[test]
fn test_settle_after_cancel_fails() {
    let s = setup();
    let made = run_make(&s, 12, 254, 30_000_000, 40_000_000);
    let cancelled = process_instruction(&s.env, refund_accounts(&s, &made), &vec![2u8])
        .expect("cancel should succeed");

    let mut accounts = take_accounts(&s, &made);
    accounts[6] = clone_account(&cancelled[4]);
    accounts[8] = clone_account(&cancelled[5]);
    match process_instruction(&s.env, accounts, &vec![1u8]) {
        Err(e) => assert_eq!(e, EscrowError::InvalidAccountOwner),
        Ok(_) => panic!("settle after cancel must fail"),
    }
}

#[test]
fn test_open_rejects_wrong_record_address() {
    let s = setup();
    let mut accounts = make_accounts(&s, 5, 254);
    // A record slot whose address is not the derived one.
    accounts[5] = wallet(addr(99), 0, false);
    let payload = make_payload(1_000_000, 2_000_000, 5, 254);
    match process_instruction(&s.env, accounts, &payload) {
        Err(e) => assert_eq!(e, EscrowError::InvalidAccountOwner),
        Ok(_) => panic!("open with a substituted record address must fail"),
    }
}

#[test]
fn test_settle_rejects_wrong_record_address() {
    let s = setup();
    let made = run_make(&s, 6, 254, 1_000_000, 2_000_000);

    // Move the record to a different address and point the custodial
    // account's owning identity at it, so the re-derivation check itself is
    // what fires.
    let fake_key = addr(98);
    let mut accounts = take_accounts(&s, &made);
    let mut fake_record = clone_account(&made[5]);
    fake_record.address = fake_key.clone();
    let mut fake_vault = clone_account(&made[4]);
    fake_vault.data[32..64].copy_from_slice(&fake_key);
    accounts[6] = fake_vault;
    accounts[8] = fake_record;
    match process_instruction(&s.env, accounts, &vec![1u8]) {
        Err(e) => assert_eq!(e, EscrowError::InvalidAccountOwner),
        Ok(_) => panic!("settle with a substituted record address must fail"),
    }
}

#[test]
fn test_cancel_rejects_wrong_record_address() {
    let s = setup();
    let made = run_make(&s, 13, 254, 1_000_000, 2_000_000);

    let fake_key = addr(97);
    let mut accounts = refund_accounts(&s, &made);
    let mut fake_record = clone_account(&made[5]);
    fake_record.address = fake_key.clone();
    let mut fake_vault = clone_account(&made[4]);
    fake_vault.data[32..64].copy_from_slice(&fake_key);
    accounts[4] = fake_vault;
    accounts[5] = fake_record;
    match process_instruction(&s.env, accounts, &vec![2u8]) {
        Err(e) => assert_eq!(e, EscrowError::InvalidAccountOwner),
        Ok(_) => panic!("cancel with a substituted record address must fail"),
    }
}

#[test]
fn test_open_zero_amount_a_fails() {
    let s = setup();
    let accounts = make_accounts(&s, 1, 254);
    let payload = make_payload(0, 50_000_000, 1, 254);
    match process_instruction(&s.env, accounts, &payload) {
        Err(e) => assert_eq!(e, EscrowError::InvalidInstructionData),
        Ok(_) => panic!("zero amount A must fail"),
    }
}

#[test]
fn test_open_zero_amount_b_fails() {
    let s = setup();
    let accounts = make_accounts(&s, 1, 254);
    let payload = make_payload(70_000_000, 0, 1, 254);
    match process_instruction(&s.env, accounts, &payload) {
        Err(e) => assert_eq!(e, EscrowError::InvalidInstructionData),
        Ok(_) => panic!("zero amount B must fail"),
    }
}

#[test]
fn test_open_wrong_payload_length_fails() {
    let s = setup();
    let accounts = make_accounts(&s, 1, 254);
    let mut payload = make_payload(70_000_000, 50_000_000, 1, 254);
    payload.pop();
    match process_instruction(&s.env, accounts, &payload) {
        Err(e) => assert_eq!(e, EscrowError::InvalidInstructionData),
        Ok(_) => panic!("a 17-byte payload must fail"),
    }
}

#[test]
fn test_unknown_selector_fails() {
    let s = setup();
    let accounts = make_accounts(&s, 1, 254);
    match process_instruction(&s.env, accounts, &vec![3u8]) {
        Err(e) => assert_eq!(e, EscrowError::InvalidInstructionData),
        Ok(_) => panic!("unknown selector must fail"),
    }
    let accounts = make_accounts(&s, 1, 254);
    match process_instruction(&s.env, accounts, &Vec::new()) {
        Err(e) => assert_eq!(e, EscrowError::InvalidInstructionData),
        Ok(_) => panic!("empty payload must fail"),
    }
}

#[test]
fn test_not_enough_accounts_fails() {
    let s = setup();
    let mut accounts = make_accounts(&s, 1, 254);
    accounts.truncate(8);
    let payload = make_payload(70_000_000, 50_000_000, 1, 254);
    match process_instruction(&s.env, accounts, &payload) {
        Err(e) => assert_eq!(e, EscrowError::NotEnoughAccountKeys),
        Ok(_) => panic!("a short account list must fail"),
    }
}

#[test]
fn test_open_without_signature_fails() {
    let s = setup();
    let mut accounts = make_accounts(&s, 1, 254);
    accounts[0].is_signer = false;
    let payload = make_payload(70_000_000, 50_000_000, 1, 254);
    match process_instruction(&s.env, accounts, &payload) {
        Err(e) => assert_eq!(e, EscrowError::InvalidAccountOwner),
        Ok(_) => panic!("an unsigned open must fail"),
    }
}

#[test]
fn test_open_insufficient_funds_fails() {
    let s = setup();
    let accounts = make_accounts(&s, 1, 254);
    let payload = make_payload(200_000_000, 50_000_000, 1, 254);
    match process_instruction(&s.env, accounts, &payload) {
        Err(e) => assert_eq!(e, EscrowError::InsufficientFunds),
        Ok(_) => panic!("locking more than the balance must fail"),
    }
}

#[test]
fn test_open_insufficient_lamports_fails() {
    let s = setup();
    let mut accounts = make_accounts(&s, 1, 254);
    accounts[0].lamports = 0;
    let payload = make_payload(70_000_000, 50_000_000, 1, 254);
    match process_instruction(&s.env, accounts, &payload) {
        Err(e) => assert_eq!(e, EscrowError::InsufficientLamports),
        Ok(_) => panic!("a maker who cannot pay the deposit must fail"),
    }
}

#[test]
fn test_open_occupied_custodial_slot_fails() {
    let s = setup();
    let mut accounts = make_accounts(&s, 1, 254);
    accounts[4].lamports = 5;
    let payload = make_payload(70_000_000, 50_000_000, 1, 254);
    match process_instruction(&s.env, accounts, &payload) {
        Err(e) => assert_eq!(e, EscrowError::AccountAlreadyInUse),
        Ok(_) => panic!("an occupied custodial slot must fail"),
    }
}

#[test]
fn test_open_wrong_balance_account_linkage_fails() {
    let s = setup();
    // The maker's supposed asset-A balance account actually records asset B.
    let mut accounts = make_accounts(&s, 1, 254);
    accounts[3].data[0..32].copy_from_slice(&s.mint_b.address);
    let payload = make_payload(70_000_000, 50_000_000, 1, 254);
    match process_instruction(&s.env, accounts, &payload) {
        Err(e) => assert_eq!(e, EscrowError::MintMismatch),
        Ok(_) => panic!("a balance account of the wrong asset must fail"),
    }

    // The maker's supposed balance account actually belongs to the taker.
    let mut accounts = make_accounts(&s, 1, 254);
    accounts[3].data[32..64].copy_from_slice(&s.taker.address);
    match process_instruction(&s.env, accounts, &payload) {
        Err(e) => assert_eq!(e, EscrowError::OwnerMismatch),
        Ok(_) => panic!("a balance account of the wrong owner must fail"),
    }
}

#[test]
fn test_settle_rejects_substituted_wanted_asset() {
    let s = setup();
    let made = run_make(&s, 21, 254, 1_000_000, 2_000_000);

    // A different asset-B descriptor, with matching balance accounts, does
    // not match the asset id stored in the record.
    let other_mint = mint_account(&s.env, addr(96));
    let mut accounts = take_accounts(&s, &made);
    accounts[3] = clone_account(&other_mint);
    accounts[5] = token_account(&s.env, addr(95), &other_mint.address, &s.taker.address, 100_000_000);
    accounts[7] = token_account(&s.env, addr(94), &other_mint.address, &s.maker.address, 0);
    match process_instruction(&s.env, accounts, &vec![1u8]) {
        Err(e) => assert_eq!(e, EscrowError::InvalidAccountData),
        Ok(_) => panic!("settle against a substituted wanted asset must fail"),
    }
}

#[test]
fn test_record_codec_round_trip() {
    let rec = Escrow {
        mint_b: addr(42),
        amount_b: 123_456_789,
        seed: 7,
        bump: 253,
    };
    let bytes = rec.encode();
    assert_eq!(bytes.len(), 42);
    let back = Escrow::from_account_data(&bytes).expect("encoded record must decode");
    assert_eq!(back.mint_b, rec.mint_b);
    assert_eq!(back.amount_b, rec.amount_b);
    assert_eq!(back.seed, rec.seed);
    assert_eq!(back.bump, rec.bump);

    let short = vec![0u8; 41];
    match Escrow::from_account_data(&short) {
        Err(e) => assert_eq!(e, EscrowError::InvalidAccountData),
        Ok(_) => panic!("a 41-byte record must not decode"),
    }
}

#[test]
fn test_selector_conversion() {
    assert!(matches!(
        EscrowInstructions::try_from(&0u8),
        Ok(EscrowInstructions::MAKE)
    ));
    assert!(matches!(
        EscrowInstructions::try_from(&1u8),
        Ok(EscrowInstructions::TAKE)
    ));
    assert!(matches!(
        EscrowInstructions::try_from(&2u8),
        Ok(EscrowInstructions::REFUND)
    ));
    match EscrowInstructions::try_from(&3u8) {
        Err(e) => assert_eq!(e, EscrowError::InvalidInstructionData),
        Ok(_) => panic!("selector 3 must be rejected"),
    }
}

#[test]
fn test_derivation_is_deterministic_and_not_trivial() {
    let e = env();
    let maker = addr(1);
    let once = escrow_address(&maker, 9, 250, &e.program_id);
    let twice = escrow_address(&maker, 9, 250, &e.program_id);
    assert_eq!(once, twice);
    assert_eq!(once.len(), 32);
    // The derivation really mixes its inputs: it echoes none of them, and
    // each seed component changes the result.
    assert_ne!(once, maker);
    assert_ne!(once, e.program_id);
    assert_ne!(once, escrow_address(&maker, 10, 250, &e.program_id));
    assert_ne!(once, escrow_address(&maker, 9, 251, &e.program_id));
    assert_ne!(once, escrow_address(&addr(2), 9, 250, &e.program_id));
    assert_ne!(once, escrow_address(&maker, 9, 250, &e.token_program_id));
}

#[test]
fn test_transfer_decimals_and_signature_checks() {
    let s = setup();
    // A decimals value other than the descriptor's is rejected.
    let auth = Authorization::Signature {
        address: s.maker.address.clone(),
        signed: true,
    };
    match transfer_checked(
        clone_account(&s.maker_ata_a),
        &s.mint_a,
        clone_account(&s.taker_ata_a),
        &auth,
        1,
        6,
    ) {
        Err(e) => assert_eq!(e, EscrowError::DecimalsMismatch),
        Ok(_) => panic!("wrong decimals must fail"),
    }

    // An unsigned authority is rejected.
    let unsigned = Authorization::Signature {
        address: s.maker.address.clone(),
        signed: false,
    };
    match transfer_checked(
        clone_account(&s.maker_ata_a),
        &s.mint_a,
        clone_account(&s.taker_ata_a),
        &unsigned,
        1,
        9,
    ) {
        Err(e) => assert_eq!(e, EscrowError::MissingRequiredSignature),
        Ok(_) => panic!("an unsigned transfer must fail"),
    }

    // Receiving beyond the 64-bit range is rejected.
    let full = token_account(&s.env, addr(60), &s.mint_a.address, &s.taker.address, u64::MAX);
    match transfer_checked(clone_account(&s.maker_ata_a), &s.mint_a, full, &auth, 1, 9) {
        Err(e) => assert_eq!(e, EscrowError::ArithmeticOverflow),
        Ok(_) => panic!("an overflowing transfer must fail"),
    }
}

#[test]
fn test_close_requires_empty_balance() {
    let s = setup();
    let auth = Authorization::Signature {
        address: s.maker.address.clone(),
        signed: true,
    };
    match close_account(
        clone_account(&s.maker_ata_a),
        clone_account(&s.maker),
        &auth,
        &s.env.system_program_id,
    ) {
        Err(e) => assert_eq!(e, EscrowError::NonZeroTokenBalance),
        Ok(_) => panic!("closing a non-empty custodial account must fail"),
    }
}

#[test]
fn test_settle_full_exchange() {
    let s = setup();
    // Open for 70_000_000 of asset A against 50_000_000 of asset B, then a
    // funded taker settles.
    let made = run_make(&s, 1, 254, 70_000_000, 50_000_000);
    let out = process_instruction(&s.env, take_accounts(&s, &made), &vec![1u8])
        .expect("settle should succeed");

    // Exactly the custodied amount reaches the taker, exactly the wanted
    // amount reaches the maker, and both protocol accounts end empty.
    assert_eq!(read_amount(&out[4]), 70_000_000);
    assert_eq!(read_amount(&out[7]), 50_000_000);
    assert_eq!(read_amount(&out[5]), 50_000_000);
    assert_eq!(out[6].lamports, 0);
    assert_eq!(out[8].lamports, 0);
}
