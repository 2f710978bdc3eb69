use crowdfund::{
    create_campaign, decode_opcode, donate, process_instruction, withdraw, Account,
    CampaignDetails, CampaignError, Opcode, Pubkey, WithdrawRequest,
};

const RENT: u64 = 1_000_000;

fn key(b: u8) -> Pubkey {
    Pubkey::new([b; 32])
}

fn program() -> Pubkey {
    key(9)
}

fn record(admin: Pubkey, name: &str, amount: u64) -> CampaignDetails {
    CampaignDetails {
        admin,
        name: name.to_string(),
        description: "Wells for villages".to_string(),
        image_link: "https://example.org/w.png".to_string(),
        amount_donated: amount,
    }
}

fn encoded(r: &CampaignDetails) -> Vec<u8> {
    r.encode().unwrap()
}

fn storage_with(rec: &CampaignDetails, lamports: u64) -> Account {
    Account::new(key(5), program(), false, lamports, encoded(rec))
}

fn stored(acc: &Account) -> CampaignDetails {
    CampaignDetails::decode_prefix(&acc.data).unwrap().0
}

#[test]
fn record_wire_layout() {
    let r = CampaignDetails {
        admin: key(1),
        name: "ab".to_string(),
        description: "".to_string(),
        image_link: "é".to_string(),
        amount_donated: 0x0102030405060708,
    };
    let mut want = vec![1u8; 32];
    want.extend_from_slice(&[2, 0, 0, 0, b'a', b'b']);
    want.extend_from_slice(&[0, 0, 0, 0]);
    want.extend_from_slice(&[2, 0, 0, 0, 0xc3, 0xa9]);
    want.extend_from_slice(&[8, 7, 6, 5, 4, 3, 2, 1]);
    assert_eq!(r.encode().unwrap(), want);
}

#[test]
fn record_round_trip() {
    let r = record(key(1), "Clean Water", 42);
    let back = CampaignDetails::decode(&encoded(&r)).unwrap();
    assert!(back.admin == r.admin);
    assert_eq!(back.name, "Clean Water");
    assert_eq!(back.description, "Wells for villages");
    assert_eq!(back.image_link, "https://example.org/w.png");
    assert_eq!(back.amount_donated, 42);
}

#[test]
fn record_prefix_ignores_tail() {
    let r = record(key(1), "Clean Water", 7);
    let mut bytes = encoded(&r);
    let n = bytes.len();
    bytes.extend_from_slice(&[0, 0, 0]);
    let (back, used) = CampaignDetails::decode_prefix(&bytes).unwrap();
    assert_eq!(used, n);
    assert_eq!(back.name, "Clean Water");
    assert_eq!(
        CampaignDetails::decode(&bytes).err(),
        Some(CampaignError::InvalidInstructionData)
    );
}

#[test]
fn record_decode_rejects_bad_input() {
    let r = record(key(1), "Clean Water", 7);
    let bytes = encoded(&r);
    assert!(CampaignDetails::decode(&bytes[..bytes.len() - 1]).is_err());
    assert!(CampaignDetails::decode(&bytes[..20]).is_err());
    let mut bad = bytes.clone();
    bad[36] = 0xff;
    assert_eq!(
        CampaignDetails::decode(&bad).err(),
        Some(CampaignError::InvalidInstructionData)
    );
}

#[test]
fn withdraw_request_codec() {
    let w = WithdrawRequest { amount: 258 };
    assert_eq!(w.encode(), vec![2, 1, 0, 0, 0, 0, 0, 0]);
    assert_eq!(WithdrawRequest::decode(&w.encode()).unwrap().amount, 258);
    assert_eq!(
        WithdrawRequest::decode(&[1, 2, 3]).err(),
        Some(CampaignError::InvalidInstructionData)
    );
}

#[test]
fn create_resets_counter_scenario() {
    let a = key(1);
    let payload = encoded(&record(a, "Clean Water", 999));
    let mut storage = Account::new(key(5), program(), false, RENT, vec![0u8; payload.len() + 10]);
    let creator = Account::new(a, key(0), true, 10, vec![]);
    assert_eq!(create_campaign(&mut storage, &creator, &payload, RENT), Ok(()));
    let got = stored(&storage);
    assert_eq!(got.amount_donated, 0);
    assert!(got.admin == a);
    assert_eq!(got.name, "Clean Water");
    assert_eq!(storage.data.len(), payload.len() + 10);
    assert!(storage.data[payload.len()..].iter().all(|b| *b == 0));
    assert_eq!(storage.lamports, RENT);
}

#[test]
fn create_requires_creator_signature() {
    let a = key(1);
    let payload = encoded(&record(a, "x", 0));
    let mut storage = Account::new(key(5), program(), true, RENT, vec![7u8; 200]);
    let creator = Account::new(a, key(0), false, 10, vec![]);
    assert_eq!(
        create_campaign(&mut storage, &creator, &payload, RENT),
        Err(CampaignError::AuthorizationError)
    );
    assert_eq!(storage.data, vec![7u8; 200]);
}

#[test]
fn create_rejects_signing_storage() {
    let a = key(1);
    let payload = encoded(&record(a, "x", 0));
    let mut storage = Account::new(key(5), program(), true, RENT, vec![7u8; 200]);
    let creator = Account::new(a, key(0), true, 10, vec![]);
    assert_eq!(
        create_campaign(&mut storage, &creator, &payload, RENT),
        Err(CampaignError::IncorrectProgramId)
    );
    assert_eq!(storage.data, vec![7u8; 200]);
}

#[test]
fn create_rejects_other_admin_and_bad_payload() {
    let payload = encoded(&record(key(2), "x", 0));
    let mut storage = Account::new(key(5), program(), false, RENT, vec![0u8; 200]);
    let creator = Account::new(key(1), key(0), true, 10, vec![]);
    assert_eq!(
        create_campaign(&mut storage, &creator, &payload, RENT),
        Err(CampaignError::InvalidInstructionData)
    );
    assert_eq!(
        create_campaign(&mut storage, &creator, &payload[..10], RENT),
        Err(CampaignError::InvalidInstructionData)
    );
}

#[test]
fn create_needs_rent_and_room() {
    let a = key(1);
    let payload = encoded(&record(a, "Clean Water", 0));
    let creator = Account::new(a, key(0), true, 10, vec![]);
    let mut poor = Account::new(key(5), program(), false, RENT - 1, vec![0u8; 200]);
    assert_eq!(
        create_campaign(&mut poor, &creator, &payload, RENT),
        Err(CampaignError::InsufficientFunds)
    );
    let mut small = Account::new(key(5), program(), false, RENT, vec![0u8; payload.len() - 1]);
    assert_eq!(
        create_campaign(&mut small, &creator, &payload, RENT),
        Err(CampaignError::AccountDataTooSmall)
    );
    assert_eq!(small.data, vec![0u8; payload.len() - 1]);
}

#[test]
fn donate_scenario() {
    let rec = record(key(1), "Clean Water", 100);
    let mut storage = storage_with(&rec, 2_000_000);
    let mut holding = Account::new(key(6), program(), false, 5_000_000, vec![]);
    let donator = Account::new(key(7), key(0), true, 1, vec![]);
    assert_eq!(donate(&program(), &mut storage, &mut holding, &donator), Ok(()));
    assert_eq!(storage.lamports, 7_000_000);
    assert_eq!(holding.lamports, 0);
    let got = stored(&storage);
    assert_eq!(got.amount_donated, 5_000_100);
    assert_eq!(got.name, "Clean Water");
    assert!(got.admin == key(1));
}

#[test]
fn donate_checks_owners_and_signer() {
    let rec = record(key(1), "Clean Water", 0);
    let donator = Account::new(key(7), key(0), true, 1, vec![]);
    let mut foreign = Account::new(key(5), key(3), false, 10, encoded(&rec));
    let mut holding = Account::new(key(6), program(), false, 50, vec![]);
    assert_eq!(
        donate(&program(), &mut foreign, &mut holding, &donator),
        Err(CampaignError::IncorrectProgramId)
    );
    let mut storage = storage_with(&rec, 10);
    let mut foreign_holding = Account::new(key(6), key(3), false, 50, vec![]);
    assert_eq!(
        donate(&program(), &mut storage, &mut foreign_holding, &donator),
        Err(CampaignError::IncorrectProgramId)
    );
    let silent = Account::new(key(7), key(0), false, 1, vec![]);
    assert_eq!(
        donate(&program(), &mut storage, &mut holding, &silent),
        Err(CampaignError::AuthorizationError)
    );
    assert_eq!(storage.lamports, 10);
    assert_eq!(holding.lamports, 50);
}

#[test]
fn donate_overflow_changes_nothing() {
    let rec = record(key(1), "Clean Water", u64::MAX - 1);
    let mut storage = storage_with(&rec, 10);
    let before = storage.data.clone();
    let mut holding = Account::new(key(6), program(), false, 2, vec![]);
    let donator = Account::new(key(7), key(0), true, 1, vec![]);
    assert_eq!(
        donate(&program(), &mut storage, &mut holding, &donator),
        Err(CampaignError::ArithmeticOverflow)
    );
    assert_eq!(storage.data, before);
    assert_eq!(holding.lamports, 2);
}

#[test]
fn withdraw_all_spendable_scenario() {
    let rec = record(key(1), "Clean Water", 5);
    let balance = 6_500_000;
    let mut storage = storage_with(&rec, balance);
    let before = storage.data.clone();
    let mut admin = Account::new(key(1), key(0), true, 100, vec![]);
    let payload = WithdrawRequest { amount: balance - RENT }.encode();
    assert_eq!(withdraw(&program(), &mut storage, &mut admin, &payload, RENT), Ok(()));
    assert_eq!(storage.lamports, RENT);
    assert_eq!(admin.lamports, 100 + balance - RENT);
    assert_eq!(storage.data, before);
}

#[test]
fn withdraw_one_too_many_scenario() {
    let rec = record(key(1), "Clean Water", 5);
    let balance = 6_500_000;
    let mut storage = storage_with(&rec, balance);
    let mut admin = Account::new(key(1), key(0), true, 100, vec![]);
    let payload = WithdrawRequest { amount: balance - RENT + 1 }.encode();
    assert_eq!(
        withdraw(&program(), &mut storage, &mut admin, &payload, RENT),
        Err(CampaignError::InsufficientFunds)
    );
    assert_eq!(storage.lamports, balance);
    assert_eq!(admin.lamports, 100);
}

#[test]
fn withdraw_below_rent_saturates() {
    let rec = record(key(1), "Clean Water", 5);
    let mut storage = storage_with(&rec, RENT - 5);
    let mut admin = Account::new(key(1), key(0), true, 100, vec![]);
    let one = WithdrawRequest { amount: 1 }.encode();
    assert_eq!(
        withdraw(&program(), &mut storage, &mut admin, &one, RENT),
        Err(CampaignError::InsufficientFunds)
    );
    let zero = WithdrawRequest { amount: 0 }.encode();
    assert_eq!(withdraw(&program(), &mut storage, &mut admin, &zero, RENT), Ok(()));
    assert_eq!(storage.lamports, RENT - 5);
}

#[test]
fn withdraw_by_other_signer_fails() {
    let rec = record(key(1), "Clean Water", 5);
    let mut storage = storage_with(&rec, 5 * RENT);
    let mut other = Account::new(key(2), key(0), true, 100, vec![]);
    let payload = WithdrawRequest { amount: 1 }.encode();
    assert_eq!(
        withdraw(&program(), &mut storage, &mut other, &payload, RENT),
        Err(CampaignError::InvalidAccountData)
    );
    assert_eq!(storage.lamports, 5 * RENT);
    assert_eq!(other.lamports, 100);
}

#[test]
fn withdraw_checks_owner_signer_and_payload() {
    let rec = record(key(1), "Clean Water", 5);
    let payload = WithdrawRequest { amount: 1 }.encode();
    let mut foreign = Account::new(key(5), key(3), false, 5 * RENT, encoded(&rec));
    let mut admin = Account::new(key(1), key(0), true, 100, vec![]);
    assert_eq!(
        withdraw(&program(), &mut foreign, &mut admin, &payload, RENT),
        Err(CampaignError::IncorrectProgramId)
    );
    let mut storage = storage_with(&rec, 5 * RENT);
    let mut silent = Account::new(key(1), key(0), false, 100, vec![]);
    assert_eq!(
        withdraw(&program(), &mut storage, &mut silent, &payload, RENT),
        Err(CampaignError::AuthorizationError)
    );
    assert_eq!(
        withdraw(&program(), &mut storage, &mut admin, &payload[..7], RENT),
        Err(CampaignError::InvalidInstructionData)
    );
    let mut garbage = Account::new(key(5), program(), false, 5 * RENT, vec![1, 2, 3]);
    assert_eq!(
        withdraw(&program(), &mut garbage, &mut admin, &payload, RENT),
        Err(CampaignError::InvalidInstructionData)
    );
}

#[test]
fn withdraw_credit_overflow_changes_nothing() {
    let rec = record(key(1), "Clean Water", 5);
    let mut storage = storage_with(&rec, 5 * RENT);
    let mut admin = Account::new(key(1), key(0), true, u64::MAX, vec![]);
    let payload = WithdrawRequest { amount: 1 }.encode();
    assert_eq!(
        withdraw(&program(), &mut storage, &mut admin, &payload, RENT),
        Err(CampaignError::ArithmeticOverflow)
    );
    assert_eq!(storage.lamports, 5 * RENT);
}

#[test]
fn opcode_decoding() {
    assert_eq!(decode_opcode(&[]).err(), Some(CampaignError::InvalidInstructionData));
    assert_eq!(decode_opcode(&[3, 1]).err(), Some(CampaignError::InvalidInstructionData));
    let (op, rest) = decode_opcode(&[1, 4, 5]).unwrap();
    assert_eq!(op, Opcode::Withdraw);
    assert_eq!(rest, &[4, 5]);
    assert_eq!(decode_opcode(&[0]).unwrap().0, Opcode::CreateCampaign);
    assert_eq!(decode_opcode(&[2]).unwrap().0, Opcode::Donate);
}

#[test]
fn router_full_lifecycle() {
    let a = key(1);
    let payload = encoded(&record(a, "Clean Water", 999));
    let mut data = vec![0u8];
    data.extend_from_slice(&payload);
    let mut accounts = vec![
        Account::new(key(5), program(), false, 2 * RENT, vec![0u8; payload.len()]),
        Account::new(a, key(0), true, 100, vec![]),
    ];
    assert_eq!(process_instruction(&program(), &mut accounts, &data, RENT), Ok(()));
    assert_eq!(stored(&accounts[0]).amount_donated, 0);

    let mut accounts = vec![
        accounts.remove(0),
        Account::new(key(6), program(), false, 3 * RENT, vec![]),
        Account::new(key(7), key(0), true, 1, vec![]),
    ];
    assert_eq!(process_instruction(&program(), &mut accounts, &[2], RENT), Ok(()));
    assert_eq!(accounts[0].lamports, 5 * RENT);
    assert_eq!(accounts[1].lamports, 0);
    assert_eq!(stored(&accounts[0]).amount_donated, 3 * RENT);

    let mut accounts = vec![accounts.remove(0), Account::new(a, key(0), true, 100, vec![])];
    let mut data = vec![1u8];
    data.extend_from_slice(&WithdrawRequest { amount: 4 * RENT }.encode());
    assert_eq!(process_instruction(&program(), &mut accounts, &data, RENT), Ok(()));
    assert_eq!(accounts[0].lamports, RENT);
    assert_eq!(accounts[1].lamports, 100 + 4 * RENT);
    assert_eq!(stored(&accounts[0]).amount_donated, 3 * RENT);
}

#[test]
fn router_rejects_bad_instructions() {
    let mut accounts = vec![Account::new(key(5), program(), false, RENT, vec![])];
    assert_eq!(
        process_instruction(&program(), &mut accounts, &[], RENT),
        Err(CampaignError::InvalidInstructionData)
    );
    assert_eq!(
        process_instruction(&program(), &mut accounts, &[7], RENT),
        Err(CampaignError::InvalidInstructionData)
    );
    assert_eq!(
        process_instruction(&program(), &mut accounts, &[1, 0, 0, 0, 0, 0, 0, 0, 0], RENT),
        Err(CampaignError::NotEnoughAccountKeys)
    );
    accounts.push(Account::new(key(6), program(), false, 5, vec![]));
    assert_eq!(
        process_instruction(&program(), &mut accounts, &[2], RENT),
        Err(CampaignError::NotEnoughAccountKeys)
    );
    assert_eq!(accounts.len(), 2);
    assert_eq!(accounts[1].lamports, 5);
}

#[test]
fn pubkey_equality() {
    let mut b = [3u8; 32];
    assert!(Pubkey::new(b) == key(3));
    b[31] = 4;
    assert!(Pubkey::new(b) != key(3));
}
