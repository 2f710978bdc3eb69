use vstd::prelude::*;
use crate::account::{Account, AccountModel, CampaignError, Pubkey};
use crate::codec::{
    lemma_record_at_is_wire, record_at, record_fits, record_from, record_wire,
    withdraw_request_from, CampaignDetails, CampaignModel, WithdrawRequest,
};

verus! {

/// A data region of the same length holding `wire` at its front and zeros after it.
pub open spec fn stored(data: Seq<u8>, wire: Seq<u8>) -> Seq<u8> {
    wire + Seq::new((data.len() - wire.len()) as nat, |_i: int| 0u8)
}

/// The record that a storage account's data region holds at its front.
pub open spec fn stored_record(data: Seq<u8>) -> Option<CampaignModel> {
    match record_at(data) {
        Some((m, _n)) => Some(m),
        None => None,
    }
}

/// The record as a new campaign stores it: the counter starts at zero.
pub open spec fn fresh_record(m: CampaignModel) -> CampaignModel {
    CampaignModel { amount_donated: 0, ..m }
}

/// What creating a campaign does to the storage account, or why it fails.
pub open spec fn create_outcome(
    storage: AccountModel,
    creator: AccountModel,
    payload: Seq<u8>,
    rent_exemption: u64,
) -> Result<AccountModel, CampaignError> {
    if !creator.is_signer {
        Err(CampaignError::AuthorizationError)
    } else if storage.is_signer {
        Err(CampaignError::IncorrectProgramId)
    } else if record_from(payload) is None {
        Err(CampaignError::InvalidInstructionData)
    } else if (record_from(payload)->0).admin != creator.key {
        Err(CampaignError::InvalidInstructionData)
    } else if storage.lamports < rent_exemption {
        Err(CampaignError::InsufficientFunds)
    } else {
        let wire = record_wire(fresh_record(record_from(payload)->0));
        if wire.len() > storage.data.len() {
            Err(CampaignError::AccountDataTooSmall)
        } else {
            Ok(AccountModel { data: stored(storage.data, wire), ..storage })
        }
    }
}

/// Overwrites the whole data region: `wire` at the front, zeros after it.
fn store_record(data: &mut Vec<u8>, wire: &Vec<u8>)
    requires
        wire@.len() <= old(data)@.len(),
    ensures
        final(data)@ == stored(old(data)@, wire@),
{
    let ghost target = stored(data@, wire@);
    let mut i: usize = 0;
    while i < data.len()
        invariant
            i <= data@.len(),
            data@.len() == target.len(),
            wire@.len() <= data@.len(),
            target == stored(old(data)@, wire@),
            forall|j: int| 0 <= j < i ==> data@[j] == target[j],
        decreases data@.len() - i,
    {
        if i < wire.len() {
            data[i] = wire[i];
        } else {
            data[i] = 0;
        }
        i = i + 1;
    }
    assert(data@ =~= target);
}

/// Creates a campaign in `storage`, with the record in `payload` and its
/// counter reset to zero. A storage account may be created again: that
/// replaces its admin and history.
pub fn create_campaign(
    storage: &mut Account,
    creator: &Account,
    payload: &[u8],
    rent_exemption: u64,
) -> (r: Result<(), CampaignError>)
    ensures
        r is Ok <==> create_outcome(old(storage)@, creator@, payload@, rent_exemption) is Ok,
        r is Ok ==> final(storage)@ == create_outcome(
            old(storage)@,
            creator@,
            payload@,
            rent_exemption,
        )->Ok_0,
        r is Err ==> r->Err_0 == create_outcome(
            old(storage)@,
            creator@,
            payload@,
            rent_exemption,
        )->Err_0,
        r is Err ==> *final(storage) == *old(storage),
{
    if !creator.is_signer {
        return Err(CampaignError::AuthorizationError);
    }
    if storage.is_signer {
        return Err(CampaignError::IncorrectProgramId);
    }
    let mut record = match CampaignDetails::decode(payload) {
        Ok(rec) => rec,
        Err(e) => return Err(e),
    };
    if !(record.admin == creator.key) {
        return Err(CampaignError::InvalidInstructionData);
    }
    if storage.lamports < rent_exemption {
        return Err(CampaignError::InsufficientFunds);
    }
    record.amount_donated = 0;
    proof {
        lemma_record_at_is_wire(payload@);
    }
    let wire = match record.encode() {
        Some(w) => w,
        None => return Err(CampaignError::InvalidInstructionData),
    };
    if wire.len() > storage.data.len() {
        return Err(CampaignError::AccountDataTooSmall);
    }
    store_record(&mut storage.data, &wire);
    Ok(())
}

/// The balance above the rent threshold: what a withdrawal may take.
pub open spec fn spendable(balance: u64, rent_exemption: u64) -> u64 {
    if balance >= rent_exemption {
        (balance - rent_exemption) as u64
    } else {
        0
    }
}

/// What a withdrawal does to the storage and admin accounts, or why it fails.
pub open spec fn withdraw_outcome(
    program_id: Seq<u8>,
    storage: AccountModel,
    admin: AccountModel,
    payload: Seq<u8>,
    rent_exemption: u64,
) -> Result<(AccountModel, AccountModel), CampaignError> {
    if storage.owner != program_id {
        Err(CampaignError::IncorrectProgramId)
    } else if !admin.is_signer {
        Err(CampaignError::AuthorizationError)
    } else if stored_record(storage.data) is None {
        Err(CampaignError::InvalidInstructionData)
    } else if (stored_record(storage.data)->0).admin != admin.key {
        Err(CampaignError::InvalidAccountData)
    } else if withdraw_request_from(payload) is None {
        Err(CampaignError::InvalidInstructionData)
    } else {
        let amount = withdraw_request_from(payload)->0;
        if spendable(storage.lamports, rent_exemption) < amount {
            Err(CampaignError::InsufficientFunds)
        } else if admin.lamports + amount > u64::MAX {
            Err(CampaignError::ArithmeticOverflow)
        } else {
            Ok(
                (
                    AccountModel { lamports: (storage.lamports - amount) as u64, ..storage },
                    AccountModel { lamports: (admin.lamports + amount) as u64, ..admin },
                ),
            )
        }
    }
}

/// Moves the requested amount from `storage` to `admin`, who must be the
/// campaign's recorded admin and sign; the record itself is left as it is.
pub fn withdraw(
    program_id: &Pubkey,
    storage: &mut Account,
    admin: &mut Account,
    payload: &[u8],
    rent_exemption: u64,
) -> (r: Result<(), CampaignError>)
    ensures
        r is Ok <==> withdraw_outcome(
            program_id@,
            old(storage)@,
            old(admin)@,
            payload@,
            rent_exemption,
        ) is Ok,
        r is Ok ==> (final(storage)@, final(admin)@) == withdraw_outcome(
            program_id@,
            old(storage)@,
            old(admin)@,
            payload@,
            rent_exemption,
        )->Ok_0,
        r is Err ==> r->Err_0 == withdraw_outcome(
            program_id@,
            old(storage)@,
            old(admin)@,
            payload@,
            rent_exemption,
        )->Err_0,
        r is Err ==> *final(storage) == *old(storage) && *final(admin) == *old(admin),
{
    if !(storage.owner == *program_id) {
        return Err(CampaignError::IncorrectProgramId);
    }
    if !admin.is_signer {
        return Err(CampaignError::AuthorizationError);
    }
    let record = match CampaignDetails::decode_prefix(storage.data.as_slice()) {
        Some((rec, _used)) => rec,
        None => return Err(CampaignError::InvalidInstructionData),
    };
    if !(record.admin == admin.key) {
        return Err(CampaignError::InvalidAccountData);
    }
    let request = match WithdrawRequest::decode(payload) {
        Ok(req) => req,
        Err(e) => return Err(e),
    };
    if storage.lamports.saturating_sub(rent_exemption) < request.amount {
        return Err(CampaignError::InsufficientFunds);
    }
    let credited = match admin.lamports.checked_add(request.amount) {
        Some(v) => v,
        None => return Err(CampaignError::ArithmeticOverflow),
    };
    storage.lamports = storage.lamports - request.amount;
    admin.lamports = credited;
    Ok(())
}

/// The record after a donation of `amount`.
pub open spec fn donated_record(m: CampaignModel, amount: u64) -> CampaignModel {
    CampaignModel { amount_donated: (m.amount_donated + amount) as u64, ..m }
}

/// What a donation does to the storage and holding accounts, or why it fails.
pub open spec fn donate_outcome(
    program_id: Seq<u8>,
    storage: AccountModel,
    holding: AccountModel,
    donator: AccountModel,
) -> Result<(AccountModel, AccountModel), CampaignError> {
    if storage.owner != program_id {
        Err(CampaignError::IncorrectProgramId)
    } else if holding.owner != program_id {
        Err(CampaignError::IncorrectProgramId)
    } else if !donator.is_signer {
        Err(CampaignError::AuthorizationError)
    } else if stored_record(storage.data) is None {
        Err(CampaignError::InvalidInstructionData)
    } else {
        let m = stored_record(storage.data)->0;
        let d = holding.lamports;
        if m.amount_donated + d > u64::MAX || storage.lamports + d > u64::MAX {
            Err(CampaignError::ArithmeticOverflow)
        } else {
            Ok(
                (
                    AccountModel {
                        lamports: (storage.lamports + d) as u64,
                        data: stored(storage.data, record_wire(donated_record(m, d))),
                        ..storage
                    },
                    AccountModel { lamports: 0, ..holding },
                ),
            )
        }
    }
}

/// Moves the whole balance of `holding` into `storage` and adds it to the
/// record's lifetime total.
pub fn donate(
    program_id: &Pubkey,
    storage: &mut Account,
    holding: &mut Account,
    donator: &Account,
) -> (r: Result<(), CampaignError>)
    ensures
        r is Ok <==> donate_outcome(program_id@, old(storage)@, old(holding)@, donator@) is Ok,
        r is Ok ==> (final(storage)@, final(holding)@) == donate_outcome(
            program_id@,
            old(storage)@,
            old(holding)@,
            donator@,
        )->Ok_0,
        r is Err ==> r->Err_0 == donate_outcome(
            program_id@,
            old(storage)@,
            old(holding)@,
            donator@,
        )->Err_0,
        r is Err ==> *final(storage) == *old(storage) && *final(holding) == *old(holding),
{
    if !(storage.owner == *program_id) {
        return Err(CampaignError::IncorrectProgramId);
    }
    if !(holding.owner == *program_id) {
        return Err(CampaignError::IncorrectProgramId);
    }
    if !donator.is_signer {
        return Err(CampaignError::AuthorizationError);
    }
    let mut record = match CampaignDetails::decode_prefix(storage.data.as_slice()) {
        Some((rec, _used)) => rec,
        None => return Err(CampaignError::InvalidInstructionData),
    };
    let amount = holding.lamports;
    let total = match record.amount_donated.checked_add(amount) {
        Some(v) => v,
        None => return Err(CampaignError::ArithmeticOverflow),
    };
    let balance = match storage.lamports.checked_add(amount) {
        Some(v) => v,
        None => return Err(CampaignError::ArithmeticOverflow),
    };
    proof {
        lemma_record_at_is_wire(storage.data@);
    }
    let ghost before = record@;
    record.amount_donated = total;
    assert(record_wire(record@).len() == record_wire(before).len());
    let wire = match record.encode() {
        Some(w) => w,
        None => return Err(CampaignError::InvalidInstructionData),
    };
    store_record(&mut storage.data, &wire);
    storage.lamports = balance;
    holding.lamports = 0;
    Ok(())
}

/// The three state transitions, selected by an instruction's first byte.
#[derive(Clone, Copy, Debug, PartialEq, Eq, Structural)]
pub enum Opcode {
    CreateCampaign,
    Withdraw,
    Donate,
}

/// The transition that an opcode byte selects: 0, 1 and 2 are known.
pub open spec fn opcode_of(b: u8) -> Option<Opcode> {
    if b == 0 {
        Some(Opcode::CreateCampaign)
    } else if b == 1 {
        Some(Opcode::Withdraw)
    } else if b == 2 {
        Some(Opcode::Donate)
    } else {
        None
    }
}

/// Splits an instruction into its opcode and the payload that follows it.
pub fn decode_opcode(instruction_data: &[u8]) -> (r: Result<(Opcode, &[u8]), CampaignError>)
    ensures
        r is Ok <==> instruction_data@.len() > 0 && opcode_of(instruction_data@[0]) is Some,
        r is Ok ==> (r->Ok_0).0 == opcode_of(instruction_data@[0])->0,
        r is Ok ==> (r->Ok_0).1@ == instruction_data@.skip(1),
        r is Err ==> r->Err_0 == CampaignError::InvalidInstructionData,
{
    if instruction_data.len() == 0 {
        return Err(CampaignError::InvalidInstructionData);
    }
    let op = if instruction_data[0] == 0 {
        Opcode::CreateCampaign
    } else if instruction_data[0] == 1 {
        Opcode::Withdraw
    } else if instruction_data[0] == 2 {
        Opcode::Donate
    } else {
        return Err(CampaignError::InvalidInstructionData);
    };
    let payload = vstd::slice::slice_subrange(instruction_data, 1, instruction_data.len());
    assert(payload@ =~= instruction_data@.skip(1));
    Ok((op, payload))
}

/// The models of a list of accounts.
pub open spec fn models(accounts: Seq<Account>) -> Seq<AccountModel> {
    accounts.map_values(|a: Account| a@)
}

/// What an instruction does to the account list, or why it fails. The
/// accounts stand in a fixed order: storage and creator for a creation,
/// storage and admin for a withdrawal, storage, holding account and donator
/// for a donation; any after those are not read.
pub open spec fn process_outcome(
    program_id: Seq<u8>,
    accounts: Seq<AccountModel>,
    instruction_data: Seq<u8>,
    rent_exemption: u64,
) -> Result<Seq<AccountModel>, CampaignError> {
    if instruction_data.len() == 0 || opcode_of(instruction_data[0]) is None {
        Err(CampaignError::InvalidInstructionData)
    } else {
        let payload = instruction_data.skip(1);
        match opcode_of(instruction_data[0])->0 {
            Opcode::CreateCampaign => if accounts.len() < 2 {
                Err(CampaignError::NotEnoughAccountKeys)
            } else {
                match create_outcome(accounts[0], accounts[1], payload, rent_exemption) {
                    Ok(s) => Ok(accounts.update(0, s)),
                    Err(e) => Err(e),
                }
            },
            Opcode::Withdraw => if accounts.len() < 2 {
                Err(CampaignError::NotEnoughAccountKeys)
            } else {
                match withdraw_outcome(
                    program_id,
                    accounts[0],
                    accounts[1],
                    payload,
                    rent_exemption,
                ) {
                    Ok((s, a)) => Ok(accounts.update(0, s).update(1, a)),
                    Err(e) => Err(e),
                }
            },
            Opcode::Donate => if accounts.len() < 3 {
                Err(CampaignError::NotEnoughAccountKeys)
            } else {
                match donate_outcome(program_id, accounts[0], accounts[1], accounts[2]) {
                    Ok((s, h)) => Ok(accounts.update(0, s).update(1, h)),
                    Err(e) => Err(e),
                }
            },
        }
    }
}

fn run_create(accounts: &mut Vec<Account>, payload: &[u8], rent_exemption: u64) -> (r: Result<
    (),
    CampaignError,
>)
    requires
        old(accounts)@.len() >= 2,
    ensures
        ({
            let out = create_outcome(
                old(accounts)@[0]@,
                old(accounts)@[1]@,
                payload@,
                rent_exemption,
            );
            &&& r is Ok <==> out is Ok
            &&& r is Ok ==> models(final(accounts)@) == models(old(accounts)@).update(
                0,
                out->Ok_0,
            )
            &&& r is Err ==> r->Err_0 == out->Err_0 && final(accounts)@ == old(accounts)@
        }),
{
    let ghost before = accounts@;
    let mut storage = accounts.remove(0);
    let r = create_campaign(&mut storage, &accounts[0], payload, rent_exemption);
    accounts.insert(0, storage);
    proof {
        if r is Err {
            assert(accounts@ =~= before);
        } else {
            assert(models(accounts@) =~= models(before).update(0, storage@));
        }
    }
    r
}

fn run_withdraw(
    program_id: &Pubkey,
    accounts: &mut Vec<Account>,
    payload: &[u8],
    rent_exemption: u64,
) -> (r: Result<(), CampaignError>)
    requires
        old(accounts)@.len() >= 2,
    ensures
        ({
            let out = withdraw_outcome(
                program_id@,
                old(accounts)@[0]@,
                old(accounts)@[1]@,
                payload@,
                rent_exemption,
            );
            &&& r is Ok <==> out is Ok
            &&& r is Ok ==> models(final(accounts)@) == models(old(accounts)@).update(
                0,
                (out->Ok_0).0,
            ).update(1, (out->Ok_0).1)
            &&& r is Err ==> r->Err_0 == out->Err_0 && final(accounts)@ == old(accounts)@
        }),
{
    let ghost before = accounts@;
    let mut admin = accounts.remove(1);
    let mut storage = accounts.remove(0);
    let r = withdraw(program_id, &mut storage, &mut admin, payload, rent_exemption);
    accounts.insert(0, storage);
    accounts.insert(1, admin);
    proof {
        if r is Err {
            assert(accounts@ =~= before);
        } else {
            assert(models(accounts@) =~= models(before).update(0, storage@).update(1, admin@));
        }
    }
    r
}

fn run_donate(program_id: &Pubkey, accounts: &mut Vec<Account>) -> (r: Result<
    (),
    CampaignError,
>)
    requires
        old(accounts)@.len() >= 3,
    ensures
        ({
            let out = donate_outcome(
                program_id@,
                old(accounts)@[0]@,
                old(accounts)@[1]@,
                old(accounts)@[2]@,
            );
            &&& r is Ok <==> out is Ok
            &&& r is Ok ==> models(final(accounts)@) == models(old(accounts)@).update(
                0,
                (out->Ok_0).0,
            ).update(1, (out->Ok_0).1)
            &&& r is Err ==> r->Err_0 == out->Err_0 && final(accounts)@ == old(accounts)@
        }),
{
    let ghost before = accounts@;
    let mut holding = accounts.remove(1);
    let mut storage = accounts.remove(0);
    let r = donate(program_id, &mut storage, &mut holding, &accounts[0]);
    accounts.insert(0, storage);
    accounts.insert(1, holding);
    proof {
        if r is Err {
            assert(accounts@ =~= before);
        } else {
            assert(models(accounts@) =~= models(before).update(0, storage@).update(1, holding@));
        }
    }
    r
}

/// Runs one instruction on the account list: all of it or, on an error, none of it.
pub fn process_instruction(
    program_id: &Pubkey,
    accounts: &mut Vec<Account>,
    instruction_data: &[u8],
    rent_exemption: u64,
) -> (r: Result<(), CampaignError>)
    ensures
        r is Ok <==> process_outcome(
            program_id@,
            models(old(accounts)@),
            instruction_data@,
            rent_exemption,
        ) is Ok,
        r is Ok ==> models(final(accounts)@) == process_outcome(
            program_id@,
            models(old(accounts)@),
            instruction_data@,
            rent_exemption,
        )->Ok_0,
        r is Err ==> r->Err_0 == process_outcome(
            program_id@,
            models(old(accounts)@),
            instruction_data@,
            rent_exemption,
        )->Err_0,
        r is Err ==> final(accounts)@ == old(accounts)@,
{
    let (op, payload) = match decode_opcode(instruction_data) {
        Ok(p) => p,
        Err(e) => return Err(e),
    };
    match op {
        Opcode::CreateCampaign => {
            if accounts.len() < 2 {
                return Err(CampaignError::NotEnoughAccountKeys);
            }
            run_create(accounts, payload, rent_exemption)
        },
        Opcode::Withdraw => {
            if accounts.len() < 2 {
                return Err(CampaignError::NotEnoughAccountKeys);
            }
            run_withdraw(program_id, accounts, payload, rent_exemption)
        },
        Opcode::Donate => {
            if accounts.len() < 3 {
                return Err(CampaignError::NotEnoughAccountKeys);
            }
            run_donate(program_id, accounts)
        },
    }
}

} // verus!
