use vstd::prelude::*;
use crate::account::{AccountModel, CampaignError};
use crate::codec::{
    lemma_record_at_is_wire, lemma_record_round_trip, record_fits, record_from,
    record_wire, withdraw_request_from,
};
use crate::processor::{
    create_outcome, donate_outcome, donated_record, fresh_record, spendable, stored,
    stored_record, withdraw_outcome,
};

verus! {

proof fn lemma_stored_reads_back(data: Seq<u8>, m: crate::codec::CampaignModel)
    requires
        record_fits(m),
        record_wire(m).len() <= data.len(),
    ensures
        stored_record(stored(data, record_wire(m))) == Some(m),
{
    let wire = record_wire(m);
    lemma_record_round_trip(m, Seq::new((data.len() - wire.len()) as nat, |_i: int| 0u8));
}

/// A successful creation stores the payload's record with its counter at
/// zero, whatever counter the payload carried.
pub proof fn lemma_created_counter_is_zero(
    storage: AccountModel,
    creator: AccountModel,
    payload: Seq<u8>,
    rent_exemption: u64,
)
    requires
        create_outcome(storage, creator, payload, rent_exemption) is Ok,
    ensures
        stored_record(create_outcome(storage, creator, payload, rent_exemption)->Ok_0.data)
            == Some(fresh_record(record_from(payload)->0)),
        (stored_record(
            create_outcome(storage, creator, payload, rent_exemption)->Ok_0.data,
        )->0).amount_donated == 0,
{
    let m = record_from(payload)->0;
    lemma_record_at_is_wire(payload);
    assert(record_fits(fresh_record(m)));
    lemma_stored_reads_back(storage.data, fresh_record(m));
}

/// Creation fails for want of the creator's signature, and fails when the
/// storage account itself signs.
pub proof fn lemma_create_signatures(
    storage: AccountModel,
    creator: AccountModel,
    payload: Seq<u8>,
    rent_exemption: u64,
)
    ensures
        !creator.is_signer ==> create_outcome(storage, creator, payload, rent_exemption) == Err::<
            AccountModel,
            CampaignError,
        >(CampaignError::AuthorizationError),
        creator.is_signer && storage.is_signer ==> create_outcome(
            storage,
            creator,
            payload,
            rent_exemption,
        ) == Err::<AccountModel, CampaignError>(CampaignError::IncorrectProgramId),
{
}

/// A signer that is not the recorded admin cannot withdraw.
pub proof fn lemma_withdraw_only_by_admin(
    program_id: Seq<u8>,
    storage: AccountModel,
    admin: AccountModel,
    payload: Seq<u8>,
    rent_exemption: u64,
)
    requires
        storage.owner == program_id,
        admin.is_signer,
        stored_record(storage.data) is Some,
        (stored_record(storage.data)->0).admin != admin.key,
    ensures
        withdraw_outcome(program_id, storage, admin, payload, rent_exemption) == Err::<
            (AccountModel, AccountModel),
            CampaignError,
        >(CampaignError::InvalidAccountData),
{
}

/// A withdrawal never takes the storage balance below the rent threshold:
/// it takes at most the balance above it, and asking for more fails with
/// `InsufficientFunds`.
pub proof fn lemma_withdraw_keeps_rent(
    program_id: Seq<u8>,
    storage: AccountModel,
    admin: AccountModel,
    payload: Seq<u8>,
    rent_exemption: u64,
)
    ensures
        withdraw_outcome(program_id, storage, admin, payload, rent_exemption) is Ok ==> {
            let after = withdraw_outcome(program_id, storage, admin, payload, rent_exemption)->Ok_0;
            let amount = withdraw_request_from(payload)->0;
            &&& amount <= spendable(storage.lamports, rent_exemption)
            &&& after.0.lamports == storage.lamports - amount
            &&& after.1.lamports == admin.lamports + amount
            &&& after.0.lamports >= rent_exemption || after.0.lamports == storage.lamports
        },
        storage.owner == program_id && admin.is_signer && stored_record(storage.data) is Some
            && (stored_record(storage.data)->0).admin == admin.key && withdraw_request_from(
            payload,
        ) is Some && withdraw_request_from(payload)->0 > spendable(
            storage.lamports,
            rent_exemption,
        ) ==> withdraw_outcome(program_id, storage, admin, payload, rent_exemption) == Err::<
            (AccountModel, AccountModel),
            CampaignError,
        >(CampaignError::InsufficientFunds),
{
}

/// A donation adds the holding account's whole balance to the storage
/// balance and to the recorded total, and leaves the holding account empty;
/// the rest of the record stays as it was.
pub proof fn lemma_donation_moves_whole_balance(
    program_id: Seq<u8>,
    storage: AccountModel,
    holding: AccountModel,
    donator: AccountModel,
)
    requires
        donate_outcome(program_id, storage, holding, donator) is Ok,
    ensures
        ({
            let after = donate_outcome(program_id, storage, holding, donator)->Ok_0;
            let before = stored_record(storage.data)->0;
            &&& after.0.lamports == storage.lamports + holding.lamports
            &&& after.1.lamports == 0
            &&& stored_record(after.0.data) == Some(donated_record(before, holding.lamports))
            &&& before.amount_donated + holding.lamports <= u64::MAX
        }),
{
    let m = stored_record(storage.data)->0;
    lemma_record_at_is_wire(storage.data);
    assert(record_fits(donated_record(m, holding.lamports)));
    assert(record_wire(donated_record(m, holding.lamports)).len() == record_wire(m).len());
    lemma_stored_reads_back(storage.data, donated_record(m, holding.lamports));
}

} // verus!
