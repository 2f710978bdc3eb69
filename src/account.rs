use vstd::prelude::*;

verus! {

/// A 32-byte account identity.
#[derive(Clone, Copy, Debug)]
pub struct Pubkey {
    pub bytes: [u8; 32],
}

impl View for Pubkey {
    type V = Seq<u8>;

    open spec fn view(&self) -> Seq<u8> {
        self.bytes@
    }
}

impl Pubkey {
    pub fn new(bytes: [u8; 32]) -> (r: Pubkey)
        ensures
            r@ == bytes@,
    {
        Pubkey { bytes }
    }
}

impl PartialEq for Pubkey {
    fn eq(&self, o: &Pubkey) -> (r: bool)
        ensures
            r == (self@ == o@),
    {
        let mut i: usize = 0;
        while i < 32
            invariant
                0 <= i <= 32,
                self@.len() == 32,
                o@.len() == 32,
                self@.subrange(0, i as int) == o@.subrange(0, i as int),
            decreases 32 - i,
        {
            if self.bytes[i] != o.bytes[i] {
                return false;
            }
            assert(self@.subrange(0, i + 1) =~= self@.subrange(0, i as int).push(self@[i as int]));
            assert(o@.subrange(0, i + 1) =~= o@.subrange(0, i as int).push(o@[i as int]));
            i = i + 1;
        }
        assert(self@ =~= self@.subrange(0, 32));
        assert(o@ =~= o@.subrange(0, 32));
        true
    }
}

impl vstd::std_specs::cmp::PartialEqSpecImpl for Pubkey {
    open spec fn obeys_eq_spec() -> bool {
        true
    }

    open spec fn eq_spec(&self, o: &Pubkey) -> bool {
        self@ == o@
    }
}

/// The ways a call can fail.
#[derive(Clone, Copy, Debug, PartialEq, Eq, Structural)]
pub enum CampaignError {
    /// Empty or unknown opcode, a payload or record that does not decode, or
    /// an admin field that does not name the creator.
    InvalidInstructionData,
    /// A required signature is absent.
    AuthorizationError,
    /// An account is not owned by the program, or a storage account signs.
    IncorrectProgramId,
    /// A balance below the rent threshold, or a withdrawal beyond what can be spent.
    InsufficientFunds,
    /// A withdrawal requested by an identity that is not the recorded admin.
    InvalidAccountData,
    /// Fewer accounts than the instruction names.
    NotEnoughAccountKeys,
    /// The encoded record does not fit in the storage account's data region.
    AccountDataTooSmall,
    /// A balance or counter would leave the range of `u64`.
    ArithmeticOverflow,
}

/// An account as the host hands it to one call: identity, owning program,
/// whether it signed the call, its balance and its data region.
#[derive(Debug)]
pub struct Account {
    pub key: Pubkey,
    pub owner: Pubkey,
    pub is_signer: bool,
    pub lamports: u64,
    pub data: Vec<u8>,
}

/// What an account holds, as plain values.
pub struct AccountModel {
    pub key: Seq<u8>,
    pub owner: Seq<u8>,
    pub is_signer: bool,
    pub lamports: u64,
    pub data: Seq<u8>,
}

impl View for Account {
    type V = AccountModel;

    open spec fn view(&self) -> AccountModel {
        AccountModel {
            key: self.key@,
            owner: self.owner@,
            is_signer: self.is_signer,
            lamports: self.lamports,
            data: self.data@,
        }
    }
}

impl Account {
    pub fn new(key: Pubkey, owner: Pubkey, is_signer: bool, lamports: u64, data: Vec<u8>) -> (r: Account)
        ensures
            r.key == key,
            r.owner == owner,
            r.is_signer == is_signer,
            r.lamports == lamports,
            r.data@ == data@,
    {
        Account { key, owner, is_signer, lamports, data }
    }
}

} // verus!
