//! A state backend that lives in memory.
//!
//! It holds a single state, the latest, and answers every query from it. With
//! no accounts added it is the backend of a chain about which nothing is known.

use vstd::prelude::*;
use crate::capability::{Account, BlockReader, ChainSpecProvider, StateReader};
use crate::primitives::{
    keccak_empty, spec_keccak_empty, Address, B256, BlockId, BlockNumberOrTag, RecoveredBlock, U256,
};
use crate::state::{get_account_result, get_proof_result, storage_at_result, EthApiError};
use crate::word_map::WordMap;

verus! {

/// An account with its storage.
pub struct ExtendedAccount {
    account: Account,
    storage: WordMap<U256>,
}

impl ExtendedAccount {
    /// The basic fields of the account.
    pub closed spec fn info(&self) -> Account {
        self.account
    }

    /// The slots that were written, with their values.
    pub closed spec fn slots(&self) -> Map<B256, U256> {
        self.storage@
    }

    /// An account without code and without storage.
    pub fn new(nonce: u64, balance: U256) -> (account: Self)
        ensures
            account.info() == (Account { nonce, balance, code_hash: spec_keccak_empty() }),
            account.slots() == Map::<B256, U256>::empty(),
    {
        ExtendedAccount { account: Account { nonce, balance, code_hash: keccak_empty() }, storage: WordMap::new() }
    }

    /// The same account with `value` written to slot `key`.
    pub fn with_storage(self, key: B256, value: U256) -> (account: Self)
        ensures
            account.info() == self.info(),
            account.slots() == self.slots().insert(key, value),
    {
        let mut account = self;
        account.storage.insert(key, value);
        account
    }

    /// The same account with every pair of `entries` written, in order.
    pub fn extend_storage(self, entries: &Vec<(B256, U256)>) -> (account: Self)
        ensures
            account.info() == self.info(),
            account.slots() == spec_extend(self.slots(), entries@),
    {
        let mut account = self;
        let mut i: usize = 0;
        while i < entries.len()
            invariant
                i <= entries@.len(),
                account.info() == self.info(),
                account.slots() == spec_extend(self.slots(), entries@.take(i as int)),
            decreases entries@.len() - i,
        {
            let (key, value) = entries[i];
            account.storage.insert(key, value);
            assert(entries@.take(i + 1).drop_last() =~= entries@.take(i as int));
            i = i + 1;
        }
        assert(entries@.take(i as int) =~= entries@);
        account
    }

    /// The value of slot `key`, if it was written.
    pub fn storage(&self, key: B256) -> (value: Option<U256>)
        ensures
            value == (if self.slots().contains_key(key) {
                Some(self.slots()[key])
            } else {
                None
            }),
    {
        match self.storage.get(key) {
            Some(value) => Some(*value),
            None => None,
        }
    }
}

/// The map `slots` after every pair of `entries` was written, in order.
pub open spec fn spec_extend(slots: Map<B256, U256>, entries: Seq<(B256, U256)>) -> Map<B256, U256>
    decreases entries.len(),
{
    if entries.len() == 0 {
        slots
    } else {
        spec_extend(slots, entries.drop_last()).insert(entries.last().0, entries.last().1)
    }
}

/// What a proof from memory holds: the account as the backend has it. There is
/// no trie behind the backend, hence no witness.
#[derive(Clone, Copy, Debug, PartialEq, Eq, Structural)]
pub struct MemoryProof {
    pub block_number: u64,
    pub address: Address,
    pub account: Option<Account>,
}

/// A state backend in memory.
pub struct MemoryProvider {
    accounts: WordMap<ExtendedAccount>,
    best_block_number: u64,
}

impl MemoryProvider {
    /// The height of the tip.
    pub closed spec fn tip(&self) -> u64 {
        self.best_block_number
    }

    /// Whether the backend holds an account at `address`.
    pub closed spec fn has_account(&self, address: Address) -> bool {
        self.accounts@.contains_key(address.spec_into_word())
    }

    /// The account held at `address`.
    pub closed spec fn account(&self, address: Address) -> ExtendedAccount
        recommends
            self.has_account(address),
    {
        self.accounts@[address.spec_into_word()]
    }

    /// The basic fields of the account at `address`, if the backend holds one.
    pub open spec fn spec_basic_account(&self, address: Address) -> Option<Account> {
        if self.has_account(address) {
            Some(self.account(address).info())
        } else {
            None
        }
    }

    /// The value of slot `key` of the account at `address`, if the backend
    /// holds the account and the slot was written.
    pub open spec fn spec_storage(&self, address: Address, key: B256) -> Option<U256> {
        if self.has_account(address) && self.account(address).slots().contains_key(key) {
            Some(self.account(address).slots()[key])
        } else {
            None
        }
    }

    /// The height of the block that `block_id` names. The backend knows no
    /// hashes; it knows the heights up to its tip, and takes every moving label
    /// but `Earliest` for the tip.
    pub open spec fn spec_block_number_for_id(&self, block_id: BlockId) -> Option<u64> {
        match block_id {
            BlockId::Hash(_) => None,
            BlockId::Number(BlockNumberOrTag::Number(number)) => if number <= self.tip() {
                Some(number)
            } else {
                None
            },
            BlockId::Number(BlockNumberOrTag::Earliest) => Some(0),
            BlockId::Number(_) => Some(self.tip()),
        }
    }

    /// A backend without accounts whose tip is the genesis block.
    pub fn new() -> (provider: Self)
        ensures
            provider.tip() == 0,
            forall|address: Address| !provider.has_account(address),
    {
        MemoryProvider { accounts: WordMap::new(), best_block_number: 0 }
    }

    /// The same backend with its tip at height `number`.
    pub fn with_best_block_number(self, number: u64) -> (provider: Self)
        ensures
            provider.tip() == number,
            forall|address: Address| provider.has_account(address) == self.has_account(address),
            forall|address: Address| provider.account(address) == self.account(address),
    {
        MemoryProvider { accounts: self.accounts, best_block_number: number }
    }

    /// Puts `account` at `address`, replacing what was there.
    pub fn add_account(&mut self, address: Address, account: ExtendedAccount)
        ensures
            final(self).tip() == old(self).tip(),
            final(self).has_account(address),
            final(self).account(address) == account,
            forall|other: Address|
                other != address ==> final(self).has_account(other) == old(self).has_account(other),
            forall|other: Address| other != address ==> final(self).account(other) == old(self).account(other),
    {
        self.accounts.insert(address.into_word(), account);
    }
}

impl StateReader for MemoryProvider {
    type StateError = ();

    type Proof = MemoryProof;

    fn best_block_number(&self) -> (best: Result<u64, ()>)
        ensures
            best == Ok::<u64, ()>(self.tip()),
    {
        Ok(self.best_block_number)
    }

    fn block_number_for_id(&self, block_id: BlockId) -> (number: Result<Option<u64>, ()>)
        ensures
            number == Ok::<Option<u64>, ()>(self.spec_block_number_for_id(block_id)),
    {
        Ok(
            match block_id {
                BlockId::Hash(_) => None,
                BlockId::Number(BlockNumberOrTag::Number(number)) => if number <= self.best_block_number {
                    Some(number)
                } else {
                    None
                },
                BlockId::Number(BlockNumberOrTag::Earliest) => Some(0),
                BlockId::Number(_) => Some(self.best_block_number),
            },
        )
    }

    fn basic_account(&self, block_id: BlockId, address: Address) -> (account: Result<Option<Account>, ()>)
        ensures
            account == Ok::<Option<Account>, ()>(self.spec_basic_account(address)),
    {
        match self.accounts.get(address.into_word()) {
            Some(account) => Ok(Some(account.account)),
            None => Ok(None),
        }
    }

    fn storage(&self, block_id: BlockId, address: Address, key: B256) -> (value: Result<Option<U256>, ()>)
        ensures
            value == Ok::<Option<U256>, ()>(self.spec_storage(address, key)),
    {
        match self.accounts.get(address.into_word()) {
            Some(account) => Ok(account.storage(key)),
            None => Ok(None),
        }
    }

    fn account_proof(&self, block_number: u64, address: Address, keys: &Vec<B256>) -> (proved: Result<
        MemoryProof,
        (),
    >)
        ensures
            proved == Ok::<MemoryProof, ()>(
                MemoryProof { block_number, address, account: self.spec_basic_account(address) },
            ),
    {
        let account = match self.accounts.get(address.into_word()) {
            Some(account) => Some(account.account),
            None => None,
        };
        Ok(MemoryProof { block_number, address, account })
    }
}

impl BlockReader for MemoryProvider {
    type Transaction = ();

    type Receipt = ();

    type ReadError = ();

    /// The backend holds state only, so it has no block to give.
    fn load_block_and_receipts(&self, block_id: BlockId) -> (found: Result<
        Option<(RecoveredBlock<()>, Vec<()>)>,
        (),
    >)
        ensures
            found == Ok::<Option<(RecoveredBlock<()>, Vec<()>)>, ()>(None),
    {
        Ok(None)
    }
}

impl ChainSpecProvider for MemoryProvider {
    type ChainSpec = ();

    fn chain_spec(&self) -> (spec: ()) {
        ()
    }
}

/// Over the backend in memory a storage query never fails, and returns the
/// bytes of the value written to the slot, or zeros if the account does not
/// exist or the slot was never written.
pub proof fn law_memory_storage_at(
    provider: MemoryProvider,
    address: Address,
    index: B256,
    block_id: Option<BlockId>,
    r: Result<B256, EthApiError<()>>,
)
    requires
        storage_at_result(provider, address, index, block_id, r),
    ensures
        r == Ok::<B256, EthApiError<()>>(
            match provider.spec_storage(address, index) {
                Some(value) => value.spec_to_be_bytes(),
                None => B256::spec_zero(),
            },
        ),
{
}

/// An account seeded with exactly one slot reads as that slot's value at its
/// key and as zeros at every other key.
pub proof fn law_memory_seeded_slot(
    provider: MemoryProvider,
    address: Address,
    key: B256,
    value: U256,
    index: B256,
    block_id: Option<BlockId>,
    r: Result<B256, EthApiError<()>>,
)
    requires
        provider.has_account(address),
        provider.account(address).slots() == Map::<B256, U256>::empty().insert(key, value),
        storage_at_result(provider, address, index, block_id, r),
    ensures
        index == key ==> r == Ok::<B256, EthApiError<()>>(value.spec_to_be_bytes()),
        index != key ==> r == Ok::<B256, EthApiError<()>>(B256::spec_zero()),
{
}

/// Over the backend in memory an account query never fails, and returns the
/// account held at the address, or `None` if there is none.
pub proof fn law_memory_get_account(
    provider: MemoryProvider,
    address: Address,
    block_id: BlockId,
    r: Result<Option<Account>, EthApiError<()>>,
)
    requires
        get_account_result(provider, address, block_id, r),
    ensures
        r == Ok::<Option<Account>, EthApiError<()>>(provider.spec_basic_account(address)),
        !provider.has_account(address) ==> r == Ok::<Option<Account>, EthApiError<()>>(None),
{
}

/// Over the backend in memory a proof query about the block at height `number`,
/// at or below the tip, succeeds exactly when the block is at most `window`
/// behind the tip, and is refused as beyond the window otherwise.
pub proof fn law_memory_proof_window(
    provider: MemoryProvider,
    window: u64,
    address: Address,
    keys: Vec<B256>,
    number: u64,
    r: Result<MemoryProof, EthApiError<()>>,
)
    requires
        number <= provider.tip(),
        get_proof_result(
            provider,
            window,
            address,
            keys,
            Some(BlockId::Number(BlockNumberOrTag::Number(number))),
            r,
        ),
    ensures
        provider.tip() - number <= window ==> r == Ok::<MemoryProof, EthApiError<()>>(
            MemoryProof { block_number: number, address, account: provider.spec_basic_account(address) },
        ),
        provider.tip() - number > window ==> r == Err::<MemoryProof, EthApiError<()>>(
            EthApiError::ExceedsMaxProofWindow,
        ),
{
}

} // verus!
