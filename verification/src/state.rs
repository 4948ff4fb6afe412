//! Reading accounts, storage slots and proofs.
//!
//! An account or a slot that does not exist is an answer, not a failure. A
//! proof is only given for blocks within a configured distance of the chain's
//! tip, and a request beyond it is refused rather than moved into range.

use vstd::prelude::*;
use crate::capability::{Account, BlockReader, ChainSpecProvider, LoadState, StateReader, TransactionPool};
use crate::primitives::{Address, B256, BlockId, U256};

verus! {

/// Why a state query failed.
#[derive(Clone, Debug, PartialEq, Eq)]
pub enum EthApiError<S> {
    /// The backend could not be read.
    State(S),
    /// The chain has no block that the identifier names.
    HeaderNotFound(BlockId),
    /// The block lies further back than proofs are given for.
    ExceedsMaxProofWindow,
}

/// The block a query is about: the one it names, or the latest.
pub open spec fn spec_block_or_latest(block_id: Option<BlockId>) -> BlockId {
    match block_id {
        Some(id) => id,
        None => BlockId::spec_latest(),
    }
}

/// The block a query is about: the one it names, or the latest.
pub fn block_or_latest(block_id: Option<BlockId>) -> (id: BlockId)
    ensures
        id == spec_block_or_latest(block_id),
{
    match block_id {
        Some(id) => id,
        None => BlockId::latest(),
    }
}

/// The 32 bytes reported for a slot: the big-endian bytes of its value, and
/// zeros for a slot that was never written.
pub open spec fn spec_storage_word(found: Option<U256>) -> B256 {
    match found {
        Some(value) => value.spec_to_be_bytes(),
        None => B256::spec_zero(),
    }
}

/// The 32 bytes reported for a slot, given what the backend holds for it.
pub fn storage_word(found: Option<U256>) -> (word: B256)
    ensures
        word == spec_storage_word(found),
{
    match found {
        Some(value) => value.to_be_bytes(),
        None => B256::zero(),
    }
}

/// Whether the block at height `number` lies more than `window` blocks behind
/// the tip at height `best`. A block at or ahead of the tip never does.
pub open spec fn spec_exceeds_proof_window(best: u64, number: u64, window: u64) -> bool {
    best - number > window
}

/// Whether the block at height `number` lies more than `window` blocks behind
/// the tip at height `best`.
pub fn exceeds_proof_window(best: u64, number: u64, window: u64) -> (r: bool)
    ensures
        r == spec_exceeds_proof_window(best, number, window),
{
    best.saturating_sub(number) > window
}

/// The height a proof is computed at, given the tip, what the identifier
/// resolved to, and the window: the resolved height if there is one within the
/// window.
pub open spec fn spec_proof_block<S>(best: u64, resolved: Option<u64>, block_id: BlockId, window: u64) -> Result<
    u64,
    EthApiError<S>,
> {
    match resolved {
        None => Err(EthApiError::HeaderNotFound(block_id)),
        Some(number) => if spec_exceeds_proof_window(best, number, window) {
            Err(EthApiError::ExceedsMaxProofWindow)
        } else {
            Ok(number)
        },
    }
}

/// Decides at which height a proof is computed, or why none is.
pub fn proof_block<S>(best: u64, resolved: Option<u64>, block_id: BlockId, window: u64) -> (r: Result<
    u64,
    EthApiError<S>,
>)
    ensures
        r == spec_proof_block::<S>(best, resolved, block_id, window),
{
    match resolved {
        None => Err(EthApiError::HeaderNotFound(block_id)),
        Some(number) => if exceeds_proof_window(best, number, window) {
            Err(EthApiError::ExceedsMaxProofWindow)
        } else {
            Ok(number)
        },
    }
}

/// `r` is what a storage query returns: the backend was asked for the slot as
/// of the named block, or the latest; a failed read is passed on, and any other
/// answer is reported as 32 bytes.
pub open spec fn storage_at_result<P: StateReader>(
    provider: P,
    address: Address,
    index: B256,
    block_id: Option<BlockId>,
    r: Result<B256, EthApiError<P::StateError>>,
) -> bool {
    exists|found: Result<Option<U256>, P::StateError>|
        {
            &&& #[trigger] call_ensures(P::storage, (&provider, spec_block_or_latest(block_id), address, index), found)
            &&& r == match found {
                Ok(value) => Ok::<B256, EthApiError<P::StateError>>(spec_storage_word(value)),
                Err(err) => Err(EthApiError::State(err)),
            }
        }
}

/// `r` is what an account query returns: the backend was asked for the account
/// as of the named block; a failed read is passed on, and any other answer is
/// returned as it came, `None` for an account that does not exist.
pub open spec fn get_account_result<P: StateReader>(
    provider: P,
    address: Address,
    block_id: BlockId,
    r: Result<Option<Account>, EthApiError<P::StateError>>,
) -> bool {
    exists|found: Result<Option<Account>, P::StateError>|
        {
            &&& #[trigger] call_ensures(P::basic_account, (&provider, block_id, address), found)
            &&& r == match found {
                Ok(account) => Ok::<Option<Account>, EthApiError<P::StateError>>(account),
                Err(err) => Err(EthApiError::State(err)),
            }
        }
}

/// `r` is what a proof query returns when the tip is at `best` and the
/// identifier resolved to `resolved`: the refusal of [`spec_proof_block`], or
/// what the backend answered when asked for the proof at that height.
pub open spec fn proof_at_result<P: StateReader>(
    provider: P,
    window: u64,
    address: Address,
    keys: Vec<B256>,
    block_id: BlockId,
    best: u64,
    resolved: Option<u64>,
    r: Result<P::Proof, EthApiError<P::StateError>>,
) -> bool {
    match spec_proof_block::<P::StateError>(best, resolved, block_id, window) {
        Err(refusal) => r == Err::<P::Proof, EthApiError<P::StateError>>(refusal),
        Ok(number) => exists|proved: Result<P::Proof, P::StateError>|
            {
                &&& #[trigger] call_ensures(P::account_proof, (&provider, number, address, &keys), proved)
                &&& r == match proved {
                    Ok(p) => Ok::<P::Proof, EthApiError<P::StateError>>(p),
                    Err(err) => Err(EthApiError::State(err)),
                }
            },
    }
}

/// `r` is what a proof query returns: the backend was asked for the height of
/// the tip, then for the height of the named block, or the latest; a failed
/// read is passed on, and otherwise [`proof_at_result`] decides.
pub open spec fn get_proof_result<P: StateReader>(
    provider: P,
    window: u64,
    address: Address,
    keys: Vec<B256>,
    block_id: Option<BlockId>,
    r: Result<P::Proof, EthApiError<P::StateError>>,
) -> bool {
    exists|best: Result<u64, P::StateError>|
        {
            &&& #[trigger] call_ensures(P::best_block_number, (&provider,), best)
            &&& match best {
                Err(err) => r == Err::<P::Proof, EthApiError<P::StateError>>(EthApiError::State(err)),
                Ok(best) => exists|resolved: Result<Option<u64>, P::StateError>|
                    {
                        &&& #[trigger] call_ensures(
                            P::block_number_for_id,
                            (&provider, spec_block_or_latest(block_id)),
                            resolved,
                        )
                        &&& match resolved {
                            Err(err) => r == Err::<P::Proof, EthApiError<P::StateError>>(EthApiError::State(err)),
                            Ok(resolved) => proof_at_result(
                                provider,
                                window,
                                address,
                                keys,
                                spec_block_or_latest(block_id),
                                best,
                                resolved,
                                r,
                            ),
                        }
                    },
            }
        }
}

/// The RPC API of a base-layer node: a storage backend, a transaction pool, and
/// the distance from the tip within which proofs are given.
pub struct EthApi<Provider, Pool> {
    provider: Provider,
    pool: Pool,
    eth_proof_window: u64,
}

impl<Provider, Pool> EthApi<Provider, Pool> {
    /// The storage backend.
    pub closed spec fn spec_provider(&self) -> Provider {
        self.provider
    }

    /// The transaction pool.
    pub closed spec fn spec_pool(&self) -> Pool {
        self.pool
    }

    /// The configured proof window.
    pub closed spec fn spec_max_proof_window(&self) -> u64 {
        self.eth_proof_window
    }

    /// An API over `provider` and `pool` that gives proofs for blocks at most
    /// `eth_proof_window` behind the tip.
    pub fn new(provider: Provider, pool: Pool, eth_proof_window: u64) -> (api: Self)
        ensures
            api.spec_provider() == provider,
            api.spec_pool() == pool,
            api.spec_max_proof_window() == eth_proof_window,
    {
        EthApi { provider, pool, eth_proof_window }
    }

    /// The storage backend.
    pub fn provider(&self) -> (provider: &Provider)
        ensures
            *provider == self.spec_provider(),
    {
        &self.provider
    }

    /// The transaction pool.
    pub fn pool(&self) -> (pool: &Pool)
        ensures
            *pool == self.spec_pool(),
    {
        &self.pool
    }
}

/// A base-layer API can load state once its backend reads blocks and state
/// and knows the chain's configuration, and it has a transaction pool.
impl<Provider, Pool> LoadState for EthApi<Provider, Pool> where
    Provider: BlockReader + StateReader + ChainSpecProvider,
    Pool: TransactionPool,
 {
}

impl<Provider, Pool> EthApi<Provider, Pool> where Self: LoadState, Provider: StateReader {
    /// The greatest distance from the tip at which a proof is still given.
    pub fn max_proof_window(&self) -> (window: u64)
        ensures
            window == self.spec_max_proof_window(),
    {
        self.eth_proof_window
    }

    /// The 32 bytes of slot `index` of the account at `address`, as of the named
    /// block or the latest. A slot that was never written reads as zeros.
    pub fn storage_at(&self, address: Address, index: B256, block_id: Option<BlockId>) -> (r: Result<
        B256,
        EthApiError<Provider::StateError>,
    >)
        ensures
            storage_at_result(self.spec_provider(), address, index, block_id, r),
    {
        match self.provider.storage(block_or_latest(block_id), address, index) {
            Ok(value) => Ok(storage_word(value)),
            Err(err) => Err(EthApiError::State(err)),
        }
    }

    /// The account at `address` as of the named block, or `None` if it does not
    /// exist.
    pub fn get_account(&self, address: Address, block_id: BlockId) -> (r: Result<
        Option<Account>,
        EthApiError<Provider::StateError>,
    >)
        ensures
            get_account_result(self.spec_provider(), address, block_id, r),
    {
        match self.provider.basic_account(block_id, address) {
            Ok(account) => Ok(account),
            Err(err) => Err(EthApiError::State(err)),
        }
    }

    /// A proof of the account at `address` and its slots `keys`, as of the named
    /// block or the latest, if that block lies within the proof window.
    pub fn get_proof(&self, address: Address, keys: &Vec<B256>, block_id: Option<BlockId>) -> (r: Result<
        Provider::Proof,
        EthApiError<Provider::StateError>,
    >)
        ensures
            get_proof_result(self.spec_provider(), self.spec_max_proof_window(), address, *keys, block_id, r),
    {
        let best = match self.provider.best_block_number() {
            Ok(best) => best,
            Err(err) => {
                return Err(EthApiError::State(err));
            },
        };
        let block_id = block_or_latest(block_id);
        let resolved = match self.provider.block_number_for_id(block_id) {
            Ok(resolved) => resolved,
            Err(err) => {
                return Err(EthApiError::State(err));
            },
        };
        // The distance to the block must not exceed the configured window.
        let number = match proof_block(best, resolved, block_id, self.max_proof_window()) {
            Ok(number) => number,
            Err(refusal) => {
                return Err(refusal);
            },
        };
        match self.provider.account_proof(number, address, keys) {
            Ok(proved) => Ok(proved),
            Err(err) => Err(EthApiError::State(err)),
        }
    }
}

/// A slot that was never written reads as 32 zero bytes: whenever the backend
/// answers a storage query with "no value", the query succeeds with the zero
/// word.
pub proof fn law_unwritten_slot_reads_zero<P: StateReader>(
    provider: P,
    address: Address,
    index: B256,
    block_id: Option<BlockId>,
    r: Result<B256, EthApiError<P::StateError>>,
)
    requires
        storage_at_result(provider, address, index, block_id, r),
        forall|found: Result<Option<U256>, P::StateError>| #[trigger]
            call_ensures(P::storage, (&provider, spec_block_or_latest(block_id), address, index), found) ==> found
                == Ok::<Option<U256>, P::StateError>(None),
    ensures
        r == Ok::<B256, EthApiError<P::StateError>>(B256::spec_zero()),
        B256::spec_zero().as_nat() == 0,
{
}

/// A slot that was written reads as the big-endian bytes of its value: whenever
/// the backend answers a storage query with `value`, the query succeeds with a
/// word that stands for the same number.
pub proof fn law_written_slot_reads_value<P: StateReader>(
    provider: P,
    address: Address,
    index: B256,
    block_id: Option<BlockId>,
    value: U256,
    r: Result<B256, EthApiError<P::StateError>>,
)
    requires
        storage_at_result(provider, address, index, block_id, r),
        forall|found: Result<Option<U256>, P::StateError>| #[trigger]
            call_ensures(P::storage, (&provider, spec_block_or_latest(block_id), address, index), found) ==> found
                == Ok::<Option<U256>, P::StateError>(Some(value)),
    ensures
        r == Ok::<B256, EthApiError<P::StateError>>(value.spec_to_be_bytes()),
        value.spec_to_be_bytes().as_nat() == value.as_nat(),
{
}

/// An account that does not exist is reported as absent, not as an account of
/// zeros: whenever the backend answers an account query with "no account", the
/// query succeeds with `None`.
pub proof fn law_missing_account_is_none<P: StateReader>(
    provider: P,
    address: Address,
    block_id: BlockId,
    r: Result<Option<Account>, EthApiError<P::StateError>>,
)
    requires
        get_account_result(provider, address, block_id, r),
        forall|found: Result<Option<Account>, P::StateError>| #[trigger]
            call_ensures(P::basic_account, (&provider, block_id, address), found) ==> found == Ok::<
                Option<Account>,
                P::StateError,
            >(None),
    ensures
        r == Ok::<Option<Account>, EthApiError<P::StateError>>(None),
{
}

/// The proof window is a sharp bound. A block exactly `window` behind the tip
/// is accepted at its own height, a block one further back is refused, and a
/// block at or ahead of the tip is always accepted.
pub proof fn law_proof_window_is_sharp<S>(best: u64, number: u64, block_id: BlockId, window: u64)
    ensures
        best - number <= window ==> spec_proof_block::<S>(best, Some(number), block_id, window) == Ok::<
            u64,
            EthApiError<S>,
        >(number),
        best - number > window ==> spec_proof_block::<S>(best, Some(number), block_id, window) == Err::<
            u64,
            EthApiError<S>,
        >(EthApiError::ExceedsMaxProofWindow),
        number >= best ==> spec_proof_block::<S>(best, Some(number), block_id, window) is Ok,
{
}

/// A proof query about a block beyond the window is refused whatever the
/// backend would have answered for the proof itself.
pub proof fn law_proof_beyond_window_is_refused<P: StateReader>(
    provider: P,
    window: u64,
    address: Address,
    keys: Vec<B256>,
    block_id: BlockId,
    best: u64,
    number: u64,
    r: Result<P::Proof, EthApiError<P::StateError>>,
)
    requires
        proof_at_result(provider, window, address, keys, block_id, best, Some(number), r),
        best - number > window,
    ensures
        r == Err::<P::Proof, EthApiError<P::StateError>>(EthApiError::ExceedsMaxProofWindow),
{
}

} // verus!
