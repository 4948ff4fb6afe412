//! The capabilities a backend offers. Each trait is narrow and stands alone; an
//! operation asks for exactly the ones it needs, so an API built on a backend
//! that lacks one does not compile.
//!
//! The traits promise nothing about what an implementation returns. The
//! operations built on them state which calls they make, with which arguments,
//! and what they do with each possible answer.

use vstd::prelude::*;
use crate::primitives::{
    keccak_empty, same_block, spec_keccak_empty, Address, B256, BlockId, RecoveredBlock, RecoveredTx,
    TransactionMeta, U256,
};

verus! {

/// Reads blocks together with their stored receipts.
pub trait BlockReader {
    /// The payload of a transaction.
    type Transaction;

    /// A stored receipt.
    type Receipt;

    /// Why a read failed.
    type ReadError;

    /// Fetches a block and its receipts in one step. `Ok(None)` means the chain
    /// has no such block.
    fn load_block_and_receipts(&self, block_id: BlockId) -> (found: Result<
        Option<(RecoveredBlock<Self::Transaction>, Vec<Self::Receipt>)>,
        Self::ReadError,
    >);
}

/// What a block reader answers: a failure, no such block, or a block with its
/// receipts.
pub type Found<N> = Result<
    Option<(RecoveredBlock<<N as BlockReader>::Transaction>, Vec<<N as BlockReader>::Receipt>)>,
    <N as BlockReader>::ReadError,
>;

/// Knows the chain's configuration, which decides hardfork-dependent formatting.
pub trait ChainSpecProvider {
    type ChainSpec;

    fn chain_spec(&self) -> (spec: Self::ChainSpec);
}

/// The basic fields of an account.
#[derive(Clone, Copy, Debug, PartialEq, Eq, Structural)]
pub struct Account {
    pub nonce: u64,
    pub balance: U256,
    pub code_hash: B256,
}

impl Account {
    /// The basic fields of an account as storage records it: its code hash is
    /// the recorded one, and the hash of the empty byte string if none is
    /// recorded.
    pub open spec fn spec_from_parts(nonce: u64, balance: U256, bytecode_hash: Option<B256>) -> Account {
        Account {
            nonce,
            balance,
            code_hash: match bytecode_hash {
                Some(hash) => hash,
                None => spec_keccak_empty(),
            },
        }
    }

    /// The basic fields of an account as storage records it.
    pub fn from_parts(nonce: u64, balance: U256, bytecode_hash: Option<B256>) -> (account: Account)
        ensures
            account == Account::spec_from_parts(nonce, balance, bytecode_hash),
    {
        Account {
            nonce,
            balance,
            code_hash: match bytecode_hash {
                Some(hash) => hash,
                None => keccak_empty(),
            },
        }
    }
}

/// Reads account and storage state as of a block.
pub trait StateReader {
    /// Why a read failed.
    type StateError;

    /// A proof of an account and some of its storage slots.
    type Proof;

    /// The height of the newest block the backend holds.
    fn best_block_number(&self) -> (best: Result<u64, Self::StateError>);

    /// The height of the block that `block_id` names, if the chain has it.
    fn block_number_for_id(&self, block_id: BlockId) -> (number: Result<Option<u64>, Self::StateError>);

    /// The account at `address` as of `block_id`; `Ok(None)` if it does not
    /// exist.
    fn basic_account(&self, block_id: BlockId, address: Address) -> (account: Result<
        Option<Account>,
        Self::StateError,
    >);

    /// The value of slot `key` of the account at `address` as of `block_id`;
    /// `Ok(None)` if the slot was never written.
    fn storage(&self, block_id: BlockId, address: Address, key: B256) -> (value: Result<
        Option<U256>,
        Self::StateError,
    >);

    /// A proof of the account at `address` and of its slots `keys`, as of the
    /// block at height `block_number`.
    fn account_proof(&self, block_number: u64, address: Address, keys: &Vec<B256>) -> (proved: Result<
        Self::Proof,
        Self::StateError,
    >);
}

/// Holds pending transactions.
pub trait TransactionPool {
    /// The payload of a pooled transaction once it is part of a block.
    type Consensus;
}

/// Can run blocking or CPU-bound work off the request path.
pub trait SpawnBlocking {
}

/// Can assemble the pending block from the pool.
pub trait LoadPendingBlock {
    type Pool: TransactionPool;
}

/// Can serve requests that load a block. An API has this capability only by
/// way of the capabilities of its backend.
pub trait LoadBlock {
}

/// Can serve requests that load state. An API has this capability only by way
/// of the capabilities of its backend.
pub trait LoadState {
}

/// What a base-layer chain adds to block reading: its receipt shape.
pub trait EthReceipts: BlockReader + ChainSpecProvider {
    /// The receipt object handed to RPC clients.
    type EthRpcReceipt;

    /// Why a receipt could not be built.
    type EthBuildError;

    /// Builds the RPC receipt of one transaction. `receipts` are all receipts of
    /// the block, `receipt` the one of this transaction.
    fn build_eth_receipt(
        chain_spec: &Self::ChainSpec,
        tx: &RecoveredTx<Self::Transaction>,
        meta: TransactionMeta,
        receipt: &Self::Receipt,
        receipts: &Vec<Self::Receipt>,
    ) -> (built: Result<Self::EthRpcReceipt, Self::EthBuildError>);
}

/// The per-block object that computes a transaction's L1 data-availability
/// cost and remembers the last cost it computed.
pub trait L1FeeContext: Sized {
    /// Forgets the remembered cost, so that the next computation starts afresh.
    fn clear_tx_l1_cost(self) -> (cleared: Self);
}

/// What a rollup adds to block reading: the L1 fee context of a block and the
/// rollup's receipt shape.
pub trait OpReceipts: BlockReader + ChainSpecProvider {
    type L1Info: L1FeeContext;

    /// The receipt object handed to RPC clients.
    type RpcReceipt;

    /// Why no fee context could be read from a block.
    type L1Error;

    /// Why a receipt could not be built.
    type BuildError;

    /// Reads the L1 fee context from the body of `block`.
    fn extract_l1_info(&self, block: &RecoveredBlock<Self::Transaction>) -> (info: Result<
        Self::L1Info,
        Self::L1Error,
    >);

    /// Builds the RPC receipt of one transaction. `receipts` are all receipts of
    /// the block, `receipt` the one of this transaction. The fee context is
    /// handed in and handed back.
    fn build_receipt(
        chain_spec: &Self::ChainSpec,
        tx: &RecoveredTx<Self::Transaction>,
        meta: TransactionMeta,
        receipt: &Self::Receipt,
        receipts: &Vec<Self::Receipt>,
        l1_block_info: Self::L1Info,
    ) -> (built: (Result<Self::RpcReceipt, Self::BuildError>, Self::L1Info));
}

/// Two answers of a block reader that say the same: the same failure, or no
/// block, or the same block with the same receipts.
pub open spec fn same_found<T, R, E>(
    a: Result<Option<(RecoveredBlock<T>, Vec<R>)>, E>,
    b: Result<Option<(RecoveredBlock<T>, Vec<R>)>, E>,
) -> bool {
    match (a, b) {
        (Err(x), Err(y)) => x == y,
        (Ok(None), Ok(None)) => true,
        (Ok(Some(p)), Ok(Some(q))) => same_block(p.0, q.0) && p.1@ == q.1@,
        _ => false,
    }
}

/// A loader's result with each list of receipts replaced by the sequence it
/// holds.
pub open spec fn receipts_view<R, E>(r: Result<Option<Vec<R>>, E>) -> Result<Option<Seq<R>>, E> {
    match r {
        Ok(Some(out)) => Ok(Some(out@)),
        Ok(None) => Ok(None),
        Err(e) => Err(e),
    }
}

} // verus!
