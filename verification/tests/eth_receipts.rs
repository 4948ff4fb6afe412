//! The receipts loader of a base-layer chain, run over a small backend.

use eth_rpc_helpers::capability::{
    Account, BlockReader, ChainSpecProvider, EthReceipts, StateReader, TransactionPool,
};
use eth_rpc_helpers::eth_receipts::{build_eth_block_receipts, EthBlockError};
use eth_rpc_helpers::primitives::{
    Address, BlockId, BlockNumberOrTag, RecoveredBlock, RecoveredTx, SealedHeader, TransactionMeta, B256, U256,
};
use eth_rpc_helpers::state::EthApi;

#[derive(Clone, Debug, PartialEq, Eq)]
struct Receipt {
    transaction_hash: B256,
    transaction_index: u64,
    block_number: u64,
    effective_gas_price: u64,
    gas_used: u64,
    blob_gas_price: u64,
}

struct Chain {
    blocks: Vec<(RecoveredBlock<u64>, Vec<u64>)>,
    broken: bool,
}

struct Pool;

impl TransactionPool for Pool {
    type Consensus = u64;
}

impl BlockReader for Chain {
    type Transaction = u64;
    type Receipt = u64;
    type ReadError = u8;

    fn load_block_and_receipts(&self, block_id: BlockId) -> Result<Option<(RecoveredBlock<u64>, Vec<u64>)>, u8> {
        if self.broken {
            return Err(5);
        }
        Ok(match block_id {
            BlockId::Hash(h) => self.blocks.iter().find(|(b, _)| b.header.hash == h).cloned(),
            BlockId::Number(BlockNumberOrTag::Number(n)) => {
                self.blocks.iter().find(|(b, _)| b.header.number == n).cloned()
            }
            BlockId::Number(BlockNumberOrTag::Earliest) => self.blocks.first().cloned(),
            BlockId::Number(_) => self.blocks.last().cloned(),
        })
    }
}

impl ChainSpecProvider for Chain {
    type ChainSpec = u64;

    fn chain_spec(&self) -> u64 {
        3
    }
}

impl StateReader for Chain {
    type StateError = ();
    type Proof = ();

    fn best_block_number(&self) -> Result<u64, ()> {
        Ok(self.blocks.len() as u64)
    }

    fn block_number_for_id(&self, _block_id: BlockId) -> Result<Option<u64>, ()> {
        Ok(None)
    }

    fn basic_account(&self, _block_id: BlockId, _address: Address) -> Result<Option<Account>, ()> {
        Ok(None)
    }

    fn storage(&self, _block_id: BlockId, _address: Address, _key: B256) -> Result<Option<U256>, ()> {
        Ok(None)
    }

    fn account_proof(&self, _block_number: u64, _address: Address, _keys: &Vec<B256>) -> Result<(), ()> {
        Ok(())
    }
}

// The transaction payload is its priority fee; the stored receipt is the
// cumulative gas used.
impl EthReceipts for Chain {
    type EthRpcReceipt = Receipt;
    type EthBuildError = u64;

    fn build_eth_receipt(
        chain_spec: &u64,
        tx: &RecoveredTx<u64>,
        meta: TransactionMeta,
        receipt: &u64,
        receipts: &Vec<u64>,
    ) -> Result<Receipt, u64> {
        if tx.tx == u64::MAX {
            panic!("the builder was called after a failure");
        }
        if tx.tx == 0 {
            return Err(meta.index);
        }
        let before = if meta.index == 0 { 0 } else { receipts[meta.index as usize - 1] };
        Ok(Receipt {
            transaction_hash: meta.tx_hash,
            transaction_index: meta.index,
            block_number: meta.block_number,
            effective_gas_price: meta.base_fee.unwrap_or(0) + tx.tx,
            gas_used: receipt - before,
            blob_gas_price: meta.excess_blob_gas.unwrap_or(0) / chain_spec,
        })
    }
}

fn hash(n: u128) -> B256 {
    B256 { hi: 1, lo: n }
}

fn tx(seed: u128, tip: u64) -> RecoveredTx<u64> {
    RecoveredTx { tx_hash: hash(seed), signer: Address { hi: 0, lo: seed }, tx: tip }
}

fn block(number: u64, tips: &[u64]) -> RecoveredBlock<u64> {
    RecoveredBlock {
        header: SealedHeader {
            number,
            hash: hash(500 + number as u128),
            base_fee_per_gas: Some(100),
            excess_blob_gas: Some(9),
            timestamp: 12 * number,
        },
        transactions: tips.iter().enumerate().map(|(i, t)| tx(10 * number as u128 + i as u128, *t)).collect(),
    }
}

fn chain() -> Chain {
    Chain {
        blocks: vec![
            (block(0, &[]), vec![]),
            (block(1, &[1, 2, 3]), vec![21_000, 63_000, 84_000]),
            (block(2, &[4, 0, u64::MAX]), vec![21_000, 42_000, 63_000]),
        ],
        broken: false,
    }
}

#[test]
fn base_block_receipts_returns_one_receipt_per_transaction() {
    let api = EthApi::new(chain(), Pool, 32);
    let receipts = api.block_receipts(BlockId::number(1)).unwrap().unwrap();
    assert_eq!(
        receipts,
        vec![
            Receipt {
                transaction_hash: hash(10),
                transaction_index: 0,
                block_number: 1,
                effective_gas_price: 101,
                gas_used: 21_000,
                blob_gas_price: 3,
            },
            Receipt {
                transaction_hash: hash(11),
                transaction_index: 1,
                block_number: 1,
                effective_gas_price: 102,
                gas_used: 42_000,
                blob_gas_price: 3,
            },
            Receipt {
                transaction_hash: hash(12),
                transaction_index: 2,
                block_number: 1,
                effective_gas_price: 103,
                gas_used: 21_000,
                blob_gas_price: 3,
            },
        ]
    );
}

#[test]
fn base_genesis_block_needs_no_fee_context() {
    let api = EthApi::new(chain(), Pool, 32);
    assert_eq!(api.block_receipts(BlockId::number(0)), Ok(Some(vec![])));
    assert_eq!(api.block_receipts(BlockId::Number(BlockNumberOrTag::Earliest)), Ok(Some(vec![])));
}

#[test]
fn base_missing_block_is_none() {
    let api = EthApi::new(chain(), Pool, 32);
    assert_eq!(api.block_receipts(BlockId::number(3)), Ok(None));
    assert_eq!(api.block_receipts(BlockId::hash(hash(1))), Ok(None));
}

#[test]
fn base_block_is_found_by_hash() {
    let api = EthApi::new(chain(), Pool, 32);
    let by_hash = api.block_receipts(BlockId::hash(hash(501)));
    assert_eq!(by_hash, api.block_receipts(BlockId::number(1)));
    assert_eq!(by_hash.unwrap().unwrap().len(), 3);
}

#[test]
fn base_read_failure_is_passed_on() {
    let mut c = chain();
    c.broken = true;
    let api = EthApi::new(c, Pool, 32);
    assert_eq!(api.block_receipts(BlockId::latest()), Err(EthBlockError::Provider(5)));
}

#[test]
fn base_build_failure_fails_the_whole_call_at_once() {
    let api = EthApi::new(chain(), Pool, 32);
    // The builder panics if the third transaction is handed to it.
    assert_eq!(api.block_receipts(BlockId::latest()), Err(EthBlockError::ReceiptBuild(1)));
}

#[test]
fn base_block_receipts_is_idempotent() {
    let api = EthApi::new(chain(), Pool, 32);
    for n in 0..4 {
        assert_eq!(api.block_receipts(BlockId::number(n)), api.block_receipts(BlockId::number(n)));
    }
}

#[test]
fn base_empty_block_yields_empty_list() {
    assert_eq!(build_eth_block_receipts::<Chain>(&3, &block(4, &[]), &vec![]), Ok(vec![]));
}

#[test]
fn base_block_out_of_step_with_its_receipts_is_refused() {
    // The builder panics if any of these transactions is handed to it.
    let fewer = Chain { blocks: vec![(block(1, &[u64::MAX, u64::MAX, u64::MAX]), vec![21_000, 42_000])], broken: false };
    assert_eq!(
        EthApi::new(fewer, Pool, 32).block_receipts(BlockId::number(1)),
        Err(EthBlockError::ReceiptCountMismatch { transactions: 3, receipts: 2 })
    );
    let more = Chain { blocks: vec![(block(1, &[u64::MAX]), vec![21_000, 42_000])], broken: false };
    assert_eq!(
        EthApi::new(more, Pool, 32).block_receipts(BlockId::latest()),
        Err(EthBlockError::ReceiptCountMismatch { transactions: 1, receipts: 2 })
    );
    let none = Chain { blocks: vec![(block(0, &[]), vec![7])], broken: false };
    assert_eq!(
        EthApi::new(none, Pool, 32).block_receipts(BlockId::number(0)),
        Err(EthBlockError::ReceiptCountMismatch { transactions: 0, receipts: 1 })
    );
}
