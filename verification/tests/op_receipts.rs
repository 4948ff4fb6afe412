//! The receipts loader, run over a small rollup backend kept in memory.

use eth_rpc_helpers::capability::{
    BlockReader, ChainSpecProvider, L1FeeContext, LoadPendingBlock, OpReceipts, SpawnBlocking, TransactionPool,
};
use eth_rpc_helpers::primitives::{
    is_genesis, transaction_meta, Address, BlockId, BlockNumberOrTag, RecoveredBlock, RecoveredTx, SealedHeader,
    TransactionMeta, B256,
};
use eth_rpc_helpers::op_receipts::{build_block_receipts, without_l1_info, OpEthApi, OpEthApiError};

/// A transaction: its calldata length decides its L1 cost. The first
/// transaction of a rollup block carries the L1 base fee.
#[derive(Clone, Debug, PartialEq, Eq)]
struct Tx {
    l1_base_fee: Option<u64>,
    data_len: u64,
}

#[derive(Clone, Debug, PartialEq, Eq)]
struct StoredReceipt {
    success: bool,
    cumulative_gas_used: u64,
}

#[derive(Clone, Debug, PartialEq, Eq)]
struct RpcReceipt {
    transaction_hash: B256,
    transaction_index: u64,
    block_hash: B256,
    block_number: u64,
    status: bool,
    cumulative_gas_used: u64,
    gas_used: u64,
    l1_fee: u64,
    fee_scalar: u64,
    /// How often the fee context had been cleared when this receipt was built.
    clears: u64,
}

/// The fee context: a base fee per byte and the cost computed last.
#[derive(Clone, Debug, PartialEq, Eq)]
struct FeeContext {
    l1_base_fee: u64,
    tx_l1_cost: Option<u64>,
    clears: u64,
}

impl FeeContext {
    fn calculate_tx_l1_cost(&mut self, data_len: u64) -> u64 {
        if let Some(cost) = self.tx_l1_cost {
            return cost;
        }
        let cost = self.l1_base_fee * data_len;
        self.tx_l1_cost = Some(cost);
        cost
    }
}

impl L1FeeContext for FeeContext {
    fn clear_tx_l1_cost(mut self) -> Self {
        self.tx_l1_cost = None;
        self.clears += 1;
        self
    }
}

#[derive(Clone, Debug, PartialEq, Eq)]
struct ChainSpec {
    fee_scalar: u64,
}

/// A timestamp that must never reach the extraction of the fee context.
const UNREADABLE: u64 = 0;

/// A calldata length that the builder refuses.
const UNBUILDABLE: u64 = u64::MAX;

/// A calldata length that must never reach the builder.
const FORBIDDEN: u64 = u64::MAX - 1;

struct Node {
    blocks: Vec<(RecoveredBlock<Tx>, Vec<StoredReceipt>)>,
    broken: bool,
}

struct Pool;

impl TransactionPool for Pool {
    type Consensus = Tx;
}

impl LoadPendingBlock for Node {
    type Pool = Pool;
}

impl SpawnBlocking for Node {}

impl BlockReader for Node {
    type Transaction = Tx;
    type Receipt = StoredReceipt;
    type ReadError = String;

    fn load_block_and_receipts(
        &self,
        block_id: BlockId,
    ) -> Result<Option<(RecoveredBlock<Tx>, Vec<StoredReceipt>)>, String> {
        if self.broken {
            return Err("disk on fire".to_string());
        }
        let found = match block_id {
            BlockId::Hash(hash) => self.blocks.iter().find(|(b, _)| b.header.hash == hash),
            BlockId::Number(BlockNumberOrTag::Number(n)) => self.blocks.iter().find(|(b, _)| b.header.number == n),
            BlockId::Number(BlockNumberOrTag::Earliest) => self.blocks.first(),
            BlockId::Number(_) => self.blocks.last(),
        };
        Ok(found.cloned())
    }
}

impl ChainSpecProvider for Node {
    type ChainSpec = ChainSpec;

    fn chain_spec(&self) -> ChainSpec {
        ChainSpec { fee_scalar: 7 }
    }
}

// A non-zero signer of the first transaction stands for a cost that is already
// cached when the fee context comes out of the block.
impl OpReceipts for Node {
    type L1Info = FeeContext;
    type RpcReceipt = RpcReceipt;
    type L1Error = String;
    type BuildError = String;

    fn extract_l1_info(&self, block: &RecoveredBlock<Tx>) -> Result<FeeContext, String> {
        if block.header.timestamp == UNREADABLE {
            panic!("the fee context was read from a block that is out of step with its receipts");
        }
        let first = block.transactions.first().ok_or_else(|| "no L1 info transaction".to_string())?;
        let l1_base_fee = first.tx.l1_base_fee.ok_or_else(|| "first transaction carries no L1 info".to_string())?;
        let stale = first.signer.lo as u64;
        Ok(FeeContext { l1_base_fee, tx_l1_cost: if stale == 0 { None } else { Some(stale) }, clears: 0 })
    }

    fn build_receipt(
        chain_spec: &ChainSpec,
        tx: &RecoveredTx<Tx>,
        meta: TransactionMeta,
        receipt: &StoredReceipt,
        receipts: &Vec<StoredReceipt>,
        mut l1_block_info: FeeContext,
    ) -> (Result<RpcReceipt, String>, FeeContext) {
        if tx.tx.data_len == FORBIDDEN {
            panic!("the builder was called after a failure");
        }
        if tx.tx.data_len == UNBUILDABLE {
            return (Err(format!("cannot build receipt {}", meta.index)), l1_block_info);
        }
        let before = if meta.index == 0 { 0 } else { receipts[meta.index as usize - 1].cumulative_gas_used };
        let l1_fee = l1_block_info.calculate_tx_l1_cost(tx.tx.data_len);
        let built = RpcReceipt {
            transaction_hash: meta.tx_hash,
            transaction_index: meta.index,
            block_hash: meta.block_hash,
            block_number: meta.block_number,
            status: receipt.success,
            cumulative_gas_used: receipt.cumulative_gas_used,
            gas_used: receipt.cumulative_gas_used - before,
            l1_fee,
            fee_scalar: chain_spec.fee_scalar,
            clears: l1_block_info.clears,
        };
        (Ok(built), l1_block_info)
    }
}

fn hash(n: u128) -> B256 {
    B256 { hi: 0xabcd, lo: n }
}

fn signer(n: u128) -> Address {
    Address { hi: 0, lo: n }
}

fn tx(hash_seed: u128, l1_base_fee: Option<u64>, data_len: u64) -> RecoveredTx<Tx> {
    RecoveredTx { tx_hash: hash(hash_seed), signer: signer(0), tx: Tx { l1_base_fee, data_len } }
}

fn header(number: u64) -> SealedHeader {
    SealedHeader {
        number,
        hash: hash(1000 + number as u128),
        base_fee_per_gas: Some(15),
        excess_blob_gas: None,
        timestamp: 1_700_000_000 + 2 * number,
    }
}

fn stored(cumulative: &[u64]) -> Vec<StoredReceipt> {
    cumulative.iter().map(|c| StoredReceipt { success: true, cumulative_gas_used: *c }).collect()
}

/// Block 0 without L1 info, block 1 with three transactions, block 2 without
/// L1 info, block 3 whose second transaction cannot be built.
fn node() -> Node {
    let genesis = RecoveredBlock { header: header(0), transactions: vec![tx(1, None, 4)] };
    let one = RecoveredBlock {
        header: header(1),
        transactions: vec![tx(10, Some(3), 0), tx(11, None, 100), tx(12, None, 250)],
    };
    let two = RecoveredBlock { header: header(2), transactions: vec![tx(20, None, 5), tx(21, None, 6)] };
    let three = RecoveredBlock {
        header: header(3),
        transactions: vec![tx(30, Some(2), 1), tx(31, None, UNBUILDABLE), tx(32, None, FORBIDDEN)],
    };
    Node {
        blocks: vec![
            (genesis, stored(&[21_000])),
            (one, stored(&[50_000, 71_000, 171_000])),
            (two, stored(&[21_000, 42_000])),
            (three, stored(&[21_000, 42_000, 63_000])),
        ],
        broken: false,
    }
}

#[test]
fn block_receipts_returns_one_receipt_per_transaction() {
    let api = OpEthApi::new(node());
    let receipts = api.block_receipts(BlockId::number(1)).unwrap().unwrap();
    assert_eq!(receipts.len(), 3);
    for (i, r) in receipts.iter().enumerate() {
        assert_eq!(r.transaction_index, i as u64);
        assert_eq!(r.transaction_hash, hash(10 + i as u128));
        assert_eq!(r.block_hash, hash(1001));
        assert_eq!(r.block_number, 1);
        assert_eq!(r.fee_scalar, 7);
        assert!(r.status);
    }
    assert_eq!(receipts[0].cumulative_gas_used, 50_000);
    assert_eq!(receipts[1].cumulative_gas_used, 71_000);
    assert_eq!(receipts[2].cumulative_gas_used, 171_000);
    assert_eq!(receipts[0].gas_used, 50_000);
    assert_eq!(receipts[1].gas_used, 21_000);
    assert_eq!(receipts[2].gas_used, 100_000);
}

#[test]
fn block_is_found_by_hash_and_by_tag() {
    let api = OpEthApi::new(node());
    let by_number = api.block_receipts(BlockId::number(1)).unwrap();
    let by_hash = api.block_receipts(BlockId::hash(hash(1001))).unwrap();
    assert_eq!(by_number, by_hash);
    let earliest = api.block_receipts(BlockId::Number(BlockNumberOrTag::Earliest)).unwrap();
    assert_eq!(earliest, Some(vec![]));
    let latest = api.block_receipts(BlockId::latest());
    assert_eq!(latest, Err(OpEthApiError::ReceiptBuild("cannot build receipt 1".to_string())));
}

#[test]
fn genesis_without_l1_info_yields_empty_list() {
    let api = OpEthApi::new(node());
    let receipts = api.block_receipts(BlockId::number(0));
    assert_eq!(receipts, Ok(Some(vec![])));
}

#[test]
fn genesis_with_l1_info_yields_its_receipts() {
    let mut n = node();
    n.blocks[0].0.transactions[0].tx.l1_base_fee = Some(1);
    let api = OpEthApi::new(n);
    let receipts = api.block_receipts(BlockId::number(0)).unwrap().unwrap();
    assert_eq!(receipts.len(), 1);
    assert_eq!(receipts[0].l1_fee, 4);
}

#[test]
fn later_block_without_l1_info_is_a_hard_error() {
    let api = OpEthApi::new(node());
    let receipts = api.block_receipts(BlockId::number(2));
    assert_eq!(receipts, Err(OpEthApiError::L1BlockInfo("first transaction carries no L1 info".to_string())));
}

#[test]
fn empty_later_block_without_l1_info_is_a_hard_error() {
    let mut n = node();
    n.blocks[2].0.transactions.clear();
    n.blocks[2].1.clear();
    let api = OpEthApi::new(n);
    let receipts = api.block_receipts(BlockId::number(2));
    assert_eq!(receipts, Err(OpEthApiError::L1BlockInfo("no L1 info transaction".to_string())));
}

#[test]
fn missing_block_is_none() {
    let api = OpEthApi::new(node());
    assert_eq!(api.block_receipts(BlockId::number(99)), Ok(None));
    assert_eq!(api.block_receipts(BlockId::hash(hash(5))), Ok(None));
}

#[test]
fn read_failure_is_passed_on() {
    let mut n = node();
    n.broken = true;
    let api = OpEthApi::new(n);
    assert_eq!(api.block_receipts(BlockId::number(1)), Err(OpEthApiError::Provider("disk on fire".to_string())));
}

#[test]
fn build_failure_fails_the_whole_call_at_once() {
    let api = OpEthApi::new(node());
    // The builder panics if the third transaction is handed to it.
    let receipts = api.block_receipts(BlockId::number(3));
    assert_eq!(receipts, Err(OpEthApiError::ReceiptBuild("cannot build receipt 1".to_string())));
}

#[test]
fn block_receipts_is_idempotent() {
    let api = OpEthApi::new(node());
    for n in 0..5 {
        let first = api.block_receipts(BlockId::number(n));
        let second = api.block_receipts(BlockId::number(n));
        assert_eq!(first, second);
    }
}

#[test]
fn l1_cost_of_one_transaction_does_not_leak_into_the_next() {
    let api = OpEthApi::new(node());
    let receipts = api.block_receipts(BlockId::number(1)).unwrap().unwrap();
    // Base fee 3 per byte; calldata of 0, 100 and 250 bytes.
    assert_eq!(receipts[0].l1_fee, 0);
    assert_eq!(receipts[1].l1_fee, 300);
    assert_eq!(receipts[2].l1_fee, 750);
    assert_ne!(receipts[1].l1_fee, receipts[2].l1_fee);
}

#[test]
fn cache_is_cleared_before_the_first_transaction_too() {
    let mut n = node();
    // The fee context comes out of the extraction with a cost already cached.
    n.blocks[1].0.transactions[0].signer = signer(999);
    let api = OpEthApi::new(n);
    let receipts = api.block_receipts(BlockId::number(1)).unwrap().unwrap();
    assert_eq!(receipts[0].l1_fee, 0);
    assert_eq!(receipts[1].l1_fee, 300);
}

#[test]
fn fee_context_is_cleared_once_per_transaction() {
    let n = node();
    let (block, receipts) = n.blocks[1].clone();
    let ctx = FeeContext { l1_base_fee: 3, tx_l1_cost: Some(5), clears: 0 };
    // Without clearing, every transaction would be given the cached cost.
    let mut uncleared = ctx.clone();
    assert_eq!(uncleared.calculate_tx_l1_cost(100), 5);
    let built = build_block_receipts::<Node>(&ChainSpec { fee_scalar: 1 }, &block, &receipts, ctx).unwrap();
    let fees: Vec<u64> = built.iter().map(|r| r.l1_fee).collect();
    assert_eq!(fees, vec![0, 300, 750]);
    let clears: Vec<u64> = built.iter().map(|r| r.clears).collect();
    assert_eq!(clears, vec![1, 2, 3]);
}

#[test]
fn transactions_are_paired_with_receipts_by_position() {
    let n = node();
    let (block, mut receipts) = n.blocks[1].clone();
    receipts[0].success = false;
    let ctx = FeeContext { l1_base_fee: 3, tx_l1_cost: None, clears: 0 };
    let built = build_block_receipts::<Node>(&ChainSpec { fee_scalar: 1 }, &block, &receipts, ctx).unwrap();
    assert_eq!(built.iter().map(|r| r.status).collect::<Vec<_>>(), vec![false, true, true]);
    assert_eq!(built.iter().map(|r| r.transaction_hash).collect::<Vec<_>>(), vec![hash(10), hash(11), hash(12)]);
}

/// A node whose only block, at height `number`, has the given transactions and
/// receipts. Neither the extraction nor the builder may be reached.
fn out_of_step(number: u64, transactions: usize, receipts: usize) -> Node {
    let mut header = header(number);
    header.timestamp = UNREADABLE;
    let transactions = (0..transactions).map(|i| tx(i as u128, Some(1), FORBIDDEN)).collect();
    let receipts = stored(&vec![21_000; receipts]);
    Node { blocks: vec![(RecoveredBlock { header, transactions }, receipts)], broken: false }
}

#[test]
fn block_with_fewer_receipts_than_transactions_is_refused() {
    let api = OpEthApi::new(out_of_step(5, 3, 2));
    assert_eq!(
        api.block_receipts(BlockId::number(5)),
        Err(OpEthApiError::ReceiptCountMismatch { transactions: 3, receipts: 2 })
    );
}

#[test]
fn block_with_more_receipts_than_transactions_is_refused() {
    let api = OpEthApi::new(out_of_step(5, 1, 4));
    assert_eq!(
        api.block_receipts(BlockId::latest()),
        Err(OpEthApiError::ReceiptCountMismatch { transactions: 1, receipts: 4 })
    );
    let api = OpEthApi::new(out_of_step(5, 0, 1));
    assert_eq!(
        api.block_receipts(BlockId::latest()),
        Err(OpEthApiError::ReceiptCountMismatch { transactions: 0, receipts: 1 })
    );
}

#[test]
fn genesis_block_out_of_step_is_refused_too() {
    let api = OpEthApi::new(out_of_step(0, 2, 0));
    assert_eq!(
        api.block_receipts(BlockId::number(0)),
        Err(OpEthApiError::ReceiptCountMismatch { transactions: 2, receipts: 0 })
    );
}

#[test]
fn empty_block_with_fee_context_yields_empty_list() {
    let block = RecoveredBlock { header: header(8), transactions: Vec::<RecoveredTx<Tx>>::new() };
    let ctx = FeeContext { l1_base_fee: 3, tx_l1_cost: None, clears: 0 };
    let built = build_block_receipts::<Node>(&ChainSpec { fee_scalar: 1 }, &block, &vec![], ctx);
    assert_eq!(built, Ok(vec![]));
}

#[test]
fn transaction_meta_takes_block_constants_hash_and_index() {
    let h = SealedHeader {
        number: 42,
        hash: hash(7),
        base_fee_per_gas: Some(1_000_000_007),
        excess_blob_gas: Some(131_072),
        timestamp: 1_710_338_135,
    };
    let meta = transaction_meta(&h, hash(9), 5);
    assert_eq!(
        meta,
        TransactionMeta {
            tx_hash: hash(9),
            index: 5,
            block_hash: hash(7),
            block_number: 42,
            base_fee: Some(1_000_000_007),
            excess_blob_gas: Some(131_072),
            timestamp: 1_710_338_135,
        }
    );
}

#[test]
fn only_block_zero_is_genesis() {
    assert!(is_genesis(0));
    assert!(!is_genesis(1));
    assert!(!is_genesis(u64::MAX));
}

#[test]
fn without_l1_info_applies_the_genesis_rule() {
    let at_genesis: Result<Option<Vec<u8>>, OpEthApiError<(), &str, ()>> = without_l1_info(0, "no info");
    assert_eq!(at_genesis, Ok(Some(vec![])));
    let later: Result<Option<Vec<u8>>, OpEthApiError<(), &str, ()>> = without_l1_info(1, "no info");
    assert_eq!(later, Err(OpEthApiError::L1BlockInfo("no info")));
}
