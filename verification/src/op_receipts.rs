//! Loading the receipts of a block on a rollup.
//!
//! The loader fetches a block with its stored receipts, reads the block's L1
//! fee context, and builds one RPC receipt per transaction, in block order. The
//! fee context remembers the last cost it computed, so it is cleared before
//! every transaction. The genesis block carries no L1 data: for it, a failed
//! read of the fee context yields an empty list.

use vstd::prelude::*;
use crate::capability::{
    receipts_view, BlockReader, ChainSpecProvider, Found, L1FeeContext, LoadBlock, LoadPendingBlock, OpReceipts,
    SpawnBlocking, TransactionPool,
};
use crate::primitives::{
    is_genesis, is_paired, spec_is_genesis, spec_transaction_meta, transaction_meta, BlockId, RecoveredBlock,
};

verus! {

/// Why loading the receipts of a block failed.
#[derive(Clone, Debug, PartialEq, Eq)]
pub enum OpEthApiError<P, X, B> {
    /// The backend could not be read.
    Provider(P),
    /// No L1 fee context could be read from a block other than genesis.
    L1BlockInfo(X),
    /// The receipt of some transaction could not be built.
    ReceiptBuild(B),
    /// The block was read with a number of stored receipts other than its
    /// number of transactions.
    ReceiptCountMismatch { transactions: usize, receipts: usize },
}

/// What one transaction's turn leaves behind: the receipt or the failure, and
/// the fee context as the builder handed it back.
pub type Step<N> = (
    Result<<N as OpReceipts>::RpcReceipt, <N as OpReceipts>::BuildError>,
    <N as OpReceipts>::L1Info,
);

/// The fee context as it stands when the turn of transaction `i` begins.
pub open spec fn context_before<N: OpReceipts>(initial: N::L1Info, trace: Seq<Step<N>>, i: int) -> N::L1Info {
    if i == 0 {
        initial
    } else {
        trace[i - 1].1
    }
}

/// The turn of transaction `i`, with the cleared context named: clearing
/// `before` gave `cleared`, and the builder was then called with the
/// transaction at position `i`, the metadata of that position, the receipt at
/// position `i`, all receipts of the block and `cleared`, and answered `step`.
pub open spec fn receipt_step_on<N: OpReceipts>(
    chain_spec: N::ChainSpec,
    block: RecoveredBlock<N::Transaction>,
    receipts: Vec<N::Receipt>,
    i: int,
    before: N::L1Info,
    cleared: N::L1Info,
    step: Step<N>,
) -> bool {
    &&& call_ensures(<N::L1Info as L1FeeContext>::clear_tx_l1_cost, (before,), cleared)
    &&& call_ensures(
        N::build_receipt,
        (
            &chain_spec,
            &block.transactions@[i],
            spec_transaction_meta(block.header, block.transactions@[i].tx_hash, i),
            &receipts@[i],
            &receipts,
            cleared,
        ),
        step,
    )
}

/// The turn of transaction `i`: the fee context `before` was cleared, and the
/// builder, called on the cleared context, answered `step`.
pub open spec fn receipt_step<N: OpReceipts>(
    chain_spec: N::ChainSpec,
    block: RecoveredBlock<N::Transaction>,
    receipts: Vec<N::Receipt>,
    i: int,
    before: N::L1Info,
    step: Step<N>,
) -> bool {
    exists|cleared: N::L1Info| #[trigger]
        receipt_step_on::<N>(chain_spec, block, receipts, i, before, cleared, step)
}

/// `trace` records the turns of the first `trace.len()` transactions of the
/// block, taken in order, each starting from the fee context the one before
/// left, and none but the last one failing. The block has a stored receipt for
/// each of its transactions.
pub open spec fn is_build_trace<N: OpReceipts>(
    chain_spec: N::ChainSpec,
    block: RecoveredBlock<N::Transaction>,
    receipts: Vec<N::Receipt>,
    initial: N::L1Info,
    trace: Seq<Step<N>>,
) -> bool {
    &&& trace.len() <= block.transactions@.len()
    &&& forall|i: int|
        0 <= i < trace.len() ==> #[trigger] receipt_step::<N>(
            chain_spec,
            block,
            receipts,
            i,
            context_before::<N>(initial, trace, i),
            trace[i],
        )
    &&& forall|i: int| 0 <= i < trace.len() - 1 ==> (#[trigger] trace[i]).0 is Ok
}

/// What building the receipts of a block of `n` transactions returns, given
/// the turns taken: the receipts of all transactions in order if every turn
/// succeeded, and the failure of the last turn taken otherwise.
pub open spec fn is_trace_outcome<N: OpReceipts>(
    trace: Seq<Step<N>>,
    n: int,
    r: Result<Vec<N::RpcReceipt>, N::BuildError>,
) -> bool {
    match r {
        Ok(out) => {
            &&& trace.len() == n
            &&& out@.len() == n
            &&& forall|i: int| 0 <= i < n ==> (#[trigger] trace[i]).0 == Ok::<N::RpcReceipt, N::BuildError>(out@[i])
        },
        Err(e) => {
            &&& trace.len() >= 1
            &&& trace.last().0 == Err::<N::RpcReceipt, N::BuildError>(e)
        },
    }
}

/// `r` is what building the receipts of `block` returns when the fee context
/// read from it is `initial`.
pub open spec fn receipts_built<N: OpReceipts>(
    chain_spec: N::ChainSpec,
    block: RecoveredBlock<N::Transaction>,
    receipts: Vec<N::Receipt>,
    initial: N::L1Info,
    r: Result<Vec<N::RpcReceipt>, N::BuildError>,
) -> bool {
    exists|trace: Seq<Step<N>>|
        {
            &&& #[trigger] is_build_trace::<N>(chain_spec, block, receipts, initial, trace)
            &&& is_trace_outcome::<N>(trace, block.transactions@.len() as int, r)
        }
}

/// Builds one receipt per transaction of `block`, in block order, pairing the
/// transaction at each position with the receipt at the same position. Before
/// each transaction the fee context is cleared. The first failure ends the
/// work and is returned alone. The block comes with one stored receipt per
/// transaction.
pub fn build_block_receipts<N: OpReceipts>(
    chain_spec: &N::ChainSpec,
    block: &RecoveredBlock<N::Transaction>,
    receipts: &Vec<N::Receipt>,
    l1_block_info: N::L1Info,
) -> (r: Result<Vec<N::RpcReceipt>, N::BuildError>)
    requires
        is_paired(*block, *receipts),
    ensures
        receipts_built::<N>(*chain_spec, *block, *receipts, l1_block_info, r),
        r matches Ok(out) ==> out@.len() == block.transactions@.len(),
{
    let n = block.transactions.len();
    let mut out: Vec<N::RpcReceipt> = Vec::new();
    let mut l1 = l1_block_info;
    let ghost mut trace: Seq<Step<N>> = Seq::empty();
    let mut i: usize = 0;
    while i < n
        invariant
            i <= n,
            n == block.transactions@.len(),
            n == receipts@.len(),
            out@.len() == i,
            trace.len() == i,
            l1 == context_before::<N>(l1_block_info, trace, i as int),
            forall|j: int|
                0 <= j < i ==> #[trigger] receipt_step::<N>(
                    *chain_spec,
                    *block,
                    *receipts,
                    j,
                    context_before::<N>(l1_block_info, trace, j),
                    trace[j],
                ),
            forall|j: int| 0 <= j < i ==> (#[trigger] trace[j]).0 == Ok::<N::RpcReceipt, N::BuildError>(out@[j]),
        decreases n - i,
    {
        let tx = &block.transactions[i];
        let meta = transaction_meta(&block.header, tx.tx_hash, i as u64);
        let ghost before = l1;
        let cleared = l1.clear_tx_l1_cost();
        let (built, after) = N::build_receipt(chain_spec, tx, meta, &receipts[i], receipts, cleared);
        let ghost earlier = trace;
        proof {
            trace = trace.push((built, after));
            assert forall|j: int| 0 <= j <= i implies #[trigger] receipt_step::<N>(
                *chain_spec,
                *block,
                *receipts,
                j,
                context_before::<N>(l1_block_info, trace, j),
                trace[j],
            ) by {
                if j < i {
                    assert(context_before::<N>(l1_block_info, trace, j) == context_before::<N>(
                        l1_block_info,
                        earlier,
                        j,
                    ));
                } else {
                    assert(receipt_step_on::<N>(*chain_spec, *block, *receipts, j, before, cleared, trace[j]));
                }
            }
            assert(is_build_trace::<N>(*chain_spec, *block, *receipts, l1_block_info, trace));
        }
        match built {
            Ok(receipt) => {
                out.push(receipt);
                l1 = after;
            },
            Err(e) => {
                return Err(e);
            },
        }
        i = i + 1;
    }
    proof {
        assert(is_build_trace::<N>(*chain_spec, *block, *receipts, l1_block_info, trace));
    }
    Ok(out)
}

/// What loading the receipts of a block returns when no L1 fee context could be
/// read from it: an empty list for the genesis block, the failure for any
/// other.
pub open spec fn spec_without_l1_info<R, P, X, B>(block_number: u64, err: X) -> Result<
    Option<Seq<R>>,
    OpEthApiError<P, X, B>,
> {
    if spec_is_genesis(block_number) {
        Ok(Some(Seq::empty()))
    } else {
        Err(OpEthApiError::L1BlockInfo(err))
    }
}

/// Decides what a block without a readable L1 fee context yields. Genesis has
/// no L1 data by construction, so for it the answer is an empty list of
/// receipts; for every other block the failure stands.
pub fn without_l1_info<R, P, X, B>(block_number: u64, err: X) -> (r: Result<
    Option<Vec<R>>,
    OpEthApiError<P, X, B>,
>)
    ensures
        receipts_view(r) == spec_without_l1_info::<R, P, X, B>(block_number, err),
{
    if is_genesis(block_number) {
        Ok(Some(Vec::new()))
    } else {
        Err(OpEthApiError::L1BlockInfo(err))
    }
}

/// The result type of the receipts loader over backend `N`.
pub type BlockReceipts<N> = Result<
    Option<Vec<<N as OpReceipts>::RpcReceipt>>,
    OpEthApiError<<N as BlockReader>::ReadError, <N as OpReceipts>::L1Error, <N as OpReceipts>::BuildError>,
>;

/// `r` is what the loader returns for a block whose L1 fee context is `initial`:
/// the receipts built under `chain_spec`, or the first failure to build one.
pub open spec fn receipts_with_l1_info<N: OpReceipts>(
    chain_spec: N::ChainSpec,
    block: RecoveredBlock<N::Transaction>,
    receipts: Vec<N::Receipt>,
    initial: N::L1Info,
    r: BlockReceipts<N>,
) -> bool {
    match r {
        Ok(Some(out)) => receipts_built::<N>(chain_spec, block, receipts, initial, Ok(out)),
        Err(OpEthApiError::ReceiptBuild(e)) => receipts_built::<N>(chain_spec, block, receipts, initial, Err(e)),
        _ => false,
    }
}

/// `r` is what the loader over `node` returns for a block, given what reading
/// the block's fee context gave. If the read failed, the genesis rule decides.
/// If it succeeded, the chain's configuration was asked of `node` and the
/// receipts were built under it.
pub open spec fn receipts_after_extraction<N: OpReceipts>(
    node: N,
    block: RecoveredBlock<N::Transaction>,
    receipts: Vec<N::Receipt>,
    extraction: Result<N::L1Info, N::L1Error>,
    r: BlockReceipts<N>,
) -> bool {
    match extraction {
        Err(err) => receipts_view(r) == spec_without_l1_info::<
            N::RpcReceipt,
            N::ReadError,
            N::L1Error,
            N::BuildError,
        >(block.header.number, err),
        Ok(initial) => exists|chain_spec: N::ChainSpec|
            {
                &&& #[trigger] call_ensures(N::chain_spec, (&node,), chain_spec)
                &&& receipts_with_l1_info::<N>(chain_spec, block, receipts, initial, r)
            },
    }
}

/// `r` is what the loader over `node` returns for a block that was found: the
/// fee context was read from the block, and [`receipts_after_extraction`]
/// says the rest.
pub open spec fn receipts_of_block<N: OpReceipts>(
    node: N,
    block: RecoveredBlock<N::Transaction>,
    receipts: Vec<N::Receipt>,
    r: BlockReceipts<N>,
) -> bool {
    exists|extraction: Result<N::L1Info, N::L1Error>|
        {
            &&& #[trigger] call_ensures(N::extract_l1_info, (&node, &block), extraction)
            &&& receipts_after_extraction::<N>(node, block, receipts, extraction, r)
        }
}

/// `r` is what the loader over `node` returns, given what reading the block
/// gave. A failed read is passed on and a missing block is `Ok(None)`. A block
/// that was found with as many receipts as transactions yields what
/// [`receipts_of_block`] says; one found with any other number of receipts is
/// refused with both numbers, and nothing is asked of it or built from it.
pub open spec fn receipts_after_load<N: OpReceipts>(node: N, found: Found<N>, r: BlockReceipts<N>) -> bool {
    match found {
        Err(err) => r == Err::<Option<Vec<N::RpcReceipt>>, _>(
            OpEthApiError::<N::ReadError, N::L1Error, N::BuildError>::Provider(err),
        ),
        Ok(None) => r == Ok::<_, OpEthApiError<N::ReadError, N::L1Error, N::BuildError>>(
            None::<Vec<N::RpcReceipt>>,
        ),
        Ok(Some(pair)) => if is_paired(pair.0, pair.1) {
            receipts_of_block::<N>(node, pair.0, pair.1, r)
        } else {
            r == Err::<Option<Vec<N::RpcReceipt>>, _>(
                OpEthApiError::<N::ReadError, N::L1Error, N::BuildError>::ReceiptCountMismatch {
                    transactions: pair.0.transactions@.len() as usize,
                    receipts: pair.1@.len() as usize,
                },
            )
        },
    }
}

/// `r` is what the loader over `node` returns for `block_id`: the block and its
/// receipts were fetched in one read, and [`receipts_after_load`] says the
/// rest.
pub open spec fn block_receipts_result<N: OpReceipts>(node: N, block_id: BlockId, r: BlockReceipts<N>) -> bool {
    exists|found: Found<N>|
        {
            &&& #[trigger] call_ensures(N::load_block_and_receipts, (&node, block_id), found)
            &&& receipts_after_load::<N>(node, found, r)
        }
}

/// The RPC API of a rollup node over the backend `N`.
pub struct OpEthApi<N> {
    inner: N,
}

impl<N> OpEthApi<N> {
    /// The backend this API serves from.
    pub closed spec fn node(&self) -> N {
        self.inner
    }

    /// An API over the backend `inner`.
    pub fn new(inner: N) -> (api: Self)
        ensures
            api.node() == inner,
    {
        OpEthApi { inner }
    }
}

/// A rollup API can load blocks once its backend reads blocks, can assemble the
/// pending block from a pool whose transactions are the chain's, and can run
/// blocking work.
impl<N> LoadBlock for OpEthApi<N> where
    N: BlockReader + LoadPendingBlock + SpawnBlocking,
    <N as LoadPendingBlock>::Pool: TransactionPool<Consensus = <N as BlockReader>::Transaction>,
 {
}

impl<N> OpEthApi<N> where Self: LoadBlock, N: OpReceipts {
    /// Turns a block that was found, and its stored receipts, into RPC
    /// receipts.
    pub fn receipts_of_loaded_block(
        &self,
        block: &RecoveredBlock<N::Transaction>,
        receipts: &Vec<N::Receipt>,
    ) -> (r: BlockReceipts<N>)
        requires
            is_paired(*block, *receipts),
        ensures
            receipts_of_block::<N>(self.node(), *block, *receipts, r),
    {
        let l1_block_info = match self.inner.extract_l1_info(block) {
            Ok(l1_block_info) => l1_block_info,
            Err(err) => {
                // Genesis has no L1 info, so for it there is nothing to report.
                return without_l1_info(block.header.number, err);
            },
        };
        let chain_spec = self.inner.chain_spec();
        match build_block_receipts::<N>(&chain_spec, block, receipts, l1_block_info) {
            Ok(out) => Ok(Some(out)),
            Err(e) => Err(OpEthApiError::ReceiptBuild(e)),
        }
    }

    /// The receipts of every transaction of the block that `block_id` names, in
    /// block order, or `None` if the chain has no such block.
    pub fn block_receipts(&self, block_id: BlockId) -> (r: BlockReceipts<N>)
        ensures
            block_receipts_result::<N>(self.node(), block_id, r),
    {
        match self.inner.load_block_and_receipts(block_id) {
            Err(err) => Err(OpEthApiError::Provider(err)),
            Ok(None) => Ok(None),
            Ok(Some((block, receipts))) => {
                // A block and its receipts are stored together. If they are
                // out of step nothing is built.
                if block.transactions.len() != receipts.len() {
                    return Err(
                        OpEthApiError::ReceiptCountMismatch {
                            transactions: block.transactions.len(),
                            receipts: receipts.len(),
                        },
                    );
                }
                self.receipts_of_loaded_block(&block, &receipts)
            },
        }
    }
}

} // verus!
