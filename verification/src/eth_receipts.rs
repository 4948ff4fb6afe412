//! Loading the receipts of a block on a base-layer chain.
//!
//! The loader fetches a block with its stored receipts and builds one RPC
//! receipt per transaction, in block order. There is no L1 fee context here:
//! that is a rollup's concern.

use vstd::prelude::*;
use crate::capability::{
    receipts_view, same_found, BlockReader, ChainSpecProvider, EthReceipts, Found, LoadBlock, StateReader,
    TransactionPool,
};
use crate::primitives::{
    is_paired, same_block, spec_transaction_meta, transaction_meta, BlockId, RecoveredBlock, RecoveredTx,
    TransactionMeta,
};
use crate::state::EthApi;

verus! {

/// Why loading the receipts of a block failed.
#[derive(Debug, PartialEq, Eq)]
pub enum EthBlockError<P, B> {
    /// The backend could not be read.
    Provider(P),
    /// The receipt of some transaction could not be built.
    ReceiptBuild(B),
    /// The block was read with a number of stored receipts other than its
    /// number of transactions.
    ReceiptCountMismatch { transactions: usize, receipts: usize },
}

/// What the builder answered for one transaction.
pub type EthStep<N> = Result<<N as EthReceipts>::EthRpcReceipt, <N as EthReceipts>::EthBuildError>;

/// The result type of the receipts loader over backend `N`.
pub type EthBlockReceipts<N> = Result<
    Option<Vec<<N as EthReceipts>::EthRpcReceipt>>,
    EthBlockError<<N as BlockReader>::ReadError, <N as EthReceipts>::EthBuildError>,
>;

/// `answer` is what the builder gave when called with the transaction at
/// position `i`, the metadata of that position, the receipt at position `i` and
/// all receipts of the block.
pub open spec fn is_eth_answer_for<N: EthReceipts>(
    chain_spec: N::ChainSpec,
    block: RecoveredBlock<N::Transaction>,
    receipts: Vec<N::Receipt>,
    i: int,
    answer: EthStep<N>,
) -> bool {
    call_ensures(
        N::build_eth_receipt,
        (
            &chain_spec,
            &block.transactions@[i],
            spec_transaction_meta(block.header, block.transactions@[i].tx_hash, i),
            &receipts@[i],
            &receipts,
        ),
        answer,
    )
}

/// `trace` holds the builder's answers for the first `trace.len()` transactions
/// of the block, in order, none but the last being a failure.
pub open spec fn is_eth_build_trace<N: EthReceipts>(
    chain_spec: N::ChainSpec,
    block: RecoveredBlock<N::Transaction>,
    receipts: Vec<N::Receipt>,
    trace: Seq<EthStep<N>>,
) -> bool {
    &&& trace.len() <= block.transactions@.len()
    &&& forall|i: int|
        0 <= i < trace.len() ==> is_eth_answer_for::<N>(chain_spec, block, receipts, i, #[trigger] trace[i])
    &&& forall|i: int| 0 <= i < trace.len() - 1 ==> (#[trigger] trace[i]) is Ok
}

/// What building the receipts of a block returns, given the builder's answers:
/// the receipts of all `n` transactions in order if it never failed, and
/// its last answer, the failure, otherwise.
pub open spec fn is_eth_trace_outcome<N: EthReceipts>(
    trace: Seq<EthStep<N>>,
    n: int,
    r: Result<Vec<N::EthRpcReceipt>, N::EthBuildError>,
) -> bool {
    match r {
        Ok(out) => {
            &&& trace.len() == n
            &&& out@.len() == n
            &&& forall|i: int|
                0 <= i < n ==> (#[trigger] trace[i]) == Ok::<N::EthRpcReceipt, N::EthBuildError>(out@[i])
        },
        Err(e) => {
            &&& trace.len() >= 1
            &&& trace.last() == Err::<N::EthRpcReceipt, N::EthBuildError>(e)
        },
    }
}

/// `r` is what building the receipts of `block` returns: the receipts of all
/// transactions in order if the builder never failed, and its first
/// failure otherwise, after which it was not called again.
pub open spec fn eth_receipts_built<N: EthReceipts>(
    chain_spec: N::ChainSpec,
    block: RecoveredBlock<N::Transaction>,
    receipts: Vec<N::Receipt>,
    r: Result<Vec<N::EthRpcReceipt>, N::EthBuildError>,
) -> bool {
    exists|trace: Seq<EthStep<N>>|
        {
            &&& #[trigger] is_eth_build_trace::<N>(chain_spec, block, receipts, trace)
            &&& is_eth_trace_outcome::<N>(trace, block.transactions@.len() as int, r)
        }
}

/// Builds one receipt per transaction of `block`, in block order, pairing the
/// transaction at each position with the receipt at the same position. The
/// first failure ends the work and is returned alone. The block comes with one
/// stored receipt per transaction.
pub fn build_eth_block_receipts<N: EthReceipts>(
    chain_spec: &N::ChainSpec,
    block: &RecoveredBlock<N::Transaction>,
    receipts: &Vec<N::Receipt>,
) -> (r: Result<Vec<N::EthRpcReceipt>, N::EthBuildError>)
    requires
        is_paired(*block, *receipts),
    ensures
        eth_receipts_built::<N>(*chain_spec, *block, *receipts, r),
        r matches Ok(out) ==> out@.len() == block.transactions@.len(),
{
    let n = block.transactions.len();
    let mut out: Vec<N::EthRpcReceipt> = Vec::new();
    let ghost mut trace: Seq<EthStep<N>> = Seq::empty();
    let mut i: usize = 0;
    while i < n
        invariant
            i <= n,
            n == block.transactions@.len(),
            n == receipts@.len(),
            out@.len() == i,
            trace.len() == i,
            forall|j: int|
                0 <= j < i ==> is_eth_answer_for::<N>(*chain_spec, *block, *receipts, j, #[trigger] trace[j]),
            forall|j: int|
                0 <= j < i ==> (#[trigger] trace[j]) == Ok::<N::EthRpcReceipt, N::EthBuildError>(out@[j]),
        decreases n - i,
    {
        let tx = &block.transactions[i];
        let meta = transaction_meta(&block.header, tx.tx_hash, i as u64);
        let built = N::build_eth_receipt(chain_spec, tx, meta, &receipts[i], receipts);
        proof {
            trace = trace.push(built);
        }
        match built {
            Ok(receipt) => {
                out.push(receipt);
            },
            Err(e) => {
                proof {
                    assert(is_eth_build_trace::<N>(*chain_spec, *block, *receipts, trace));
                }
                return Err(e);
            },
        }
        i = i + 1;
    }
    proof {
        assert(is_eth_build_trace::<N>(*chain_spec, *block, *receipts, trace));
    }
    Ok(out)
}

/// `r` is what the loader returns for a block whose receipts were built under
/// `chain_spec`: the receipts, or the first failure to build one.
pub open spec fn eth_receipts_under<N: EthReceipts>(
    chain_spec: N::ChainSpec,
    block: RecoveredBlock<N::Transaction>,
    receipts: Vec<N::Receipt>,
    r: EthBlockReceipts<N>,
) -> bool {
    match r {
        Ok(Some(out)) => eth_receipts_built::<N>(chain_spec, block, receipts, Ok(out)),
        Err(EthBlockError::ReceiptBuild(e)) => eth_receipts_built::<N>(chain_spec, block, receipts, Err(e)),
        _ => false,
    }
}

/// `r` is what the loader over `provider` returns for a block that was found:
/// the chain's configuration was asked of `provider`, and the receipts were
/// built under it.
pub open spec fn eth_receipts_of_block<N: EthReceipts>(
    provider: N,
    block: RecoveredBlock<N::Transaction>,
    receipts: Vec<N::Receipt>,
    r: EthBlockReceipts<N>,
) -> bool {
    exists|chain_spec: N::ChainSpec|
        {
            &&& #[trigger] call_ensures(N::chain_spec, (&provider,), chain_spec)
            &&& eth_receipts_under::<N>(chain_spec, block, receipts, r)
        }
}

/// `r` is what the loader over `provider` returns, given what reading the block
/// gave. A failed read is passed on and a missing block is `Ok(None)`. A block
/// that was found with as many receipts as transactions yields what
/// [`eth_receipts_of_block`] says; one found with any other number of receipts
/// is refused with both numbers, and nothing is built from it.
pub open spec fn eth_receipts_after_load<N: EthReceipts>(
    provider: N,
    found: Found<N>,
    r: EthBlockReceipts<N>,
) -> bool {
    match found {
        Err(err) => r == Err::<Option<Vec<N::EthRpcReceipt>>, _>(
            EthBlockError::<N::ReadError, N::EthBuildError>::Provider(err),
        ),
        Ok(None) => r == Ok::<_, EthBlockError<N::ReadError, N::EthBuildError>>(None::<Vec<N::EthRpcReceipt>>),
        Ok(Some(pair)) => if is_paired(pair.0, pair.1) {
            eth_receipts_of_block::<N>(provider, pair.0, pair.1, r)
        } else {
            r == Err::<Option<Vec<N::EthRpcReceipt>>, _>(
                EthBlockError::<N::ReadError, N::EthBuildError>::ReceiptCountMismatch {
                    transactions: pair.0.transactions@.len() as usize,
                    receipts: pair.1@.len() as usize,
                },
            )
        },
    }
}

/// `r` is what the loader over `provider` returns for `block_id`: the block and
/// its receipts were fetched in one read, and [`eth_receipts_after_load`] says
/// the rest.
pub open spec fn eth_block_receipts_result<N: EthReceipts>(
    provider: N,
    block_id: BlockId,
    r: EthBlockReceipts<N>,
) -> bool {
    exists|found: Found<N>|
        {
            &&& #[trigger] call_ensures(N::load_block_and_receipts, (&provider, block_id), found)
            &&& eth_receipts_after_load::<N>(provider, found, r)
        }
}

/// A base-layer API can load blocks once its backend reads blocks and state,
/// and it has a transaction pool.
impl<Provider, Pool> LoadBlock for EthApi<Provider, Pool> where
    Provider: BlockReader + StateReader,
    Pool: TransactionPool,
 {
}

impl<Provider, Pool> EthApi<Provider, Pool> where Self: LoadBlock, Provider: EthReceipts {
    /// Turns a block that was found, and its stored receipts, into RPC
    /// receipts.
    pub fn receipts_of_loaded_block(
        &self,
        block: &RecoveredBlock<Provider::Transaction>,
        receipts: &Vec<Provider::Receipt>,
    ) -> (r: EthBlockReceipts<Provider>)
        requires
            is_paired(*block, *receipts),
        ensures
            eth_receipts_of_block::<Provider>(self.spec_provider(), *block, *receipts, r),
    {
        let chain_spec = self.provider().chain_spec();
        match build_eth_block_receipts::<Provider>(&chain_spec, block, receipts) {
            Ok(out) => Ok(Some(out)),
            Err(e) => Err(EthBlockError::ReceiptBuild(e)),
        }
    }

    /// The receipts of every transaction of the block that `block_id` names, in
    /// block order, or `None` if the chain has no such block.
    pub fn block_receipts(&self, block_id: BlockId) -> (r: EthBlockReceipts<Provider>)
        ensures
            eth_block_receipts_result::<Provider>(self.spec_provider(), block_id, r),
    {
        match self.provider().load_block_and_receipts(block_id) {
            Err(err) => Err(EthBlockError::Provider(err)),
            Ok(None) => Ok(None),
            Ok(Some((block, receipts))) => {
                // A block and its receipts are stored together. If they are
                // out of step nothing is built.
                if block.transactions.len() != receipts.len() {
                    return Err(
                        EthBlockError::ReceiptCountMismatch {
                            transactions: block.transactions.len(),
                            receipts: receipts.len(),
                        },
                    );
                }
                self.receipts_of_loaded_block(&block, &receipts)
            },
        }
    }
}

/// One receipt per transaction, position for position. When a block has as
/// many stored receipts as transactions and its receipts were built, there are
/// as many RPC receipts as transactions, and the one at each position is what
/// the builder answered for the transaction, the metadata and the stored
/// receipt of that position.
pub proof fn law_one_eth_receipt_per_transaction<N: EthReceipts>(
    chain_spec: N::ChainSpec,
    block: RecoveredBlock<N::Transaction>,
    receipts: Vec<N::Receipt>,
    out: Vec<N::EthRpcReceipt>,
)
    requires
        is_paired(block, receipts),
        eth_receipts_built::<N>(chain_spec, block, receipts, Ok(out)),
    ensures
        out@.len() == block.transactions@.len(),
        forall|i: int|
            0 <= i < out@.len() ==> #[trigger] is_eth_answer_for::<N>(
                chain_spec,
                block,
                receipts,
                i,
                Ok::<N::EthRpcReceipt, N::EthBuildError>(out@[i]),
            ),
{
    let trace = choose|trace: Seq<EthStep<N>>|
        {
            &&& #[trigger] is_eth_build_trace::<N>(chain_spec, block, receipts, trace)
            &&& is_eth_trace_outcome::<N>(trace, block.transactions@.len() as int, Ok(out))
        };
    assert forall|i: int| 0 <= i < out@.len() implies #[trigger] is_eth_answer_for::<N>(
        chain_spec,
        block,
        receipts,
        i,
        Ok::<N::EthRpcReceipt, N::EthBuildError>(out@[i]),
    ) by {
        assert(is_eth_answer_for::<N>(chain_spec, block, receipts, i, trace[i]));
    }
}

/// A block that is read with a number of stored receipts other than its number
/// of transactions is refused: the loader never answers with a list for it,
/// be it shortened or empty, and reports both numbers.
pub proof fn law_unpaired_eth_block_is_refused<N: EthReceipts>(
    provider: N,
    block_id: BlockId,
    r: EthBlockReceipts<N>,
)
    requires
        eth_block_receipts_result::<N>(provider, block_id, r),
        forall|found: Found<N>| #[trigger]
            call_ensures(N::load_block_and_receipts, (&provider, block_id), found) ==> (found matches Ok(
                Some(pair),
            ) && !is_paired(pair.0, pair.1)),
    ensures
        r matches Err(EthBlockError::ReceiptCountMismatch { transactions, receipts }) && transactions != receipts,
{
    let found = choose|found: Found<N>|
        {
            &&& #[trigger] call_ensures(N::load_block_and_receipts, (&provider, block_id), found)
            &&& eth_receipts_after_load::<N>(provider, found, r)
        };
    if let Ok(Some(pair)) = found {
        assert(pair.0.transactions@.len() == pair.0.transactions.len());
        assert(pair.1@.len() == pair.1.len());
    }
}

/// Whenever the loader answers with a list, the block it read has one stored
/// receipt per transaction and the list holds one receipt per transaction.
pub proof fn law_eth_block_receipts_has_one_receipt_per_transaction<N: EthReceipts>(
    provider: N,
    block_id: BlockId,
    out: Vec<N::EthRpcReceipt>,
)
    requires
        eth_block_receipts_result::<N>(provider, block_id, Ok(Some(out))),
    ensures
        exists|block: RecoveredBlock<N::Transaction>, receipts: Vec<N::Receipt>|
            {
                &&& #[trigger] call_ensures(
                    N::load_block_and_receipts,
                    (&provider, block_id),
                    Ok::<_, N::ReadError>(Some((block, receipts))),
                )
                &&& is_paired(block, receipts)
                &&& out@.len() == block.transactions@.len()
                &&& exists|chain_spec: N::ChainSpec|
                    {
                        &&& #[trigger] call_ensures(N::chain_spec, (&provider,), chain_spec)
                        &&& forall|i: int|
                            0 <= i < out@.len() ==> #[trigger] is_eth_answer_for::<N>(
                                chain_spec,
                                block,
                                receipts,
                                i,
                                Ok::<N::EthRpcReceipt, N::EthBuildError>(out@[i]),
                            )
                    }
            },
{
    let r: EthBlockReceipts<N> = Ok(Some(out));
    let found = choose|found: Found<N>|
        {
            &&& #[trigger] call_ensures(N::load_block_and_receipts, (&provider, block_id), found)
            &&& eth_receipts_after_load::<N>(provider, found, r)
        };
    if let Ok(Some(pair)) = found {
        let chain_spec = choose|c: N::ChainSpec|
            {
                &&& #[trigger] call_ensures(N::chain_spec, (&provider,), c)
                &&& eth_receipts_under::<N>(c, pair.0, pair.1, r)
            };
        law_one_eth_receipt_per_transaction::<N>(chain_spec, pair.0, pair.1, out);
        assert(found == Ok::<_, N::ReadError>(Some((pair.0, pair.1))));
    }
}

/// The backend answers each question in one way only: asked twice for the same
/// block, for its configuration, or to build a receipt from the same inputs, it
/// gives the same answer. This is what a chain that is not reorganized between
/// two requests provides.
pub open spec fn eth_answers_are_fixed<N: EthReceipts>() -> bool {
    &&& forall|provider: N, block_id: BlockId, a: Found<N>, b: Found<N>|
        #![trigger
            call_ensures(N::load_block_and_receipts, (&provider, block_id), a),
            call_ensures(N::load_block_and_receipts, (&provider, block_id), b),
        ]
        call_ensures(N::load_block_and_receipts, (&provider, block_id), a) && call_ensures(
            N::load_block_and_receipts,
            (&provider, block_id),
            b,
        ) ==> same_found(a, b)
    &&& forall|provider: N, a: N::ChainSpec, b: N::ChainSpec|
        #![trigger call_ensures(N::chain_spec, (&provider,), a), call_ensures(N::chain_spec, (&provider,), b)]
        call_ensures(N::chain_spec, (&provider,), a) && call_ensures(N::chain_spec, (&provider,), b) ==> a == b
    &&& forall|
        chain_spec: N::ChainSpec,
        tx: RecoveredTx<N::Transaction>,
        meta: TransactionMeta,
        receipt: N::Receipt,
        x: Vec<N::Receipt>,
        y: Vec<N::Receipt>,
        a: EthStep<N>,
        b: EthStep<N>,
    |
        #![trigger
            call_ensures(N::build_eth_receipt, (&chain_spec, &tx, meta, &receipt, &x), a),
            call_ensures(N::build_eth_receipt, (&chain_spec, &tx, meta, &receipt, &y), b),
        ]
        x@ == y@ && call_ensures(N::build_eth_receipt, (&chain_spec, &tx, meta, &receipt, &x), a) && call_ensures(
            N::build_eth_receipt,
            (&chain_spec, &tx, meta, &receipt, &y),
            b,
        ) ==> a == b
}

/// Over a backend whose answers are fixed, building the receipts of the same
/// block twice gives the same receipts or the same failure.
proof fn lemma_eth_built_once<N: EthReceipts>(
    chain_spec: N::ChainSpec,
    x: RecoveredBlock<N::Transaction>,
    xr: Vec<N::Receipt>,
    y: RecoveredBlock<N::Transaction>,
    yr: Vec<N::Receipt>,
    a: Result<Vec<N::EthRpcReceipt>, N::EthBuildError>,
    b: Result<Vec<N::EthRpcReceipt>, N::EthBuildError>,
)
    requires
        eth_answers_are_fixed::<N>(),
        same_block(x, y),
        xr@ == yr@,
        eth_receipts_built::<N>(chain_spec, x, xr, a),
        eth_receipts_built::<N>(chain_spec, y, yr, b),
    ensures
        match (a, b) {
            (Ok(out), Ok(other)) => out@ == other@,
            (Err(e), Err(f)) => e == f,
            _ => false,
        },
{
    let n = x.transactions@.len() as int;
    let s = choose|s: Seq<EthStep<N>>|
        {
            &&& #[trigger] is_eth_build_trace::<N>(chain_spec, x, xr, s)
            &&& is_eth_trace_outcome::<N>(s, n, a)
        };
    let t = choose|t: Seq<EthStep<N>>|
        {
            &&& #[trigger] is_eth_build_trace::<N>(chain_spec, y, yr, t)
            &&& is_eth_trace_outcome::<N>(t, n, b)
        };
    // Both records end at the first failure or at the last transaction, and
    // they agree on every answer they share: so they are one record.
    assert forall|i: int| 0 <= i < s.len() && i < t.len() implies s[i] == t[i] by {
        assert(is_eth_answer_for::<N>(chain_spec, x, xr, i, s[i]));
        assert(is_eth_answer_for::<N>(chain_spec, y, yr, i, t[i]));
    }
    if let (Ok(out), Ok(other)) = (a, b) {
        assert forall|i: int| 0 <= i < n implies out@[i] == other@[i] by {
            assert(s[i] == t[i]);
        }
    }
}

/// Asking twice for the receipts of the same block gives the same result, as
/// long as the backend answers each question in one way only: the same
/// receipts in the same order, or the same failure, or twice "no such block".
pub proof fn law_eth_block_receipts_is_repeatable<N: EthReceipts>(
    provider: N,
    block_id: BlockId,
    a: EthBlockReceipts<N>,
    b: EthBlockReceipts<N>,
)
    requires
        eth_answers_are_fixed::<N>(),
        eth_block_receipts_result::<N>(provider, block_id, a),
        eth_block_receipts_result::<N>(provider, block_id, b),
    ensures
        receipts_view(a) == receipts_view(b),
{
    let f = choose|f: Found<N>|
        {
            &&& #[trigger] call_ensures(N::load_block_and_receipts, (&provider, block_id), f)
            &&& eth_receipts_after_load::<N>(provider, f, a)
        };
    let g = choose|g: Found<N>|
        {
            &&& #[trigger] call_ensures(N::load_block_and_receipts, (&provider, block_id), g)
            &&& eth_receipts_after_load::<N>(provider, g, b)
        };
    assert(same_found(f, g));
    if let (Ok(Some(p)), Ok(Some(q))) = (f, g) {
        let c = choose|c: N::ChainSpec|
            {
                &&& #[trigger] call_ensures(N::chain_spec, (&provider,), c)
                &&& eth_receipts_under::<N>(c, p.0, p.1, a)
            };
        let d = choose|d: N::ChainSpec|
            {
                &&& #[trigger] call_ensures(N::chain_spec, (&provider,), d)
                &&& eth_receipts_under::<N>(d, q.0, q.1, b)
            };
        assert(c == d);
        match (a, b) {
            (Ok(Some(out)), Ok(Some(other))) => {
                lemma_eth_built_once::<N>(c, p.0, p.1, q.0, q.1, Ok(out), Ok(other));
            },
            (Ok(Some(out)), Err(EthBlockError::ReceiptBuild(e))) => {
                lemma_eth_built_once::<N>(c, p.0, p.1, q.0, q.1, Ok(out), Err(e));
            },
            (Err(EthBlockError::ReceiptBuild(e)), Ok(Some(other))) => {
                lemma_eth_built_once::<N>(c, p.0, p.1, q.0, q.1, Err(e), Ok(other));
            },
            (Err(EthBlockError::ReceiptBuild(e)), Err(EthBlockError::ReceiptBuild(f))) => {
                lemma_eth_built_once::<N>(c, p.0, p.1, q.0, q.1, Err(e), Err(f));
            },
            _ => {},
        }
    }
}

} // verus!
