//! What holds of the rollup's receipts loader over every backend.

use vstd::prelude::*;
use crate::capability::{
    receipts_view, same_found, BlockReader, ChainSpecProvider, Found, L1FeeContext, OpReceipts,
};
use crate::op_receipts::{
    block_receipts_result, context_before, is_build_trace, is_trace_outcome, receipt_step, receipt_step_on,
    receipts_after_extraction, receipts_after_load, receipts_built, receipts_of_block, receipts_with_l1_info,
    BlockReceipts, OpEthApiError, Step,
};
use crate::primitives::{
    is_paired, same_block, spec_is_genesis, spec_transaction_meta, BlockId, RecoveredBlock, RecoveredTx,
    TransactionMeta,
};

verus! {

/// `answer` is what the builder gave in the turn of transaction `i`: it was
/// called, on a cleared fee context, with the transaction, the metadata and the
/// stored receipt of position `i`.
pub open spec fn is_answer_for<N: OpReceipts>(
    chain_spec: N::ChainSpec,
    block: RecoveredBlock<N::Transaction>,
    receipts: Vec<N::Receipt>,
    i: int,
    answer: Result<N::RpcReceipt, N::BuildError>,
) -> bool {
    exists|before: N::L1Info, after: N::L1Info| #[trigger]
        receipt_step::<N>(chain_spec, block, receipts, i, before, (answer, after))
}

/// One receipt per transaction, position for position. When a block has as
/// many stored receipts as transactions and its receipts were built, there are
/// as many RPC receipts as transactions, and the one at each position is what
/// the builder answered for the transaction, the metadata and the stored
/// receipt of that position.
pub proof fn law_one_receipt_per_transaction<N: OpReceipts>(
    chain_spec: N::ChainSpec,
    block: RecoveredBlock<N::Transaction>,
    receipts: Vec<N::Receipt>,
    initial: N::L1Info,
    out: Vec<N::RpcReceipt>,
)
    requires
        is_paired(block, receipts),
        receipts_built::<N>(chain_spec, block, receipts, initial, Ok(out)),
    ensures
        out@.len() == block.transactions@.len(),
        forall|i: int|
            0 <= i < out@.len() ==> #[trigger] is_answer_for::<N>(
                chain_spec,
                block,
                receipts,
                i,
                Ok::<N::RpcReceipt, N::BuildError>(out@[i]),
            ),
{
    let n = block.transactions@.len() as int;
    let trace = choose|trace: Seq<Step<N>>|
        {
            &&& #[trigger] is_build_trace::<N>(chain_spec, block, receipts, initial, trace)
            &&& is_trace_outcome::<N>(trace, n, Ok(out))
        };
    assert forall|i: int| 0 <= i < out@.len() implies #[trigger] is_answer_for::<N>(
        chain_spec,
        block,
        receipts,
        i,
        Ok::<N::RpcReceipt, N::BuildError>(out@[i]),
    ) by {
        let before = context_before::<N>(initial, trace, i);
        assert(receipt_step::<N>(chain_spec, block, receipts, i, before, trace[i]));
        assert(trace[i] == (Ok::<N::RpcReceipt, N::BuildError>(out@[i]), trace[i].1));
    }
}

/// `out` holds one receipt per transaction of `block`, each what the builder
/// answered, under the configuration that `node` gave, for the transaction, the
/// metadata and the stored receipt of its position.
pub open spec fn has_one_receipt_per_transaction<N: OpReceipts>(
    node: N,
    block: RecoveredBlock<N::Transaction>,
    receipts: Vec<N::Receipt>,
    out: Vec<N::RpcReceipt>,
) -> bool {
    &&& out@.len() == block.transactions@.len()
    &&& exists|chain_spec: N::ChainSpec|
        {
            &&& #[trigger] call_ensures(N::chain_spec, (&node,), chain_spec)
            &&& forall|i: int|
                0 <= i < out@.len() ==> #[trigger] is_answer_for::<N>(
                    chain_spec,
                    block,
                    receipts,
                    i,
                    Ok::<N::RpcReceipt, N::BuildError>(out@[i]),
                )
        }
}

/// The same, for a block as the loader handles it: unless the block is a
/// genesis block whose fee context may be unreadable, a successful result holds
/// one receipt per transaction, built position for position under the
/// configuration that the backend gave.
pub proof fn law_loaded_block_has_one_receipt_per_transaction<N: OpReceipts>(
    node: N,
    block: RecoveredBlock<N::Transaction>,
    receipts: Vec<N::Receipt>,
    out: Vec<N::RpcReceipt>,
)
    requires
        is_paired(block, receipts),
        receipts_of_block::<N>(node, block, receipts, Ok(Some(out))),
        spec_is_genesis(block.header.number) ==> forall|x: Result<N::L1Info, N::L1Error>| #[trigger]
            call_ensures(N::extract_l1_info, (&node, &block), x) ==> x is Ok,
    ensures
        has_one_receipt_per_transaction::<N>(node, block, receipts, out),
{
    let r: BlockReceipts<N> = Ok(Some(out));
    let extraction = choose|x: Result<N::L1Info, N::L1Error>|
        {
            &&& #[trigger] call_ensures(N::extract_l1_info, (&node, &block), x)
            &&& receipts_after_extraction::<N>(node, block, receipts, x, r)
        };
    if let Ok(initial) = extraction {
        let chain_spec = choose|c: N::ChainSpec|
            {
                &&& #[trigger] call_ensures(N::chain_spec, (&node,), c)
                &&& receipts_with_l1_info::<N>(c, block, receipts, initial, r)
            };
        law_one_receipt_per_transaction::<N>(chain_spec, block, receipts, initial, out);
    }
}

/// Asked for the receipts of a block, the loader answers with one receipt per
/// transaction of the block it read, position for position, whenever it
/// answers with a list at all. The block is not to be a genesis block whose fee
/// context may be unreadable: that one yields an empty list whatever it holds.
pub proof fn law_block_receipts_has_one_receipt_per_transaction<N: OpReceipts>(
    node: N,
    block_id: BlockId,
    out: Vec<N::RpcReceipt>,
)
    requires
        block_receipts_result::<N>(node, block_id, Ok(Some(out))),
        forall|found: Found<N>| #[trigger]
            call_ensures(N::load_block_and_receipts, (&node, block_id), found) ==> (found matches Ok(Some(pair))
                ==> (spec_is_genesis(pair.0.header.number) ==> forall|x: Result<N::L1Info, N::L1Error>| #[trigger]
                call_ensures(N::extract_l1_info, (&node, &pair.0), x) ==> x is Ok)),
    ensures
        exists|block: RecoveredBlock<N::Transaction>, receipts: Vec<N::Receipt>|
            {
                &&& #[trigger] call_ensures(
                    N::load_block_and_receipts,
                    (&node, block_id),
                    Ok::<_, N::ReadError>(Some((block, receipts))),
                )
                &&& is_paired(block, receipts)
                &&& has_one_receipt_per_transaction::<N>(node, block, receipts, out)
            },
{
    let r: BlockReceipts<N> = Ok(Some(out));
    let found = choose|found: Found<N>|
        {
            &&& #[trigger] call_ensures(N::load_block_and_receipts, (&node, block_id), found)
            &&& receipts_after_load::<N>(node, found, r)
        };
    if let Ok(Some(pair)) = found {
        law_loaded_block_has_one_receipt_per_transaction::<N>(node, pair.0, pair.1, out);
        assert(has_one_receipt_per_transaction::<N>(node, pair.0, pair.1, out));
        assert(found == Ok::<_, N::ReadError>(Some((pair.0, pair.1))));
    }
}

/// A block that is read with a number of stored receipts other than its number
/// of transactions is refused: the loader never answers with a list for it,
/// be it shortened or empty, and reports both numbers.
pub proof fn law_unpaired_block_is_refused<N: OpReceipts>(node: N, block_id: BlockId, r: BlockReceipts<N>)
    requires
        block_receipts_result::<N>(node, block_id, r),
        forall|found: Found<N>| #[trigger]
            call_ensures(N::load_block_and_receipts, (&node, block_id), found) ==> (found matches Ok(Some(pair))
                && !is_paired(pair.0, pair.1)),
    ensures
        r matches Err(OpEthApiError::ReceiptCountMismatch { transactions, receipts }) && transactions != receipts,
{
    let found = choose|found: Found<N>|
        {
            &&& #[trigger] call_ensures(N::load_block_and_receipts, (&node, block_id), found)
            &&& receipts_after_load::<N>(node, found, r)
        };
    if let Ok(Some(pair)) = found {
        assert(pair.0.transactions@.len() == pair.0.transactions.len());
        assert(pair.1@.len() == pair.1.len());
    }
}

/// The genesis block without a readable fee context yields an empty list of
/// receipts, whatever transactions it holds, and never a failure.
pub proof fn law_genesis_without_l1_info_is_empty<N: OpReceipts>(
    node: N,
    block: RecoveredBlock<N::Transaction>,
    receipts: Vec<N::Receipt>,
    r: BlockReceipts<N>,
)
    requires
        receipts_of_block::<N>(node, block, receipts, r),
        spec_is_genesis(block.header.number),
        forall|x: Result<N::L1Info, N::L1Error>| #[trigger]
            call_ensures(N::extract_l1_info, (&node, &block), x) ==> x is Err,
    ensures
        receipts_view(r) == Ok::<
            Option<Seq<N::RpcReceipt>>,
            OpEthApiError<N::ReadError, N::L1Error, N::BuildError>,
        >(Some(Seq::empty())),
{
}

/// Any other block without a readable fee context yields that failure: never a
/// list of receipts, be it empty or partial.
pub proof fn law_later_block_without_l1_info_fails<N: OpReceipts>(
    node: N,
    block: RecoveredBlock<N::Transaction>,
    receipts: Vec<N::Receipt>,
    r: BlockReceipts<N>,
)
    requires
        receipts_of_block::<N>(node, block, receipts, r),
        !spec_is_genesis(block.header.number),
        forall|x: Result<N::L1Info, N::L1Error>| #[trigger]
            call_ensures(N::extract_l1_info, (&node, &block), x) ==> x is Err,
    ensures
        r matches Err(OpEthApiError::L1BlockInfo(err)) && call_ensures(
            N::extract_l1_info,
            (&node, &block),
            Err::<N::L1Info, N::L1Error>(err),
        ),
{
}

/// `block_id` names a block that the backend finds with one receipt per
/// transaction, whose height is or is not that of genesis as `genesis` says,
/// and from which no fee context can be read.
pub open spec fn names_block_without_l1_info<N: OpReceipts>(node: N, block_id: BlockId, genesis: bool) -> bool {
    forall|found: Found<N>| #[trigger]
        call_ensures(N::load_block_and_receipts, (&node, block_id), found) ==> {
            &&& found matches Ok(Some(pair))
            &&& is_paired(pair.0, pair.1)
            &&& spec_is_genesis(pair.0.header.number) == genesis
            &&& forall|x: Result<N::L1Info, N::L1Error>| #[trigger]
                call_ensures(N::extract_l1_info, (&node, &pair.0), x) ==> x is Err
        }
}

/// Asked for the receipts of the genesis block of a rollup, the loader answers
/// with an empty list even though no fee context can be read from the block.
pub proof fn law_block_receipts_of_genesis_is_empty<N: OpReceipts>(node: N, block_id: BlockId, r: BlockReceipts<N>)
    requires
        block_receipts_result::<N>(node, block_id, r),
        names_block_without_l1_info::<N>(node, block_id, true),
    ensures
        receipts_view(r) == Ok::<
            Option<Seq<N::RpcReceipt>>,
            OpEthApiError<N::ReadError, N::L1Error, N::BuildError>,
        >(Some(Seq::empty())),
{
    let found = choose|found: Found<N>|
        {
            &&& #[trigger] call_ensures(N::load_block_and_receipts, (&node, block_id), found)
            &&& receipts_after_load::<N>(node, found, r)
        };
    if let Ok(Some(pair)) = found {
        law_genesis_without_l1_info_is_empty::<N>(node, pair.0, pair.1, r);
    }
}

/// Asked for the receipts of any later block from which no fee context can be
/// read, the loader fails with that failure: it never answers with a list, be
/// it empty or partial.
pub proof fn law_block_receipts_without_l1_info_fails<N: OpReceipts>(
    node: N,
    block_id: BlockId,
    r: BlockReceipts<N>,
)
    requires
        block_receipts_result::<N>(node, block_id, r),
        names_block_without_l1_info::<N>(node, block_id, false),
    ensures
        r matches Err(OpEthApiError::L1BlockInfo(_)),
{
    let found = choose|found: Found<N>|
        {
            &&& #[trigger] call_ensures(N::load_block_and_receipts, (&node, block_id), found)
            &&& receipts_after_load::<N>(node, found, r)
        };
    if let Ok(Some(pair)) = found {
        law_later_block_without_l1_info_fails::<N>(node, pair.0, pair.1, r);
    }
}

/// A failure to build a receipt is the failure of one transaction's turn, and
/// it is returned alone: the result holds no receipt of the transactions before
/// it.
pub proof fn law_build_failure_is_returned_alone<N: OpReceipts>(
    chain_spec: N::ChainSpec,
    block: RecoveredBlock<N::Transaction>,
    receipts: Vec<N::Receipt>,
    initial: N::L1Info,
    r: BlockReceipts<N>,
)
    requires
        receipts_with_l1_info::<N>(chain_spec, block, receipts, initial, r),
        r is Err,
    ensures
        r matches Err(OpEthApiError::ReceiptBuild(e)) && exists|i: int|
            0 <= i < block.transactions@.len() && #[trigger] is_answer_for::<N>(
                chain_spec,
                block,
                receipts,
                i,
                Err::<N::RpcReceipt, N::BuildError>(e),
            ),
{
    if let Err(OpEthApiError::ReceiptBuild(e)) = r {
        let trace = choose|trace: Seq<Step<N>>|
            {
                &&& #[trigger] is_build_trace::<N>(chain_spec, block, receipts, initial, trace)
                &&& is_trace_outcome::<N>(trace, block.transactions@.len() as int, Err(e))
            };
        let i = trace.len() - 1;
        let before = context_before::<N>(initial, trace, i);
        assert(receipt_step::<N>(chain_spec, block, receipts, i, before, trace[i]));
        assert(trace[i] == (Err::<N::RpcReceipt, N::BuildError>(e), trace[i].1));
        assert(is_answer_for::<N>(chain_spec, block, receipts, i, Err::<N::RpcReceipt, N::BuildError>(e)));
    }
}

/// The builder answers in one way only: asked twice to build a receipt from the
/// same inputs, it gives the same receipt and hands back the same fee context.
pub open spec fn builds_are_fixed<N: OpReceipts>() -> bool {
    forall|
        chain_spec: N::ChainSpec,
        tx: RecoveredTx<N::Transaction>,
        meta: TransactionMeta,
        receipt: N::Receipt,
        x: Vec<N::Receipt>,
        y: Vec<N::Receipt>,
        l1: N::L1Info,
        a: Step<N>,
        b: Step<N>,
    |
        #![trigger
            call_ensures(N::build_receipt, (&chain_spec, &tx, meta, &receipt, &x, l1), a),
            call_ensures(N::build_receipt, (&chain_spec, &tx, meta, &receipt, &y, l1), b),
        ]
        x@ == y@ && call_ensures(N::build_receipt, (&chain_spec, &tx, meta, &receipt, &x, l1), a) && call_ensures(
            N::build_receipt,
            (&chain_spec, &tx, meta, &receipt, &y, l1),
            b,
        ) ==> a == b
}

/// The backend answers each question in one way only: asked twice for the same
/// block, for the fee context of the same block, for its configuration, to
/// clear the same fee context, or to build a receipt from the same inputs, it
/// gives the same answer. This is what a chain that is not reorganized between
/// two requests provides.
pub open spec fn answers_are_fixed<N: OpReceipts>() -> bool {
    &&& forall|node: N, block_id: BlockId, a: Found<N>, b: Found<N>|
        #![trigger
            call_ensures(N::load_block_and_receipts, (&node, block_id), a),
            call_ensures(N::load_block_and_receipts, (&node, block_id), b),
        ]
        call_ensures(N::load_block_and_receipts, (&node, block_id), a) && call_ensures(
            N::load_block_and_receipts,
            (&node, block_id),
            b,
        ) ==> same_found(a, b)
    &&& forall|
        node: N,
        x: RecoveredBlock<N::Transaction>,
        y: RecoveredBlock<N::Transaction>,
        a: Result<N::L1Info, N::L1Error>,
        b: Result<N::L1Info, N::L1Error>,
    |
        #![trigger
            call_ensures(N::extract_l1_info, (&node, &x), a),
            call_ensures(N::extract_l1_info, (&node, &y), b),
        ]
        same_block(x, y) && call_ensures(N::extract_l1_info, (&node, &x), a) && call_ensures(
            N::extract_l1_info,
            (&node, &y),
            b,
        ) ==> a == b
    &&& forall|node: N, a: N::ChainSpec, b: N::ChainSpec|
        #![trigger call_ensures(N::chain_spec, (&node,), a), call_ensures(N::chain_spec, (&node,), b)]
        call_ensures(N::chain_spec, (&node,), a) && call_ensures(N::chain_spec, (&node,), b) ==> a == b
    &&& forall|l1: N::L1Info, a: N::L1Info, b: N::L1Info|
        #![trigger
            call_ensures(<N::L1Info as L1FeeContext>::clear_tx_l1_cost, (l1,), a),
            call_ensures(<N::L1Info as L1FeeContext>::clear_tx_l1_cost, (l1,), b),
        ]
        call_ensures(<N::L1Info as L1FeeContext>::clear_tx_l1_cost, (l1,), a) && call_ensures(
            <N::L1Info as L1FeeContext>::clear_tx_l1_cost,
            (l1,),
            b,
        ) ==> a == b
    &&& builds_are_fixed::<N>()
}

/// Over a backend whose answers are fixed, two records of the turns taken on
/// the same block agree on the first `k` turns, if both hold that many.
proof fn lemma_traces_agree<N: OpReceipts>(
    chain_spec: N::ChainSpec,
    x: RecoveredBlock<N::Transaction>,
    xr: Vec<N::Receipt>,
    y: RecoveredBlock<N::Transaction>,
    yr: Vec<N::Receipt>,
    initial: N::L1Info,
    s: Seq<Step<N>>,
    t: Seq<Step<N>>,
    k: int,
)
    requires
        answers_are_fixed::<N>(),
        same_block(x, y),
        xr@ == yr@,
        is_build_trace::<N>(chain_spec, x, xr, initial, s),
        is_build_trace::<N>(chain_spec, y, yr, initial, t),
        0 <= k <= s.len(),
        k <= t.len(),
    ensures
        forall|i: int| 0 <= i < k ==> s[i] == t[i],
    decreases k,
{
    if k > 0 {
        lemma_traces_agree::<N>(chain_spec, x, xr, y, yr, initial, s, t, k - 1);
        let i = k - 1;
        let before = context_before::<N>(initial, s, i);
        assert(before == context_before::<N>(initial, t, i));
        assert(receipt_step::<N>(chain_spec, x, xr, i, before, s[i]));
        assert(receipt_step::<N>(chain_spec, y, yr, i, before, t[i]));
    }
}

/// Over a backend whose answers are fixed, building the receipts of the same
/// block twice gives the same receipts or the same failure.
proof fn lemma_built_once<N: OpReceipts>(
    chain_spec: N::ChainSpec,
    x: RecoveredBlock<N::Transaction>,
    xr: Vec<N::Receipt>,
    y: RecoveredBlock<N::Transaction>,
    yr: Vec<N::Receipt>,
    initial: N::L1Info,
    a: Result<Vec<N::RpcReceipt>, N::BuildError>,
    b: Result<Vec<N::RpcReceipt>, N::BuildError>,
)
    requires
        answers_are_fixed::<N>(),
        same_block(x, y),
        xr@ == yr@,
        receipts_built::<N>(chain_spec, x, xr, initial, a),
        receipts_built::<N>(chain_spec, y, yr, initial, b),
    ensures
        match (a, b) {
            (Ok(out), Ok(other)) => out@ == other@,
            (Err(e), Err(f)) => e == f,
            _ => false,
        },
{
    let n = x.transactions@.len() as int;
    let s = choose|s: Seq<Step<N>>|
        {
            &&& #[trigger] is_build_trace::<N>(chain_spec, x, xr, initial, s)
            &&& is_trace_outcome::<N>(s, n, a)
        };
    let t = choose|t: Seq<Step<N>>|
        {
            &&& #[trigger] is_build_trace::<N>(chain_spec, y, yr, initial, t)
            &&& is_trace_outcome::<N>(t, n, b)
        };
    let k = if s.len() <= t.len() {
        s.len() as int
    } else {
        t.len() as int
    };
    // Both records end at the first failure or at the last transaction, and
    // they agree on every turn they share: so they are one record.
    lemma_traces_agree::<N>(chain_spec, x, xr, y, yr, initial, s, t, k);
    if let (Ok(out), Ok(other)) = (a, b) {
        assert forall|i: int| 0 <= i < n implies out@[i] == other@[i] by {
            assert(s[i] == t[i]);
        }
    }
}

/// Over a backend whose answers are fixed, turning the same block into RPC
/// receipts twice gives the same result.
proof fn lemma_receipts_of_block_once<N: OpReceipts>(
    node: N,
    x: RecoveredBlock<N::Transaction>,
    xr: Vec<N::Receipt>,
    y: RecoveredBlock<N::Transaction>,
    yr: Vec<N::Receipt>,
    a: BlockReceipts<N>,
    b: BlockReceipts<N>,
)
    requires
        answers_are_fixed::<N>(),
        same_block(x, y),
        xr@ == yr@,
        receipts_of_block::<N>(node, x, xr, a),
        receipts_of_block::<N>(node, y, yr, b),
    ensures
        receipts_view(a) == receipts_view(b),
{
    let p = choose|p: Result<N::L1Info, N::L1Error>|
        {
            &&& #[trigger] call_ensures(N::extract_l1_info, (&node, &x), p)
            &&& receipts_after_extraction::<N>(node, x, xr, p, a)
        };
    let q = choose|q: Result<N::L1Info, N::L1Error>|
        {
            &&& #[trigger] call_ensures(N::extract_l1_info, (&node, &y), q)
            &&& receipts_after_extraction::<N>(node, y, yr, q, b)
        };
    assert(p == q);
    if let Ok(initial) = p {
        let c = choose|c: N::ChainSpec|
            {
                &&& #[trigger] call_ensures(N::chain_spec, (&node,), c)
                &&& receipts_with_l1_info::<N>(c, x, xr, initial, a)
            };
        let d = choose|d: N::ChainSpec|
            {
                &&& #[trigger] call_ensures(N::chain_spec, (&node,), d)
                &&& receipts_with_l1_info::<N>(d, y, yr, initial, b)
            };
        assert(c == d);
        match (a, b) {
            (Ok(Some(out)), Ok(Some(other))) => {
                lemma_built_once::<N>(c, x, xr, y, yr, initial, Ok(out), Ok(other));
            },
            (Ok(Some(out)), Err(OpEthApiError::ReceiptBuild(f))) => {
                lemma_built_once::<N>(c, x, xr, y, yr, initial, Ok(out), Err(f));
            },
            (Err(OpEthApiError::ReceiptBuild(e)), Ok(Some(other))) => {
                lemma_built_once::<N>(c, x, xr, y, yr, initial, Err(e), Ok(other));
            },
            (Err(OpEthApiError::ReceiptBuild(e)), Err(OpEthApiError::ReceiptBuild(f))) => {
                lemma_built_once::<N>(c, x, xr, y, yr, initial, Err(e), Err(f));
            },
            _ => {},
        }
    }
}

/// Asking twice for the receipts of the same block gives the same result, as
/// long as the backend answers each question in one way only: the same
/// receipts in the same order, or the same failure, or twice "no such block".
pub proof fn law_block_receipts_is_repeatable<N: OpReceipts>(
    node: N,
    block_id: BlockId,
    a: BlockReceipts<N>,
    b: BlockReceipts<N>,
)
    requires
        answers_are_fixed::<N>(),
        block_receipts_result::<N>(node, block_id, a),
        block_receipts_result::<N>(node, block_id, b),
    ensures
        receipts_view(a) == receipts_view(b),
{
    let f = choose|f: Found<N>|
        {
            &&& #[trigger] call_ensures(N::load_block_and_receipts, (&node, block_id), f)
            &&& receipts_after_load::<N>(node, f, a)
        };
    let g = choose|g: Found<N>|
        {
            &&& #[trigger] call_ensures(N::load_block_and_receipts, (&node, block_id), g)
            &&& receipts_after_load::<N>(node, g, b)
        };
    assert(same_found(f, g));
    if let (Ok(Some(p)), Ok(Some(q))) = (f, g) {
        if is_paired(p.0, p.1) {
            lemma_receipts_of_block_once::<N>(node, p.0, p.1, q.0, q.1, a, b);
        }
    }
}

/// The fee context has a part that belongs to the block, read off by `scope`,
/// and the cache is all that ever changes: clearing keeps the block's part and
/// makes any two contexts of the same block equal, and the builder hands back a
/// context of the same block.
pub open spec fn only_the_cache_changes<N: OpReceipts, K>(scope: spec_fn(N::L1Info) -> K) -> bool {
    &&& forall|a: N::L1Info, c: N::L1Info| #[trigger]
        call_ensures(<N::L1Info as L1FeeContext>::clear_tx_l1_cost, (a,), c) ==> scope(c) == scope(a)
    &&& forall|a: N::L1Info, b: N::L1Info, c: N::L1Info, d: N::L1Info|
        #![trigger
            call_ensures(<N::L1Info as L1FeeContext>::clear_tx_l1_cost, (a,), c),
            call_ensures(<N::L1Info as L1FeeContext>::clear_tx_l1_cost, (b,), d),
        ]
        scope(a) == scope(b) && call_ensures(<N::L1Info as L1FeeContext>::clear_tx_l1_cost, (a,), c)
            && call_ensures(<N::L1Info as L1FeeContext>::clear_tx_l1_cost, (b,), d) ==> c == d
    &&& forall|
        chain_spec: N::ChainSpec,
        tx: RecoveredTx<N::Transaction>,
        meta: TransactionMeta,
        receipt: N::Receipt,
        receipts: Vec<N::Receipt>,
        l1: N::L1Info,
        step: Step<N>,
    | #[trigger]
        call_ensures(N::build_receipt, (&chain_spec, &tx, meta, &receipt, &receipts, l1), step) ==> scope(step.1)
            == scope(l1)
}

/// `answer` is what the builder gave for the transaction, the metadata and the
/// stored receipt of position `i` when handed the fee context `context`.
pub open spec fn is_answer_on<N: OpReceipts>(
    chain_spec: N::ChainSpec,
    block: RecoveredBlock<N::Transaction>,
    receipts: Vec<N::Receipt>,
    i: int,
    context: N::L1Info,
    answer: Result<N::RpcReceipt, N::BuildError>,
) -> bool {
    exists|after: N::L1Info| #[trigger]
        call_ensures(
            N::build_receipt,
            (
                &chain_spec,
                &block.transactions@[i],
                spec_transaction_meta(block.header, block.transactions@[i].tx_hash, i),
                &receipts@[i],
                &receipts,
                context,
            ),
            (answer, after),
        )
}

/// Over a fee context of which only the cache changes, every turn of a record
/// starts from a context of the block that `initial` belongs to.
proof fn lemma_scope_is_kept<N: OpReceipts, K>(
    scope: spec_fn(N::L1Info) -> K,
    chain_spec: N::ChainSpec,
    block: RecoveredBlock<N::Transaction>,
    receipts: Vec<N::Receipt>,
    initial: N::L1Info,
    trace: Seq<Step<N>>,
    i: int,
)
    requires
        only_the_cache_changes::<N, K>(scope),
        is_build_trace::<N>(chain_spec, block, receipts, initial, trace),
        0 <= i <= trace.len(),
    ensures
        scope(context_before::<N>(initial, trace, i)) == scope(initial),
    decreases i,
{
    if i > 0 {
        lemma_scope_is_kept::<N, K>(scope, chain_spec, block, receipts, initial, trace, i - 1);
        let before = context_before::<N>(initial, trace, i - 1);
        assert(receipt_step::<N>(chain_spec, block, receipts, i - 1, before, trace[i - 1]));
    }
}

/// No cost leaks from one transaction into the receipt of another. Over a fee
/// context of which only the cache changes, every receipt of a block is what
/// the builder answers on one and the same context: the one read from the
/// block, cleared. What an earlier transaction left in the cache has no part
/// in it.
pub proof fn law_receipts_are_built_on_one_cleared_context<N: OpReceipts, K>(
    scope: spec_fn(N::L1Info) -> K,
    chain_spec: N::ChainSpec,
    block: RecoveredBlock<N::Transaction>,
    receipts: Vec<N::Receipt>,
    initial: N::L1Info,
    out: Vec<N::RpcReceipt>,
)
    requires
        only_the_cache_changes::<N, K>(scope),
        receipts_built::<N>(chain_spec, block, receipts, initial, Ok(out)),
        out@.len() > 0,
    ensures
        exists|cleared: N::L1Info|
            {
                &&& #[trigger] call_ensures(<N::L1Info as L1FeeContext>::clear_tx_l1_cost, (initial,), cleared)
                &&& forall|i: int|
                    0 <= i < out@.len() ==> #[trigger] is_answer_on::<N>(
                        chain_spec,
                        block,
                        receipts,
                        i,
                        cleared,
                        Ok::<N::RpcReceipt, N::BuildError>(out@[i]),
                    )
            },
{
    let trace = choose|trace: Seq<Step<N>>|
        {
            &&& #[trigger] is_build_trace::<N>(chain_spec, block, receipts, initial, trace)
            &&& is_trace_outcome::<N>(trace, block.transactions@.len() as int, Ok(out))
        };
    assert(receipt_step::<N>(chain_spec, block, receipts, 0, context_before::<N>(initial, trace, 0), trace[0]));
    let first = choose|c: N::L1Info| receipt_step_on::<N>(chain_spec, block, receipts, 0, initial, c, trace[0]);
    assert forall|i: int| 0 <= i < out@.len() implies #[trigger] is_answer_on::<N>(
        chain_spec,
        block,
        receipts,
        i,
        first,
        Ok::<N::RpcReceipt, N::BuildError>(out@[i]),
    ) by {
        let before = context_before::<N>(initial, trace, i);
        lemma_scope_is_kept::<N, K>(scope, chain_spec, block, receipts, initial, trace, i);
        assert(receipt_step::<N>(chain_spec, block, receipts, i, before, trace[i]));
        let cleared = choose|c: N::L1Info| receipt_step_on::<N>(chain_spec, block, receipts, i, before, c, trace[i]);
        assert(cleared == first);
        assert(trace[i] == (Ok::<N::RpcReceipt, N::BuildError>(out@[i]), trace[i].1));
    }
}

/// The receipt of a transaction does not depend on the other transactions of
/// its block, nor on what they cost. Take two blocks with the same header and
/// the same stored receipts, whose fee contexts belong to the same block data,
/// and which hold the same transaction at position `j`. Over a fee context of
/// which only the cache changes, and a builder that answers in one way only,
/// the receipts at position `j` are the same, whatever stands at the other
/// positions.
pub proof fn law_receipt_depends_on_its_own_transaction_only<N: OpReceipts, K>(
    scope: spec_fn(N::L1Info) -> K,
    chain_spec: N::ChainSpec,
    x: RecoveredBlock<N::Transaction>,
    y: RecoveredBlock<N::Transaction>,
    receipts: Vec<N::Receipt>,
    x_initial: N::L1Info,
    y_initial: N::L1Info,
    x_out: Vec<N::RpcReceipt>,
    y_out: Vec<N::RpcReceipt>,
    j: int,
)
    requires
        only_the_cache_changes::<N, K>(scope),
        builds_are_fixed::<N>(),
        is_paired(x, receipts),
        is_paired(y, receipts),
        x.header == y.header,
        scope(x_initial) == scope(y_initial),
        receipts_built::<N>(chain_spec, x, receipts, x_initial, Ok(x_out)),
        receipts_built::<N>(chain_spec, y, receipts, y_initial, Ok(y_out)),
        0 <= j < receipts@.len(),
        x.transactions@[j] == y.transactions@[j],
    ensures
        x_out@[j] == y_out@[j],
{
    law_one_receipt_per_transaction::<N>(chain_spec, x, receipts, x_initial, x_out);
    law_one_receipt_per_transaction::<N>(chain_spec, y, receipts, y_initial, y_out);
    law_receipts_are_built_on_one_cleared_context::<N, K>(scope, chain_spec, x, receipts, x_initial, x_out);
    law_receipts_are_built_on_one_cleared_context::<N, K>(scope, chain_spec, y, receipts, y_initial, y_out);
    let c = choose|c: N::L1Info|
        {
            &&& #[trigger] call_ensures(<N::L1Info as L1FeeContext>::clear_tx_l1_cost, (x_initial,), c)
            &&& forall|i: int|
                0 <= i < x_out@.len() ==> #[trigger] is_answer_on::<N>(
                    chain_spec,
                    x,
                    receipts,
                    i,
                    c,
                    Ok::<N::RpcReceipt, N::BuildError>(x_out@[i]),
                )
        };
    let d = choose|d: N::L1Info|
        {
            &&& #[trigger] call_ensures(<N::L1Info as L1FeeContext>::clear_tx_l1_cost, (y_initial,), d)
            &&& forall|i: int|
                0 <= i < y_out@.len() ==> #[trigger] is_answer_on::<N>(
                    chain_spec,
                    y,
                    receipts,
                    i,
                    d,
                    Ok::<N::RpcReceipt, N::BuildError>(y_out@[i]),
                )
        };
    assert(c == d);
    assert(is_answer_on::<N>(chain_spec, x, receipts, j, c, Ok::<N::RpcReceipt, N::BuildError>(x_out@[j])));
    assert(is_answer_on::<N>(chain_spec, y, receipts, j, c, Ok::<N::RpcReceipt, N::BuildError>(y_out@[j])));
}

} // verus!
