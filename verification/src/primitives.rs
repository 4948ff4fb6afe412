//! Plain value types shared by every module: hashes, addresses, words, block
//! identifiers, headers, blocks and per-transaction metadata.

use vstd::prelude::*;

verus! {

/// A 32-byte value (a hash or a storage word read as bytes), held as two
/// big-endian halves.
#[derive(Clone, Copy, Debug, PartialEq, Eq, Structural)]
pub struct B256 {
    pub hi: u128,
    pub lo: u128,
}

/// A 256-bit unsigned number, held as two halves.
#[derive(Clone, Copy, Debug, PartialEq, Eq, Structural)]
pub struct U256 {
    pub hi: u128,
    pub lo: u128,
}

/// A 20-byte account address, held as its leading 4 bytes and trailing 16.
#[derive(Clone, Copy, Debug, PartialEq, Eq, Structural)]
pub struct Address {
    pub hi: u32,
    pub lo: u128,
}

/// The number 2^128, the weight of the high half of a 256-bit value.
pub open spec fn pow2_128() -> nat {
    0x1_0000_0000_0000_0000_0000_0000_0000_0000nat
}

impl B256 {
    /// The all-zero value.
    pub open spec fn spec_zero() -> B256 {
        B256 { hi: 0, lo: 0 }
    }

    /// The value read as a big-endian number.
    pub open spec fn as_nat(self) -> nat {
        (self.hi as nat) * pow2_128() + (self.lo as nat)
    }

    /// The all-zero value.
    pub fn zero() -> (r: B256)
        ensures
            r == B256::spec_zero(),
            r.as_nat() == 0,
    {
        B256 { hi: 0, lo: 0 }
    }
}

impl Address {
    /// The address as a 32-byte word, padded with zeros on the left.
    pub open spec fn spec_into_word(self) -> B256 {
        B256 { hi: self.hi as u128, lo: self.lo }
    }

    /// The address as a 32-byte word, padded with zeros on the left.
    pub fn into_word(self) -> (word: B256)
        ensures
            word == self.spec_into_word(),
    {
        B256 { hi: self.hi as u128, lo: self.lo }
    }
}

impl U256 {
    /// The number zero.
    pub open spec fn spec_zero() -> U256 {
        U256 { hi: 0, lo: 0 }
    }

    /// The number this value stands for.
    pub open spec fn as_nat(self) -> nat {
        (self.hi as nat) * pow2_128() + (self.lo as nat)
    }

    /// The big-endian bytes of the number, as a 32-byte value.
    pub open spec fn spec_to_be_bytes(self) -> B256 {
        B256 { hi: self.hi, lo: self.lo }
    }

    /// The number zero.
    pub fn zero() -> (r: U256)
        ensures
            r == U256::spec_zero(),
            r.as_nat() == 0,
    {
        U256 { hi: 0, lo: 0 }
    }

    /// A number that fits in 64 bits.
    pub fn from_u64(n: u64) -> (r: U256)
        ensures
            r.as_nat() == n,
            r == (U256 { hi: 0, lo: n as u128 }),
    {
        U256 { hi: 0, lo: n as u128 }
    }

    /// The 32 big-endian bytes of the number.
    pub fn to_be_bytes(self) -> (r: B256)
        ensures
            r == self.spec_to_be_bytes(),
            r.as_nat() == self.as_nat(),
    {
        B256 { hi: self.hi, lo: self.lo }
    }
}

/// The hash of the empty byte string, which is the code hash of an account
/// without code.
pub open spec fn spec_keccak_empty() -> B256 {
    B256 { hi: 0xc5d2460186f7233c927e7db2dcc703c0, lo: 0xe500b653ca82273b7bfad8045d85a470 }
}

/// The hash of the empty byte string.
pub fn keccak_empty() -> (hash: B256)
    ensures
        hash == spec_keccak_empty(),
{
    B256 { hi: 0xc5d2460186f7233c927e7db2dcc703c0, lo: 0xe500b653ca82273b7bfad8045d85a470 }
}

/// A block named by position or by one of the chain's moving labels.
#[derive(Clone, Copy, Debug, PartialEq, Eq, Structural)]
pub enum BlockNumberOrTag {
    /// The most recent block of the canonical chain.
    Latest,
    /// The most recent finalized block.
    Finalized,
    /// The most recent safe head.
    Safe,
    /// The first block of the chain.
    Earliest,
    /// The block under construction, not yet part of the chain.
    Pending,
    /// The canonical block at this height.
    Number(u64),
}

/// A block identifier: a hash, or a number or tag.
#[derive(Clone, Copy, Debug, PartialEq, Eq, Structural)]
pub enum BlockId {
    Hash(B256),
    Number(BlockNumberOrTag),
}

impl BlockId {
    /// The identifier used when a request names no block.
    pub open spec fn spec_latest() -> BlockId {
        BlockId::Number(BlockNumberOrTag::Latest)
    }

    /// The identifier used when a request names no block.
    pub fn latest() -> (r: BlockId)
        ensures
            r == BlockId::spec_latest(),
    {
        BlockId::Number(BlockNumberOrTag::Latest)
    }

    /// The identifier of the canonical block at height `n`.
    pub fn number(n: u64) -> (r: BlockId)
        ensures
            r == BlockId::Number(BlockNumberOrTag::Number(n)),
    {
        BlockId::Number(BlockNumberOrTag::Number(n))
    }

    /// The identifier of the block with hash `h`.
    pub fn hash(h: B256) -> (r: BlockId)
        ensures
            r == BlockId::Hash(h),
    {
        BlockId::Hash(h)
    }
}

/// The header fields this crate reads, together with the block's hash.
#[derive(Clone, Copy, Debug, PartialEq, Eq, Structural)]
pub struct SealedHeader {
    pub number: u64,
    pub hash: B256,
    pub base_fee_per_gas: Option<u64>,
    pub excess_blob_gas: Option<u64>,
    pub timestamp: u64,
}

/// A transaction with its hash and recovered signer. The payload `T` is carried
/// through untouched.
#[derive(Clone, Debug)]
pub struct RecoveredTx<T> {
    pub tx_hash: B256,
    pub signer: Address,
    pub tx: T,
}

/// A block: its header and its transactions in on-chain order.
#[derive(Clone, Debug)]
pub struct RecoveredBlock<T> {
    pub header: SealedHeader,
    pub transactions: Vec<RecoveredTx<T>>,
}

/// Where a transaction sits: derived on demand from its block and position,
/// never stored.
#[derive(Clone, Copy, Debug, PartialEq, Eq, Structural)]
pub struct TransactionMeta {
    pub tx_hash: B256,
    pub index: u64,
    pub block_hash: B256,
    pub block_number: u64,
    pub base_fee: Option<u64>,
    pub excess_blob_gas: Option<u64>,
    pub timestamp: u64,
}

/// The metadata of the transaction with hash `tx_hash` at position `index` of
/// the block with header `header`.
pub open spec fn spec_transaction_meta(header: SealedHeader, tx_hash: B256, index: int) -> TransactionMeta {
    TransactionMeta {
        tx_hash,
        index: index as u64,
        block_hash: header.hash,
        block_number: header.number,
        base_fee: header.base_fee_per_gas,
        excess_blob_gas: header.excess_blob_gas,
        timestamp: header.timestamp,
    }
}

/// Builds the metadata of one transaction from its block's constants, its hash
/// and its position.
pub fn transaction_meta(header: &SealedHeader, tx_hash: B256, index: u64) -> (meta: TransactionMeta)
    ensures
        meta == spec_transaction_meta(*header, tx_hash, index as int),
{
    TransactionMeta {
        tx_hash,
        index,
        block_hash: header.hash,
        block_number: header.number,
        base_fee: header.base_fee_per_gas,
        excess_blob_gas: header.excess_blob_gas,
        timestamp: header.timestamp,
    }
}

/// Whether `number` is the height of the chain's first block.
pub open spec fn spec_is_genesis(number: u64) -> bool {
    number == 0
}

/// Whether `number` is the height of the chain's first block.
pub fn is_genesis(number: u64) -> (r: bool)
    ensures
        r == spec_is_genesis(number),
{
    number == 0
}

/// Whether every transaction of `block` has its stored receipt: there are as
/// many receipts as transactions, so that the two at one position belong to the
/// same execution.
pub open spec fn is_paired<T, R>(block: RecoveredBlock<T>, receipts: Vec<R>) -> bool {
    block.transactions@.len() == receipts@.len()
}

/// Two blocks with the same header and the same transactions in the same
/// order.
pub open spec fn same_block<T>(a: RecoveredBlock<T>, b: RecoveredBlock<T>) -> bool {
    a.header == b.header && a.transactions@ == b.transactions@
}

} // verus!
