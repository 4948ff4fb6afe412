//! Value types and the word map.

use eth_rpc_helpers::primitives::{Address, BlockId, BlockNumberOrTag, B256, U256};
use eth_rpc_helpers::word_map::WordMap;

fn bytes(hi: u128, lo: u128) -> [u8; 32] {
    let mut out = [0u8; 32];
    out[..16].copy_from_slice(&hi.to_be_bytes());
    out[16..].copy_from_slice(&lo.to_be_bytes());
    out
}

#[test]
fn zero_values_are_all_zero_bytes() {
    assert_eq!(B256::zero(), B256 { hi: 0, lo: 0 });
    assert_eq!(U256::zero(), U256 { hi: 0, lo: 0 });
    assert_eq!(bytes(B256::zero().hi, B256::zero().lo), alloy_primitives::B256::ZERO.0);
    assert_eq!(U256::zero().to_be_bytes(), B256::zero());
}

#[test]
fn numbers_keep_their_value_as_bytes() {
    let n = U256::from_u64(0x0102_0304_0506_0708);
    assert_eq!(n, U256 { hi: 0, lo: 0x0102_0304_0506_0708 });
    let word = n.to_be_bytes();
    assert_eq!(
        bytes(word.hi, word.lo),
        alloy_primitives::U256::from(0x0102_0304_0506_0708u64).to_be_bytes::<32>()
    );
    let big = U256 { hi: u128::MAX, lo: 1 };
    let expected: alloy_primitives::U256 =
        (alloy_primitives::U256::from(u128::MAX) << 128usize) + alloy_primitives::U256::from(1u8);
    let word = big.to_be_bytes();
    assert_eq!(bytes(word.hi, word.lo), expected.to_be_bytes::<32>());
}

#[test]
fn address_words_differ_when_addresses_do() {
    let a = Address { hi: 1, lo: 2 };
    let b = Address { hi: 2, lo: 1 };
    assert_ne!(a.into_word(), b.into_word());
    assert_eq!(a.into_word(), Address { hi: 1, lo: 2 }.into_word());
    assert_eq!(Address { hi: u32::MAX, lo: u128::MAX }.into_word(), B256 { hi: u32::MAX as u128, lo: u128::MAX });
}

#[test]
fn block_identifiers() {
    assert_eq!(BlockId::latest(), BlockId::Number(BlockNumberOrTag::Latest));
    assert_eq!(BlockId::number(7), BlockId::Number(BlockNumberOrTag::Number(7)));
    assert_eq!(BlockId::hash(B256 { hi: 3, lo: 4 }), BlockId::Hash(B256 { hi: 3, lo: 4 }));
    assert_ne!(BlockId::number(0), BlockId::Number(BlockNumberOrTag::Earliest));
}

#[test]
fn word_map_returns_what_was_stored_last() {
    let mut map = WordMap::new();
    let k1 = B256 { hi: 0, lo: 1 };
    let k2 = B256 { hi: 1, lo: 0 };
    assert_eq!(map.get(k1), None);
    map.insert(k1, 10u64);
    map.insert(k2, 20u64);
    assert_eq!(map.get(k1), Some(&10));
    assert_eq!(map.get(k2), Some(&20));
    map.insert(k1, 11u64);
    assert_eq!(map.get(k1), Some(&11));
    assert_eq!(map.get(k2), Some(&20));
    assert_eq!(map.get(B256 { hi: 1, lo: 1 }), None);
}
