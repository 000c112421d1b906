use raiden_channels::channel::fees::{
    calculate_imbalance_fees, linspace, update_fee_schedule_after_balance_change,
};
use raiden_channels::initiator::{calculate_fee_margin, calculate_safe_amount_with_fee};
use raiden_channels::primitives::{Address, H256, U256};
use raiden_channels::text::{with_amount, with_hashes, with_short_hash};
use raiden_channels::types::state::{
    CanonicalIdentifier, ChannelState, MediationFeeConfig, TransactionExecutionStatus,
    TransactionResult,
};

fn amount(x: u64) -> U256 {
    U256::from_u64(x)
}

fn values(v: &Vec<U256>) -> Vec<U256> {
    v.clone()
}

#[test]
fn linspace_includes_both_ends_when_the_range_divides() {
    let points = linspace(amount(0), amount(10), amount(3));
    assert_eq!(values(&points), vec![amount(0), amount(5), amount(10)]);
}

#[test]
fn linspace_ends_at_stop_when_the_range_does_not_divide() {
    let points = linspace(amount(0), amount(10), amount(4));
    assert_eq!(values(&points), vec![amount(0), amount(3), amount(6), amount(10)]);
    let points = linspace(amount(7), amount(7), amount(2));
    assert_eq!(values(&points), vec![amount(7), amount(7)]);
}

#[test]
fn imbalance_fees_absent_without_fee_or_capacity() {
    assert!(calculate_imbalance_fees(amount(100), amount(0)).is_none());
    assert!(calculate_imbalance_fees(amount(0), amount(3000)).is_none());
    assert!(calculate_imbalance_fees(U256::max_value(), amount(2)).is_none());
}

#[test]
fn imbalance_fees_of_a_unit_channel() {
    let points = calculate_imbalance_fees(amount(1), amount(2_000_000)).expect("points");
    assert_eq!(points, vec![(amount(0), amount(2)), (amount(1), amount(2))]);
}

#[test]
fn fee_margin_formula() {
    assert_eq!(calculate_fee_margin(amount(10_000), amount(0)), amount(0));
    assert_eq!(calculate_fee_margin(amount(10_000), amount(100)), amount(8));
    assert_eq!(calculate_fee_margin(amount(1_999), amount(33)), amount(0));
}

#[test]
fn safe_amount_with_fee_formula() {
    assert_eq!(calculate_safe_amount_with_fee(amount(10_000), amount(100)), amount(10_108));
    assert_eq!(calculate_safe_amount_with_fee(amount(10_000), amount(0)), amount(10_000));
}

#[test]
fn u256_arithmetic() {
    assert_eq!(amount(7).checked_add(amount(8)), Some(amount(15)));
    assert_eq!(U256::max_value().checked_add(amount(1)), None);
    assert_eq!(amount(6).mul(amount(7)), amount(42));
    assert_eq!(amount(43).div(amount(7)), amount(6));
    assert_eq!(amount(3).pow(amount(4)), amount(81));
    assert_eq!(amount(9).saturating_sub(amount(10)), amount(0));
    assert_eq!(U256::max_value().saturating_add(amount(1)), U256::max_value());
    let (low, overflow) = U256::max_value().overflowing_mul(amount(2));
    assert!(overflow);
    assert_eq!(low, U256::max_value().sub(amount(1)));
    let (product, overflow) = amount(1 << 40).overflowing_mul(amount(1 << 40));
    assert!(!overflow);
    assert_eq!(product, U256::from_u128(1u128 << 80));
}

#[test]
fn u256_big_endian_bytes() {
    let bytes = U256::from_u64(0x0102).to_be_bytes();
    assert_eq!(bytes[30], 1);
    assert_eq!(bytes[31], 2);
    assert!(bytes[..30].iter().all(|b| *b == 0));
}

#[test]
fn amounts_in_decimal() {
    assert_eq!(with_amount("a ", amount(0), " b"), "a 0 b");
    assert_eq!(with_amount("", amount(12345), ""), "12345");
    assert_eq!(
        with_amount("", U256::max_value(), ""),
        "115792089237316195423570985008687907853269984665640564039457584007913129639935"
    );
}

#[test]
fn hashes_in_hexadecimal() {
    let mut bytes = [0u8; 32];
    bytes[0] = 0xab;
    bytes[1] = 0x01;
    bytes[30] = 0xfe;
    bytes[31] = 0x10;
    let h = H256 { bytes };
    assert_eq!(with_short_hash("[", &h, "]"), "[0xab01…fe10]");
    let zero = H256::zero();
    let full = with_hashes("", &h, " ", &zero, "");
    assert_eq!(
        full,
        "0xab0100000000000000000000000000000000000000000000000000000000fe10 0x0000000000000000000000000000000000000000000000000000000000000000"
    );
}

fn empty_channel() -> ChannelState {
    ChannelState::new(
        CanonicalIdentifier {
            chain_identifier: 5,
            token_network_address: Address { bytes: [1; 20] },
            channel_identifier: amount(1),
        },
        Address { bytes: [2; 20] },
        Address { bytes: [3; 20] },
        Address { bytes: [4; 20] },
        Address { bytes: [5; 20] },
        50,
        500,
        TransactionExecutionStatus {
            started_block_number: Some(1),
            finished_block_number: Some(2),
            result: Some(TransactionResult::Success),
        },
        MediationFeeConfig::new(),
    )
    .ok()
    .expect("channel")
}

#[test]
fn fee_schedule_of_an_empty_channel_has_no_penalty() {
    let mut channel = empty_channel();
    update_fee_schedule_after_balance_change(&mut channel, MediationFeeConfig::new());
    assert!(channel.fee_schedule.imbalance_penalty.is_none());
    assert_eq!(channel.fee_schedule.proportional, amount(4000));
}

#[test]
fn fee_schedule_of_a_unit_channel() {
    let mut channel = empty_channel();
    channel.our_state.contract_balance = amount(1);
    let mut config = MediationFeeConfig::new();
    config.token_to_proportional_imbalance_fee.insert(Address { bytes: [2; 20] }, amount(3_000_000));
    update_fee_schedule_after_balance_change(&mut channel, config);
    assert_eq!(
        channel.fee_schedule.imbalance_penalty,
        Some(vec![(amount(0), amount(3)), (amount(1), amount(3))])
    );
}

#[test]
fn channel_creation_needs_a_longer_settle_timeout() {
    let r = ChannelState::new(
        CanonicalIdentifier {
            chain_identifier: 5,
            token_network_address: Address { bytes: [1; 20] },
            channel_identifier: amount(1),
        },
        Address { bytes: [2; 20] },
        Address { bytes: [3; 20] },
        Address { bytes: [4; 20] },
        Address { bytes: [5; 20] },
        500,
        500,
        TransactionExecutionStatus {
            started_block_number: None,
            finished_block_number: None,
            result: None,
        },
        MediationFeeConfig::new(),
    );
    assert_eq!(r.err().map(|e| e.msg), Some("reveal_timeout(500) must be smaller than settle_timeout(500)".to_string()));
}
