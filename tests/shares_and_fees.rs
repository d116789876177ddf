use mango_blender::error::BlenderError;
use mango_blender::fees::{split_fee, FeeSplit};
use mango_blender::fixed_point::{Fixed, FIXED_ONE};
use mango_blender::operations::{asset_deposit_value, compute_deposit, compute_withdraw, DepositPlan};
use mango_blender::shares::{calculate_iou_burn_amount, calculate_iou_mint_amount};

fn num(n: u64) -> Fixed {
    Fixed::from_num(n)
}

#[test]
fn bootstrap_mint_is_whole_part_of_deposit() {
    let deposit = Fixed::from_bits(1234 * FIXED_ONE + FIXED_ONE / 2);
    assert_eq!(calculate_iou_mint_amount(deposit, num(77), Fixed::zero()), Ok(1234));
    assert_eq!(calculate_iou_mint_amount(deposit, Fixed::zero(), Fixed::zero()), Ok(1234));
    assert_eq!(calculate_iou_mint_amount(num(0), num(5), Fixed::zero()), Ok(0));
}

#[test]
fn bootstrap_mint_of_negative_value_fails() {
    let deposit = Fixed::from_bits(-FIXED_ONE);
    assert_eq!(
        calculate_iou_mint_amount(deposit, num(1), Fixed::zero()),
        Err(BlenderError::MathError)
    );
}

#[test]
fn mint_is_proportional() {
    let minted = calculate_iou_mint_amount(num(10), num(90), num(900)).unwrap();
    assert_eq!(minted, 100);
    // 100 of 1000 tokens: the 10% that 10 adds to a pool then worth 100.
    assert_eq!(minted * 10, 900 + minted);
}

#[test]
fn mint_rounds_down_and_burn_rounds_up() {
    assert_eq!(calculate_iou_mint_amount(num(7), num(3), num(5)), Ok(11));
    assert_eq!(calculate_iou_burn_amount(num(7), num(3), num(5)), Ok(12));
}

#[test]
fn burn_covers_mint_for_same_value() {
    let cases: [(u64, u64, u64); 5] =
        [(10, 90, 900), (7, 3, 5), (1, 3, 1000), (500, 1_000_000, 123_456_789), (3, 7, 1)];
    for (v, p, s) in cases {
        let m = calculate_iou_mint_amount(num(v), num(p), num(s)).unwrap();
        let b = calculate_iou_burn_amount(num(v), num(p), num(s)).unwrap();
        assert!(m <= b && b <= m + 1, "v={} p={} s={} mint={} burn={}", v, p, s, m, b);
    }
}

#[test]
fn burn_is_exact_ceiling_for_large_supply() {
    let shares = (1u64 << 48) + 3;
    assert_eq!(calculate_iou_mint_amount(num(1), num(3), num(shares)), Ok(93824992236886));
    assert_eq!(calculate_iou_burn_amount(num(1), num(3), num(shares)), Ok(93824992236887));
    let shares = 3u64 << 50;
    assert_eq!(calculate_iou_mint_amount(num(1), num(3), num(shares)), Ok(1 << 50));
    assert_eq!(calculate_iou_burn_amount(num(1), num(3), num(shares)), Ok(1 << 50));
}

#[test]
fn burn_covers_mint_for_large_supplies() {
    let cases: [(u64, u64, u64); 4] = [
        (1, 3, 3 << 48),
        (7, 11, (1 << 60) + 5),
        (123_456, 987_654_321, 1 << 61),
        (5, 1_000_000_007, u64::MAX),
    ];
    for (v, p, s) in cases {
        let m = calculate_iou_mint_amount(num(v), num(p), num(s)).unwrap();
        let b = calculate_iou_burn_amount(num(v), num(p), num(s)).unwrap();
        assert!(m <= b && b <= m + 1, "v={} p={} s={} mint={} burn={}", v, p, s, m, b);
    }
}

#[test]
fn negative_exact_results_fail() {
    // A tiny deposit into a pool worth -2: the exact mint is below zero.
    assert_eq!(
        calculate_iou_mint_amount(Fixed::from_bits(1), Fixed::from_bits(-2 * FIXED_ONE), num(1)),
        Err(BlenderError::MathError)
    );
    // A negative product against a positive pool.
    assert_eq!(
        calculate_iou_mint_amount(Fixed::from_bits(-1), num(3), num(1)),
        Err(BlenderError::MathError)
    );
    // Withdrawing -1 from a pool worth 3 with 3 tokens out: the exact burn is -1.
    assert_eq!(
        calculate_iou_burn_amount(Fixed::from_bits(-FIXED_ONE), num(3), num(3)),
        Err(BlenderError::MathError)
    );
    assert_eq!(
        calculate_iou_burn_amount(num(1), Fixed::from_bits(-FIXED_ONE), num(3)),
        Err(BlenderError::MathError)
    );
}

#[test]
fn withdraw_never_exceeds_holding() {
    let shares = (1u64 << 48) + 3;
    assert_eq!(
        compute_withdraw(1, num(3), shares, 93824992236886),
        Err(BlenderError::InsufficientShares)
    );
    assert_eq!(compute_withdraw(1, num(3), shares, 93824992236887), Ok(93824992236887));
}

#[test]
fn burn_is_exact_on_clean_ratio() {
    assert_eq!(calculate_iou_burn_amount(num(10), num(100), num(1000)), Ok(100));
}

#[test]
fn mint_against_empty_pool_fails() {
    assert_eq!(
        calculate_iou_mint_amount(num(10), Fixed::zero(), num(900)),
        Err(BlenderError::MathError)
    );
    assert_eq!(
        calculate_iou_burn_amount(num(10), Fixed::zero(), num(900)),
        Err(BlenderError::MathError)
    );
}

#[test]
fn mint_against_negative_pool_fails() {
    let pool = Fixed::from_bits(-90 * FIXED_ONE);
    assert_eq!(calculate_iou_mint_amount(num(10), pool, num(900)), Err(BlenderError::MathError));
}

#[test]
fn mint_overflowing_u64_fails() {
    assert_eq!(
        calculate_iou_mint_amount(num(u64::MAX), num(1), num(2)),
        Err(BlenderError::MathError)
    );
}

#[test]
fn fee_split_clean_division() {
    let s = split_fee(10000, 25).unwrap();
    assert_eq!(s, FeeSplit { net_forwarded: 9975, fee_amount: 25 });
    assert_eq!(s.net_forwarded + s.fee_amount, 10000);
}

#[test]
fn fee_split_leaves_dust() {
    let s = split_fee(10001, 25).unwrap();
    assert_eq!(s, FeeSplit { net_forwarded: 9975, fee_amount: 25 });
    assert_eq!(10001 - (s.net_forwarded + s.fee_amount), 1);
}

#[test]
fn fee_split_edges() {
    assert_eq!(split_fee(9999, 25), Ok(FeeSplit { net_forwarded: 0, fee_amount: 0 }));
    assert_eq!(split_fee(50000, 0), Ok(FeeSplit { net_forwarded: 50000, fee_amount: 0 }));
    assert_eq!(split_fee(50000, 10000), Ok(FeeSplit { net_forwarded: 0, fee_amount: 50000 }));
    assert_eq!(
        split_fee(u64::MAX, 255),
        Ok(FeeSplit { net_forwarded: 1844674407370955 * 9745, fee_amount: 1844674407370955 * 255 })
    );
    assert_eq!(split_fee(10000, 10001), Err(BlenderError::InvalidFeeRate));
}

#[test]
fn deposit_plan_mints_on_whole_quantity() {
    assert_eq!(
        compute_deposit(20000, 25, num(180000), 1_800_000),
        Ok(DepositPlan { mint_amount: 200000, net_forwarded: 19950, fee_amount: 50 })
    );
}

#[test]
fn first_deposit_plan() {
    assert_eq!(
        compute_deposit(10001, 25, Fixed::zero(), 0),
        Ok(DepositPlan { mint_amount: 10001, net_forwarded: 9975, fee_amount: 25 })
    );
}

#[test]
fn deposit_errors() {
    assert_eq!(compute_deposit(0, 25, num(100), 100), Err(BlenderError::ZeroAmount));
    assert_eq!(compute_deposit(100, 10001, num(100), 100), Err(BlenderError::InvalidFeeRate));
    assert_eq!(compute_deposit(100, 25, Fixed::zero(), 100), Err(BlenderError::MathError));
}

#[test]
fn withdraw_burns_proportional_share() {
    assert_eq!(compute_withdraw(10, num(100), 1000, 100), Ok(100));
    assert_eq!(compute_withdraw(7, num(3), 5, 12), Ok(12));
}

#[test]
fn withdraw_of_nothing_fails() {
    assert_eq!(compute_withdraw(0, num(100), 1000, 500), Err(BlenderError::ZeroAmount));
}

#[test]
fn withdraw_beyond_balance_fails() {
    assert_eq!(compute_withdraw(10, num(100), 1000, 99), Err(BlenderError::InsufficientShares));
    assert_eq!(compute_withdraw(7, num(3), 5, 11), Err(BlenderError::InsufficientShares));
}

#[test]
fn withdraw_from_empty_pool_fails() {
    assert_eq!(compute_withdraw(10, Fixed::zero(), 1000, 1000), Err(BlenderError::MathError));
}

#[test]
fn asset_deposit_is_valued_at_price() {
    let price = Fixed::from_bits(3 * FIXED_ONE / 2);
    assert_eq!(asset_deposit_value(price, 4), Ok(num(6)));
    assert_eq!(asset_deposit_value(price, 0), Err(BlenderError::ZeroAmount));
    assert_eq!(
        asset_deposit_value(Fixed::from_bits(i128::MAX), 2),
        Err(BlenderError::MathError)
    );
}
