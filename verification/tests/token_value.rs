use aquasol::errors::ErrorCode;
use aquasol::utils::token_value::{calculate_pt_token_value, calculate_yt_token_value};

#[test]
fn pt_value_discounts_by_days_left() {
    // 3 * 864000 / 86400 = 30, so the divisor is 31.
    assert_eq!(calculate_pt_token_value(1000, 864_000, 3, 0), 32);
    // Less than a day of rate left: no discount.
    assert_eq!(calculate_pt_token_value(1000, 86_399, 1, 0), 1000);
}

#[test]
fn pt_value_at_maturity_is_face_value() {
    assert_eq!(calculate_pt_token_value(777, 5000, 50, 5000), 777);
}

#[test]
fn pt_value_grows_towards_maturity() {
    let early = calculate_pt_token_value(1000, 864_000, 3, 0);
    let late = calculate_pt_token_value(1000, 864_000, 3, 432_000);
    assert!(early <= late);
    assert_eq!(late, 1000 / 16);
}

#[test]
fn yt_value_is_amount_rate_and_days_left() {
    // 10 * 2 * 172800 / 86400 = 40.
    assert_eq!(calculate_yt_token_value(10, 172_800, 2, 0), 40);
    assert_eq!(calculate_yt_token_value(10, 172_800, 2, 172_800), 0);
}

#[test]
fn yt_value_shrinks_towards_maturity() {
    let early = calculate_yt_token_value(10, 172_800, 2, 0);
    let late = calculate_yt_token_value(10, 172_800, 2, 86_400);
    assert!(late <= early);
    assert_eq!(late, 20);
}

#[test]
fn error_codes_and_messages() {
    assert_eq!(ErrorCode::InvalidAmount.code(), 6000);
    assert_eq!(ErrorCode::Inactive.code(), 6001);
    assert_eq!(ErrorCode::Expired.code(), 6002);
    assert_eq!(ErrorCode::NotMatured.code(), 6003);
    assert_eq!(ErrorCode::InvalidTimestamp.code(), 6004);
    assert_eq!(ErrorCode::InvalidAmount.message(), "Invalid amount");
    assert_eq!(ErrorCode::Inactive.message(), "Asset is inactive");
    assert_eq!(ErrorCode::Expired.message(), "Asset has expired");
    assert_eq!(ErrorCode::NotMatured.message(), "Asset is not matured");
    assert_eq!(ErrorCode::InvalidTimestamp.message(), "Invalid timestamp");
}
