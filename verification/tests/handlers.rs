use aquasol::asset::Asset;
use aquasol::cpi::{AccountRole, TokenInstruction};
use aquasol::errors::ErrorCode;
use aquasol::instructions::claim_yield::{claim_yield_computable, claim_yield_handler};
use aquasol::instructions::init_registry::init_registry_handler;
use aquasol::instructions::list_asset::{list_asset_computable, list_asset_handler};
use aquasol::instructions::mint_pt::{mint_pt_computable, mint_pt_handler};
use aquasol::instructions::redeem::{redeem_computable, redeem_handler};
use aquasol::instructions::strip::{strip_computable, strip_handler};
use aquasol::pubkey::Pubkey;
use aquasol::user_yt_position::UserYtPosition;

fn key(b: u8) -> Pubkey {
    Pubkey { bytes: [b; 32] }
}

fn sample_asset() -> Asset {
    Asset {
        name: String::from("stSOL"),
        token_mint: key(1),
        pt_mint: key(2),
        yt_mint: key(3),
        total_tokens: 500,
        is_active: true,
        oracle: key(0),
        yield_index: 7,
        maturity_ts: 1000,
        bump: 254,
        expected_apy: 2,
        duration: 1000,
    }
}

fn sample_position() -> UserYtPosition {
    UserYtPosition { user: key(9), total_yt_tokens: 10, accrued_yield: 5, last_update_ts: 100, bump: 253 }
}

#[test]
fn init_registry_sets_admin_fee_and_commission() {
    let r = init_registry_handler(key(4), key(5), 200);
    assert_eq!(r.admin, key(4));
    assert_eq!(r.fee_account, key(5));
    assert_eq!(r.liquid_mint, key(0));
    assert_eq!(r.commission_bps, 300);
    assert_eq!(r.bump, 200);
}

#[test]
fn list_asset_sets_every_field() {
    let a = list_asset_handler(String::from("mSOL"), key(2), key(3), 12, 99, 3600, key(1), 250, 1_700_000_000);
    assert_eq!(a.name, "mSOL");
    assert_eq!(a.token_mint, key(1));
    assert_eq!(a.pt_mint, key(2));
    assert_eq!(a.yt_mint, key(3));
    assert_eq!(a.expected_apy, 12);
    assert_eq!(a.yield_index, 99);
    assert_eq!(a.duration, 3600);
    assert_eq!(a.maturity_ts, 1_700_003_600);
    assert_eq!(a.total_tokens, 0);
    assert!(a.is_active);
    assert_eq!(a.oracle, key(0));
    assert_eq!(a.bump, 250);
}

#[test]
fn list_asset_maturity_overflow_is_detected() {
    assert!(list_asset_computable(10, i64::MAX - 10));
    assert!(!list_asset_computable(11, i64::MAX - 10));
    assert!(!list_asset_computable(-1, i64::MIN));
    assert!(list_asset_computable(-5, 0));
}

#[test]
fn strip_refuses_zero_amount() {
    let mut a = sample_asset();
    let mut p = UserYtPosition::default();
    assert_eq!(strip_handler(&mut a, &mut p, key(9), 1, 0, 10), Err(ErrorCode::InvalidAmount));
    assert_eq!(a, sample_asset());
    assert_eq!(p, UserYtPosition::default());
}

#[test]
fn strip_refuses_inactive_asset() {
    let mut a = sample_asset();
    a.is_active = false;
    let mut p = UserYtPosition::default();
    assert_eq!(strip_handler(&mut a, &mut p, key(9), 1, 5, 10), Err(ErrorCode::Inactive));
    assert_eq!(a.total_tokens, 500);
}

#[test]
fn strip_refuses_at_and_after_maturity() {
    let mut a = sample_asset();
    let mut p = UserYtPosition::default();
    assert_eq!(strip_handler(&mut a, &mut p, key(9), 1, 5, 1000), Err(ErrorCode::Expired));
    assert_eq!(strip_handler(&mut a, &mut p, key(9), 1, 5, 2000), Err(ErrorCode::Expired));
    assert_eq!(a, sample_asset());
}

#[test]
fn strip_deposits_and_mints_both_tokens() {
    let mut a = sample_asset();
    let mut p = UserYtPosition::default();
    let ix = strip_handler(&mut a, &mut p, key(9), 17, 40, 999).unwrap();
    assert_eq!(
        ix,
        vec![
            TokenInstruction::Transfer {
                from: AccountRole::UserTokenAccount,
                to: AccountRole::Vault,
                authority: AccountRole::User,
                amount: 40
            },
            TokenInstruction::MintTo {
                mint: AccountRole::PtMint,
                to: AccountRole::UserPtAccount,
                authority: AccountRole::Registry,
                amount: 40
            },
            TokenInstruction::MintTo {
                mint: AccountRole::YtMint,
                to: AccountRole::UserYtAccount,
                authority: AccountRole::Registry,
                amount: 40
            },
        ]
    );
    assert_eq!(a.total_tokens, 540);
    assert_eq!(p, UserYtPosition { user: key(9), total_yt_tokens: 40, accrued_yield: 0, last_update_ts: 999, bump: 17 });
}

#[test]
fn strip_overflow_is_detected() {
    let mut a = sample_asset();
    a.total_tokens = u64::MAX - 3;
    let p = UserYtPosition::default();
    assert!(strip_computable(&a, &p, 3, 10));
    assert!(!strip_computable(&a, &p, 4, 10));
    // A refused strip never aborts.
    assert!(strip_computable(&a, &p, 4, 1000));
}

#[test]
fn redeem_refuses_before_and_at_maturity() {
    let mut a = sample_asset();
    assert_eq!(redeem_handler(&mut a, 5, 1000), Err(ErrorCode::NotMatured));
    assert_eq!(redeem_handler(&mut a, 5, 10), Err(ErrorCode::NotMatured));
    assert_eq!(redeem_handler(&mut a, 0, 2000), Err(ErrorCode::InvalidAmount));
    a.is_active = false;
    assert_eq!(redeem_handler(&mut a, 5, 2000), Err(ErrorCode::Inactive));
}

#[test]
fn redeem_burns_and_pays_after_maturity() {
    let mut a = sample_asset();
    let ix = redeem_handler(&mut a, 200, 1001).unwrap();
    assert_eq!(
        ix,
        vec![
            TokenInstruction::Burn {
                mint: AccountRole::PtMint,
                from: AccountRole::UserPtAccount,
                authority: AccountRole::Registry,
                amount: 200
            },
            TokenInstruction::Transfer {
                from: AccountRole::Vault,
                to: AccountRole::UserTokenAccount,
                authority: AccountRole::Registry,
                amount: 200
            },
        ]
    );
    assert_eq!(a.total_tokens, 300);
}

#[test]
fn redeem_more_than_held_is_detected() {
    let a = sample_asset();
    assert!(redeem_computable(&a, 500, 1001));
    assert!(!redeem_computable(&a, 501, 1001));
    assert!(redeem_computable(&a, 501, 1000));
}

#[test]
fn strip_then_redeem_restores_the_asset() {
    let mut a = sample_asset();
    let mut p = UserYtPosition::default();
    strip_handler(&mut a, &mut p, key(9), 1, 123, 500).unwrap();
    redeem_handler(&mut a, 123, 1500).unwrap();
    assert_eq!(a, sample_asset());
}

#[test]
fn claim_refuses_inactive_and_stale_clock() {
    let mut a = sample_asset();
    let mut p = sample_position();
    assert_eq!(claim_yield_handler(&a, &mut p, 100), Err(ErrorCode::InvalidTimestamp));
    assert_eq!(claim_yield_handler(&a, &mut p, 50), Err(ErrorCode::InvalidTimestamp));
    a.is_active = false;
    assert_eq!(claim_yield_handler(&a, &mut p, 600), Err(ErrorCode::Inactive));
    assert_eq!(p, sample_position());
}

#[test]
fn claim_before_maturity_pays_accrued_plus_earned() {
    // weight 10 * 2 = 20; remaining at 100: 20 * 900 / 1000 = 18; at 600: 20 * 400 / 1000 = 8.
    let a = sample_asset();
    let mut p = sample_position();
    let ix = claim_yield_handler(&a, &mut p, 600).unwrap();
    assert_eq!(
        ix,
        vec![TokenInstruction::Transfer {
            from: AccountRole::Vault,
            to: AccountRole::UserTokenAccount,
            authority: AccountRole::Registry,
            amount: 15
        }]
    );
    assert_eq!(p.accrued_yield, 0);
    assert_eq!(p.last_update_ts, 600);
    assert_eq!(p.total_yt_tokens, 10);
}

#[test]
fn claim_after_maturity_pays_all_that_remained() {
    let a = sample_asset();
    let mut p = sample_position();
    let ix = claim_yield_handler(&a, &mut p, 5000).unwrap();
    assert_eq!(
        ix,
        vec![TokenInstruction::Transfer {
            from: AccountRole::Vault,
            to: AccountRole::UserTokenAccount,
            authority: AccountRole::Registry,
            amount: 23
        }]
    );
    assert_eq!(p.last_update_ts, 5000);
}

#[test]
fn claim_with_nothing_earned_pays_nothing() {
    let a = sample_asset();
    let mut p = sample_position();
    p.accrued_yield = 0;
    // remaining at 100 is 18 and at 101 is 20 * 899 / 1000 = 17: one unit earned.
    assert_eq!(claim_yield_handler(&a, &mut p, 101).unwrap().len(), 1);
    // remaining at 101 is 17 and at 102 is 20 * 898 / 1000 = 17: nothing earned.
    assert_eq!(claim_yield_handler(&a, &mut p, 102).unwrap(), vec![]);
    assert_eq!(p.last_update_ts, 102);
}

#[test]
fn two_claims_pay_what_one_claim_pays() {
    let a = sample_asset();
    let mut once = sample_position();
    let mut twice = sample_position();
    let total_once = match claim_yield_handler(&a, &mut once, 5000).unwrap()[0] {
        TokenInstruction::Transfer { amount, .. } => amount,
        _ => panic!("expected a transfer"),
    };
    let mut total_twice = 0;
    for t in [333, 5000] {
        for op in claim_yield_handler(&a, &mut twice, t).unwrap() {
            if let TokenInstruction::Transfer { amount, .. } = op {
                total_twice += amount;
            }
        }
    }
    assert_eq!(total_once, total_twice);
    assert_eq!(total_once, 5 + 18);
}

#[test]
fn claim_aborts_are_detected() {
    let mut a = sample_asset();
    let p = sample_position();
    assert!(claim_yield_computable(&a, &p, 600));
    a.duration = 0;
    assert!(!claim_yield_computable(&a, &p, 600));
    // Refused claims never abort.
    assert!(claim_yield_computable(&a, &p, 100));
    let mut a = sample_asset();
    a.expected_apy = u64::MAX;
    assert!(!claim_yield_computable(&a, &p, 600));
    let mut p2 = sample_position();
    p2.accrued_yield = u64::MAX;
    assert!(!claim_yield_computable(&sample_asset(), &p2, 600));
}

#[test]
fn mint_pt_takes_deposit_mints_and_swaps() {
    let mut a = sample_asset();
    a.maturity_ts = 864_000;
    a.expected_apy = 3;
    // 3 * 864000 / 86400 = 30; 1000 / 31 = 32.
    let ix = mint_pt_handler(&a, 1000, 0).unwrap();
    assert_eq!(
        ix,
        vec![
            TokenInstruction::Transfer {
                from: AccountRole::UserTokenAccount,
                to: AccountRole::Vault,
                authority: AccountRole::User,
                amount: 1000
            },
            TokenInstruction::MintTo {
                mint: AccountRole::YtMint,
                to: AccountRole::YtEscrow,
                authority: AccountRole::Registry,
                amount: 1000
            },
            TokenInstruction::MintTo {
                mint: AccountRole::PtMint,
                to: AccountRole::UserPtAccount,
                authority: AccountRole::Registry,
                amount: 1000
            },
            TokenInstruction::Swap { amount: 32, a_to_b: true },
        ]
    );
}

#[test]
fn mint_pt_refusals() {
    let mut a = sample_asset();
    assert_eq!(mint_pt_handler(&a, 0, 10), Err(ErrorCode::InvalidAmount));
    assert_eq!(mint_pt_handler(&a, 10, 1000), Err(ErrorCode::Expired));
    a.is_active = false;
    assert_eq!(mint_pt_handler(&a, 10, 10), Err(ErrorCode::Inactive));
}

#[test]
fn mint_pt_aborts_are_detected() {
    let mut a = sample_asset();
    assert!(mint_pt_computable(&a, 10, 0));
    a.expected_apy = u64::MAX;
    assert!(!mint_pt_computable(&a, 10, 0));
    let mut b = sample_asset();
    b.maturity_ts = i64::MAX;
    assert!(!mint_pt_computable(&b, 10, -10));
    b.expected_apy = 0;
    assert!(mint_pt_computable(&b, 10, 10));
}

#[test]
fn at_maturity_neither_strip_nor_redeem_is_open() {
    for now in [999, 1000, 1001] {
        let mut a = sample_asset();
        let mut p = UserYtPosition::default();
        let stripped = strip_handler(&mut a, &mut p, key(9), 1, 5, now).is_ok();
        let mut b = sample_asset();
        let redeemed = redeem_handler(&mut b, 5, now).is_ok();
        assert!(!(stripped && redeemed));
    }
}

fn vault_net_inflow(ops: &[TokenInstruction]) -> i128 {
    let mut net: i128 = 0;
    for op in ops {
        if let TokenInstruction::Transfer { from, to, amount, .. } = *op {
            if to == AccountRole::Vault {
                net += amount as i128;
            }
            if from == AccountRole::Vault {
                net -= amount as i128;
            }
        }
    }
    net
}

#[test]
fn vault_flows_match_recorded_totals() {
    let mut a = sample_asset();
    let mut p = UserYtPosition::default();
    let before = a.total_tokens as i128;
    let ops = strip_handler(&mut a, &mut p, key(9), 1, 77, 10).unwrap();
    assert_eq!(vault_net_inflow(&ops), a.total_tokens as i128 - before);
    let before = a.total_tokens as i128;
    let ops = redeem_handler(&mut a, 60, 2000).unwrap();
    assert_eq!(vault_net_inflow(&ops), a.total_tokens as i128 - before);
    assert_eq!(a.total_tokens, 517);
}

#[test]
fn a_second_claim_at_the_same_time_is_refused() {
    let a = sample_asset();
    let mut p = sample_position();
    claim_yield_handler(&a, &mut p, 600).unwrap();
    assert_eq!(claim_yield_handler(&a, &mut p, 600), Err(ErrorCode::InvalidTimestamp));
    assert_eq!(claim_yield_handler(&a, &mut p, 599), Err(ErrorCode::InvalidTimestamp));
}
