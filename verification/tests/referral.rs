use stellarlend::referral::{
    ReferralContract, ReferralError, DEFAULT_REFEREE_DISCOUNT_BPS, DEFAULT_REWARD_BPS,
    TIER1_THRESHOLD, TIER2_THRESHOLD, TIER3_THRESHOLD,
};
use stellarlend::referral::compute_tier;

fn account(name: &str) -> String {
    format!("G{}", name)
}

fn initialized() -> (ReferralContract, String) {
    let mut contract = ReferralContract::new();
    let admin = account("ADMIN");
    contract.initialize(admin.clone()).unwrap();
    (contract, admin)
}

#[test]
fn test_initialize() {
    let mut contract = ReferralContract::new();
    let admin = account("ADMIN");
    let result = contract.initialize(admin.clone());
    assert!(result.is_ok());
    let config = contract.get_config();
    assert_eq!(config.admin, admin);
    assert_eq!(config.reward_bps, DEFAULT_REWARD_BPS);
}

#[test]
fn test_register_code() {
    let (mut contract, _admin) = initialized();
    let user = account("USER");
    let code = String::from("USER123");
    let result = contract.register_code(user.clone(), code.clone(), 0);
    assert!(result.is_ok());
    let affiliate = contract.get_affiliate_code(&user).unwrap();
    assert_eq!(affiliate.owner, user);
    assert_eq!(affiliate.code, code);
    assert!(affiliate.is_active);
}

#[test]
fn test_self_referral_fails() {
    let (mut contract, _admin) = initialized();
    let user = account("USER");
    let code = String::from("USER123");
    contract.register_code(user.clone(), code.clone(), 0).unwrap();
    let result = contract.refer(user.clone(), &code, 0);
    assert_eq!(result, Err(ReferralError::SelfReferral));
}

#[test]
fn test_refer_and_record_fee() {
    let (mut contract, _admin) = initialized();
    let referrer = account("REFERRER");
    let referee = account("REFEREE");
    let code = String::from("REF456");
    contract.register_code(referrer.clone(), code.clone(), 0).unwrap();
    contract.refer(referee.clone(), &code, 0).unwrap();
    let fee_amount = 10_000_000;
    let (reward, discount) = contract.record_fee(&referee, fee_amount).unwrap();
    assert!(reward > 0);
    assert!(discount > 0);
    let record = contract.get_referral_record(&referee).unwrap();
    assert_eq!(record.referrer, referrer);
    assert_eq!(record.referee, referee);
    assert_eq!(record.total_fees_generated, fee_amount);
}

#[test]
fn test_invalid_code() {
    let (mut contract, _admin) = initialized();
    let referee = account("REFEREE");
    let code = String::from("INVALID");
    let result = contract.refer(referee.clone(), &code, 0);
    assert_eq!(result, Err(ReferralError::InvalidCode));
}

#[test]
fn test_double_register_fails() {
    let (mut contract, _admin) = initialized();
    let referrer = account("REFERRER");
    let referee = account("REFEREE");
    let code = String::from("DOUBLE");
    contract.register_code(referrer.clone(), code.clone(), 0).unwrap();
    contract.refer(referee.clone(), &code, 0).unwrap();
    let result = contract.refer(referee.clone(), &code, 0);
    assert_eq!(result, Err(ReferralError::AlreadyRegistered));
}

#[test]
fn test_global_metrics() {
    let (mut contract, _admin) = initialized();
    let referrer = account("REFERRER");
    let referee = account("REFEREE");
    let code = String::from("METRICS");
    contract.register_code(referrer.clone(), code.clone(), 0).unwrap();
    contract.refer(referee.clone(), &code, 0).unwrap();
    contract.record_fee(&referee, 5_000_000).unwrap();
    let metrics = contract.get_global_metrics();
    assert_eq!(metrics.total_codes_created, 1);
    assert_eq!(metrics.total_referrals, 1);
    assert!(metrics.total_rewards_distributed > 0);
    assert_eq!(metrics.total_fees_generated, 5_000_000);
}

#[test]
fn initialize_twice_is_refused_and_keeps_admin() {
    let (mut contract, admin) = initialized();
    let other = account("OTHER");
    assert_eq!(contract.initialize(other), Err(ReferralError::AlreadyInitialized));
    assert_eq!(contract.get_config().admin, admin);
}

#[test]
fn uninitialized_config_uses_defaults_and_placeholder_admin() {
    let contract = ReferralContract::new();
    let config = contract.get_config();
    assert_eq!(config.admin, "_".repeat(70));
    assert_eq!(config.reward_bps, DEFAULT_REWARD_BPS);
    assert_eq!(config.referee_discount_bps, DEFAULT_REFEREE_DISCOUNT_BPS);
    assert!(!config.paused);
    let metrics = contract.get_global_metrics();
    assert_eq!(metrics.total_codes_created, 0);
    assert_eq!(metrics.total_fees_generated, 0);
}

#[test]
fn record_fee_splits_reward_and_discount_exactly() {
    let (mut contract, _admin) = initialized();
    let referrer = account("REFERRER");
    let referee = account("REFEREE");
    let code = String::from("EXACT");
    contract.register_code(referrer.clone(), code.clone(), 7).unwrap();
    contract.refer(referee.clone(), &code, 8).unwrap();
    assert_eq!(contract.record_fee(&referee, 10_000_000), Ok((2_500_000, 500_000)));
    assert_eq!(contract.record_fee(&referee, 12_345), Ok((3_086, 617)));
    let record = contract.get_referral_record(&referee).unwrap();
    assert_eq!(record.total_fees_generated, 10_012_345);
    assert_eq!(record.referrer_earned, 2_503_086);
    assert_eq!(record.registered_at, 8);
    assert_eq!(record.referee_discount_bps, DEFAULT_REFEREE_DISCOUNT_BPS);
    let affiliate = contract.get_affiliate_code(&referrer).unwrap();
    assert_eq!(affiliate.total_earned, 2_503_086);
    assert_eq!(affiliate.total_referrals, 1);
    assert_eq!(affiliate.created_at, 7);
    let metrics = contract.get_global_metrics();
    assert_eq!(metrics.total_rewards_distributed, 2_503_086);
    assert_eq!(metrics.total_referee_discounts, 500_617);
}

#[test]
fn record_fee_errors() {
    let (mut contract, _admin) = initialized();
    let referee = account("REFEREE");
    assert_eq!(contract.record_fee(&referee, 0), Err(ReferralError::InvalidAmount));
    assert_eq!(contract.record_fee(&referee, -5), Err(ReferralError::InvalidAmount));
    assert_eq!(contract.record_fee(&referee, 100), Err(ReferralError::InvalidReferrer));
}

#[test]
fn record_fee_overflow_changes_nothing() {
    let (mut contract, _admin) = initialized();
    let referrer = account("REFERRER");
    let referee = account("REFEREE");
    let code = String::from("BIG");
    contract.register_code(referrer.clone(), code.clone(), 0).unwrap();
    contract.refer(referee.clone(), &code, 0).unwrap();
    let big = i128::MAX / 20_000;
    contract.record_fee(&referee, big).unwrap();
    let mut last = Ok((0, 0));
    for _ in 0..30_000 {
        last = contract.record_fee(&referee, big);
        if last.is_err() {
            break;
        }
    }
    assert_eq!(last, Err(ReferralError::Overflow));
    let before = contract.get_referral_record(&referee).unwrap();
    assert_eq!(contract.record_fee(&referee, big), Err(ReferralError::Overflow));
    assert_eq!(contract.get_referral_record(&referee).unwrap(), before);
}

#[test]
fn claim_rewards_pays_out_then_nothing_left() {
    let (mut contract, _admin) = initialized();
    let referrer = account("REFERRER");
    let referee = account("REFEREE");
    let code = String::from("CLAIM");
    assert_eq!(contract.claim_rewards(&referrer), Err(ReferralError::InvalidCode));
    contract.register_code(referrer.clone(), code.clone(), 0).unwrap();
    assert_eq!(contract.claim_rewards(&referrer), Err(ReferralError::NothingToClaim));
    contract.refer(referee.clone(), &code, 0).unwrap();
    contract.record_fee(&referee, 4_000).unwrap();
    assert_eq!(contract.claim_rewards(&referrer), Ok(1_000));
    assert_eq!(contract.claim_rewards(&referrer), Err(ReferralError::NothingToClaim));
    assert_eq!(contract.get_affiliate_code(&referrer).unwrap().total_earned, 0);
}

#[test]
fn affiliate_stats_report_tier() {
    let (mut contract, _admin) = initialized();
    let referrer = account("REFERRER");
    let code = String::from("STATS");
    assert_eq!(contract.get_affiliate_stats(&referrer), Err(ReferralError::InvalidCode));
    contract.register_code(referrer.clone(), code.clone(), 0).unwrap();
    let referee = account("REFEREE");
    contract.refer(referee.clone(), &code, 0).unwrap();
    contract.record_fee(&referee, 40_000).unwrap();
    let stats = contract.get_affiliate_stats(&referrer).unwrap();
    assert_eq!(stats.total_referrals, 1);
    assert_eq!(stats.total_earned, 10_000);
    assert_eq!(stats.claimable, 10_000);
    assert_eq!(stats.total_claimed, 0);
    assert_eq!(stats.lifetime_fees_generated, 0);
    assert_eq!(stats.tier, 0);
}

#[test]
fn tiers_follow_thresholds() {
    let contract = ReferralContract::new();
    let config = contract.get_config();
    assert_eq!(compute_tier(&config, 0), 0);
    assert_eq!(compute_tier(&config, TIER1_THRESHOLD - 1), 0);
    assert_eq!(compute_tier(&config, TIER1_THRESHOLD), 1);
    assert_eq!(compute_tier(&config, TIER2_THRESHOLD), 2);
    assert_eq!(compute_tier(&config, TIER3_THRESHOLD - 1), 2);
    assert_eq!(compute_tier(&config, TIER3_THRESHOLD), 3);
    assert_eq!(compute_tier(&config, u32::MAX), 3);
}

#[test]
fn duplicate_code_and_paused_programme_are_refused() {
    let (mut contract, admin) = initialized();
    let user = account("USER");
    let code = String::from("DUP");
    contract.register_code(user.clone(), code.clone(), 0).unwrap();
    assert_eq!(
        contract.register_code(account("OTHER"), code.clone(), 0),
        Err(ReferralError::AlreadyRegistered)
    );
    contract.update_config(&admin, None, None, Some(true)).unwrap();
    assert_eq!(
        contract.register_code(account("NEW"), String::from("NEWCODE"), 0),
        Err(ReferralError::Unauthorized)
    );
    assert_eq!(
        contract.refer(account("REFEREE"), &code, 0),
        Err(ReferralError::Unauthorized)
    );
    let too_long = "L".repeat(40);
    assert_eq!(
        contract.register_code(account("NEW"), too_long.clone(), 0),
        Err(ReferralError::Unauthorized)
    );
    assert_eq!(contract.refer(account("REFEREE"), &too_long, 0), Err(ReferralError::Unauthorized));
}

#[test]
fn update_config_requires_admin() {
    let (mut contract, admin) = initialized();
    assert_eq!(
        contract.update_config(&account("INTRUDER"), Some(1), None, None),
        Err(ReferralError::Unauthorized)
    );
    assert_eq!(contract.get_config().reward_bps, DEFAULT_REWARD_BPS);
    contract.update_config(&admin, Some(1_000), Some(250), None).unwrap();
    let config = contract.get_config();
    assert_eq!(config.reward_bps, 1_000);
    assert_eq!(config.referee_discount_bps, 250);
    assert!(!config.paused);
}

#[test]
fn inactive_code_is_invalid() {
    let (mut contract, _admin) = initialized();
    let owner = account("OWNER");
    let code = String::from("SLEEPY");
    contract.register_code(owner.clone(), code.clone(), 0).unwrap();
    let mut entry = contract.get_affiliate_code(&owner).unwrap();
    entry.is_active = false;
    contract.codes.insert(code.clone(), entry);
    assert_eq!(contract.refer(account("REFEREE"), &code, 0), Err(ReferralError::InvalidCode));
}

#[test]
fn referral_error_codes_match_contract_numbering() {
    assert_eq!(ReferralError::NotInitialized.code(), 1);
    assert_eq!(ReferralError::AlreadyInitialized.code(), 2);
    assert_eq!(ReferralError::Unauthorized.code(), 3);
    assert_eq!(ReferralError::AlreadyRegistered.code(), 4);
    assert_eq!(ReferralError::InvalidReferrer.code(), 5);
    assert_eq!(ReferralError::SelfReferral.code(), 6);
    assert_eq!(ReferralError::NothingToClaim.code(), 7);
    assert_eq!(ReferralError::InvalidCode.code(), 8);
    assert_eq!(ReferralError::InvalidAmount.code(), 9);
    assert_eq!(ReferralError::Overflow.code(), 10);
}

#[test]
fn each_account_keeps_its_own_records() {
    let (mut contract, _admin) = initialized();
    let alice = account("ALICE");
    let bob = account("BOB");
    contract.register_code(alice.clone(), String::from("ALICE1"), 0).unwrap();
    contract.register_code(bob.clone(), String::from("BOB1"), 0).unwrap();
    let r1 = account("R1");
    let r2 = account("R2");
    contract.refer(r1.clone(), &String::from("ALICE1"), 1).unwrap();
    contract.refer(r2.clone(), &String::from("ALICE1"), 2).unwrap();
    assert_eq!(contract.get_referral_record(&r1).unwrap().referee, r1);
    assert_eq!(contract.get_referral_record(&r2).unwrap().referee, r2);
    assert_eq!(contract.get_referral_record(&r2).unwrap().registered_at, 2);
    // A fee of an account that nobody referred is refused.
    assert_eq!(contract.record_fee(&account("NOBODY"), 4_000), Err(ReferralError::InvalidReferrer));
    // Fees credit the referrer's own code, not the code registered last.
    assert_eq!(contract.record_fee(&r1, 4_000), Ok((1_000, 200)));
    assert_eq!(contract.get_affiliate_code(&alice).unwrap().total_earned, 1_000);
    assert_eq!(contract.get_affiliate_code(&bob).unwrap().total_earned, 0);
    assert_eq!(contract.get_affiliate_stats(&alice).unwrap().total_referrals, 2);
    assert_eq!(contract.get_affiliate_stats(&bob).unwrap().total_referrals, 0);
    // Claims pay only the claimant's own code.
    assert_eq!(contract.claim_rewards(&account("NOCODE")), Err(ReferralError::InvalidCode));
    assert_eq!(contract.claim_rewards(&bob), Err(ReferralError::NothingToClaim));
    assert_eq!(contract.claim_rewards(&alice), Ok(1_000));
    assert_eq!(contract.get_affiliate_stats(&account("NOCODE")), Err(ReferralError::InvalidCode));
}

#[test]
fn tier_bonus_is_added_to_the_reward() {
    let (mut contract, _admin) = initialized();
    let owner = account("OWNER");
    let code = String::from("TIERED");
    contract.register_code(owner.clone(), code.clone(), 0).unwrap();
    for i in 0..TIER1_THRESHOLD {
        contract.refer(format!("GREF{}", i), &code, 0).unwrap();
    }
    assert_eq!(contract.get_affiliate_stats(&owner).unwrap().tier, 1);
    // Base reward 2500 on 10000; the tier-1 bonus of 5% adds 125.
    assert_eq!(contract.record_fee(&String::from("GREF0"), 10_000), Ok((2_625, 500)));
    assert_eq!(contract.get_affiliate_code(&owner).unwrap().total_earned, 2_625);
    assert_eq!(contract.get_referral_record(&String::from("GREF0")).unwrap().referrer_earned, 2_625);
    assert_eq!(contract.get_global_metrics().total_rewards_distributed, 2_625);
}
