//! The referral programme: affiliates register codes, referees sign up
//! under a code, fees paid by referees earn the affiliate a reward and the
//! referee a discount, and affiliates claim what they earned.
//!
//! `ReferralContract` holds the contract's persistent state. Accounts are
//! held by their address text and symbols by their text. The caller obtains
//! the host's authorisation of the acting account before calling a method
//! that the contract guards with it (`initialize`: the admin; `register_code`:
//! the owner; `refer`: the referee; `claim_rewards`: the claimant;
//! `update_config`: the admin).

use vstd::prelude::*;
use vstd::hash_map::StringHashMap;
use crate::numeric::{fits_i128, lemma_tdiv_toward_zero, tdiv, BASIS_POINTS};

verus! {

/// Errors of the referral contract.
#[derive(Clone, Copy, Debug, PartialEq, Eq, PartialOrd, Ord, Structural)]
pub enum ReferralError {
    NotInitialized,
    AlreadyInitialized,
    Unauthorized,
    AlreadyRegistered,
    InvalidReferrer,
    SelfReferral,
    NothingToClaim,
    InvalidCode,
    InvalidAmount,
    Overflow,
}

impl ReferralError {
    /// The numeric code under which the contract reports this error.
    pub fn code(&self) -> (r: u32)
        ensures
            r == match *self {
                ReferralError::NotInitialized => 1u32,
                ReferralError::AlreadyInitialized => 2,
                ReferralError::Unauthorized => 3,
                ReferralError::AlreadyRegistered => 4,
                ReferralError::InvalidReferrer => 5,
                ReferralError::SelfReferral => 6,
                ReferralError::NothingToClaim => 7,
                ReferralError::InvalidCode => 8,
                ReferralError::InvalidAmount => 9,
                ReferralError::Overflow => 10,
            },
    {
        match self {
            ReferralError::NotInitialized => 1,
            ReferralError::AlreadyInitialized => 2,
            ReferralError::Unauthorized => 3,
            ReferralError::AlreadyRegistered => 4,
            ReferralError::InvalidReferrer => 5,
            ReferralError::SelfReferral => 6,
            ReferralError::NothingToClaim => 7,
            ReferralError::InvalidCode => 8,
            ReferralError::InvalidAmount => 9,
            ReferralError::Overflow => 10,
        }
    }
}

/// A registered affiliate code.
#[derive(Debug, PartialEq, Eq)]
pub struct AffiliateCode {
    pub owner: String,
    pub code: String,
    pub created_at: u64,
    pub total_earned: i128,
    pub total_referrals: u32,
    pub is_active: bool,
}

impl Clone for AffiliateCode {
    fn clone(&self) -> (r: Self)
        ensures
            r == *self,
    {
        AffiliateCode {
            owner: self.owner.clone(),
            code: self.code.clone(),
            created_at: self.created_at,
            total_earned: self.total_earned,
            total_referrals: self.total_referrals,
            is_active: self.is_active,
        }
    }
}

/// The record of one referee's sign-up under an affiliate.
#[derive(Debug, PartialEq, Eq)]
pub struct ReferralRecord {
    pub referrer: String,
    pub referee: String,
    pub registered_at: u64,
    pub total_fees_generated: i128,
    pub referrer_earned: i128,
    pub referee_discount_bps: u32,
}

impl Clone for ReferralRecord {
    fn clone(&self) -> (r: Self)
        ensures
            r == *self,
    {
        ReferralRecord {
            referrer: self.referrer.clone(),
            referee: self.referee.clone(),
            registered_at: self.registered_at,
            total_fees_generated: self.total_fees_generated,
            referrer_earned: self.referrer_earned,
            referee_discount_bps: self.referee_discount_bps,
        }
    }
}

/// What an affiliate sees of its standing.
#[derive(Clone, Copy, Debug, PartialEq, Eq, Structural)]
pub struct AffiliateStats {
    pub total_referrals: u32,
    pub total_earned: i128,
    pub total_claimed: i128,
    pub claimable: i128,
    pub lifetime_fees_generated: i128,
    pub tier: u32,
}

/// The programme's parameters.
#[derive(Debug, PartialEq, Eq)]
pub struct ReferralConfig {
    pub admin: String,
    pub reward_bps: u32,
    pub referee_discount_bps: u32,
    pub tier1_threshold: u32,
    pub tier1_bonus_bps: u32,
    pub tier2_threshold: u32,
    pub tier2_bonus_bps: u32,
    pub tier3_threshold: u32,
    pub tier3_bonus_bps: u32,
    pub min_deposit_to_qualify: i128,
    pub paused: bool,
}

impl Clone for ReferralConfig {
    fn clone(&self) -> (r: Self)
        ensures
            r == *self,
    {
        ReferralConfig {
            admin: self.admin.clone(),
            reward_bps: self.reward_bps,
            referee_discount_bps: self.referee_discount_bps,
            tier1_threshold: self.tier1_threshold,
            tier1_bonus_bps: self.tier1_bonus_bps,
            tier2_threshold: self.tier2_threshold,
            tier2_bonus_bps: self.tier2_bonus_bps,
            tier3_threshold: self.tier3_threshold,
            tier3_bonus_bps: self.tier3_bonus_bps,
            min_deposit_to_qualify: self.min_deposit_to_qualify,
            paused: self.paused,
        }
    }
}

/// The mathematical model of a `ReferralConfig`: the admin by its text.
pub struct ReferralParams {
    pub admin: Seq<char>,
    pub reward_bps: u32,
    pub referee_discount_bps: u32,
    pub tier1_threshold: u32,
    pub tier1_bonus_bps: u32,
    pub tier2_threshold: u32,
    pub tier2_bonus_bps: u32,
    pub tier3_threshold: u32,
    pub tier3_bonus_bps: u32,
    pub min_deposit_to_qualify: i128,
    pub paused: bool,
}

impl View for ReferralConfig {
    type V = ReferralParams;

    open spec fn view(&self) -> ReferralParams {
        ReferralParams {
            admin: self.admin@,
            reward_bps: self.reward_bps,
            referee_discount_bps: self.referee_discount_bps,
            tier1_threshold: self.tier1_threshold,
            tier1_bonus_bps: self.tier1_bonus_bps,
            tier2_threshold: self.tier2_threshold,
            tier2_bonus_bps: self.tier2_bonus_bps,
            tier3_threshold: self.tier3_threshold,
            tier3_bonus_bps: self.tier3_bonus_bps,
            min_deposit_to_qualify: self.min_deposit_to_qualify,
            paused: self.paused,
        }
    }
}

/// Programme-wide counters.
#[derive(Clone, Copy, Debug, PartialEq, Eq, Structural)]
pub struct GlobalReferralMetrics {
    pub total_codes_created: u32,
    pub total_referrals: u32,
    pub total_rewards_distributed: i128,
    pub total_fees_generated: i128,
    pub total_referee_discounts: i128,
}

pub const DEFAULT_REWARD_BPS: u32 = 2500;
pub const DEFAULT_REFEREE_DISCOUNT_BPS: u32 = 500;
pub const TIER1_THRESHOLD: u32 = 5;
pub const TIER1_BONUS_BPS: u32 = 500;
pub const TIER2_THRESHOLD: u32 = 15;
pub const TIER2_BONUS_BPS: u32 = 1000;
pub const TIER3_THRESHOLD: u32 = 50;
pub const TIER3_BONUS_BPS: u32 = 2000;
pub const MIN_DEPOSIT: i128 = 10_000_000;

/// The longest symbol the host accepts.
pub const MAX_SYMBOL_LEN: usize = 32;
/// Length of the prefix that turns a code into its storage key.
pub const CODE_KEY_PREFIX_LEN: usize = 5;

/// A code whose storage key (the prefix followed by the code) is a symbol
/// the host accepts.
pub open spec fn code_key_fits(code: Seq<char>) -> bool {
    code.len() + CODE_KEY_PREFIX_LEN <= MAX_SYMBOL_LEN
}

/// The admin placeholder reported while the contract is not initialised.
pub open spec fn placeholder_admin() -> Seq<char> {
    "______________________________________________________________________"@
}

/// The parameters a contract is initialised with, for the given admin.
pub open spec fn default_params(admin: Seq<char>) -> ReferralParams {
    ReferralParams {
        admin,
        reward_bps: DEFAULT_REWARD_BPS,
        referee_discount_bps: DEFAULT_REFEREE_DISCOUNT_BPS,
        tier1_threshold: TIER1_THRESHOLD,
        tier1_bonus_bps: TIER1_BONUS_BPS,
        tier2_threshold: TIER2_THRESHOLD,
        tier2_bonus_bps: TIER2_BONUS_BPS,
        tier3_threshold: TIER3_THRESHOLD,
        tier3_bonus_bps: TIER3_BONUS_BPS,
        min_deposit_to_qualify: MIN_DEPOSIT,
        paused: false,
    }
}

/// The counters before any activity.
pub open spec fn zero_metrics() -> GlobalReferralMetrics {
    GlobalReferralMetrics {
        total_codes_created: 0,
        total_referrals: 0,
        total_rewards_distributed: 0,
        total_fees_generated: 0,
        total_referee_discounts: 0,
    }
}

/// The tier reached with `total_referrals` referrals.
pub open spec fn tier_of(config: ReferralParams, total_referrals: u32) -> u32 {
    if total_referrals >= config.tier3_threshold {
        3
    } else if total_referrals >= config.tier2_threshold {
        2
    } else if total_referrals >= config.tier1_threshold {
        1
    } else {
        0
    }
}

/// The reward of a fee before any tier bonus.
pub open spec fn base_reward(config: ReferralParams, fee: i128) -> int {
    tdiv(fee * config.reward_bps, BASIS_POINTS as int)
}

/// The referee's discount on a fee.
pub open spec fn referee_discount(config: ReferralParams, fee: i128) -> int {
    tdiv(fee * config.referee_discount_bps, BASIS_POINTS as int)
}

/// The bonus rate, in basis points, of the tier reached with
/// `total_referrals` referrals: the tier's bonus, 0 below the first tier.
pub open spec fn tier_bonus_of(config: ReferralParams, total_referrals: u32) -> u32 {
    let tier = tier_of(config, total_referrals);
    if tier == 3 {
        config.tier3_bonus_bps
    } else if tier == 2 {
        config.tier2_bonus_bps
    } else if tier == 1 {
        config.tier1_bonus_bps
    } else {
        0
    }
}

/// The bonus on a base reward at `bonus_bps` basis points, rounded toward
/// zero; none at a rate of 0.
pub open spec fn reward_bonus(reward: int, bonus_bps: u32) -> int {
    if bonus_bps > 0 {
        tdiv(reward * bonus_bps, BASIS_POINTS as int)
    } else {
        0
    }
}

/// `a + 1`, held at `u32::MAX`.
pub open spec fn sat_inc_u32(a: u32) -> u32 {
    if a == u32::MAX {
        a
    } else {
        (a + 1) as u32
    }
}

/// The persistent state of the referral contract.
pub struct ReferralContract {
    /// The programme's parameters, once initialised.
    pub config: Option<ReferralConfig>,
    /// Programme-wide counters, once initialised.
    pub global_metrics: Option<GlobalReferralMetrics>,
    /// Affiliate codes, by code.
    pub codes: StringHashMap<AffiliateCode>,
    /// The code each owner registered last, by owner.
    pub owner_codes: StringHashMap<String>,
    /// Referral records, by referee.
    pub referrals: StringHashMap<ReferralRecord>,
}

/// The text that stands for `account` in the storage keys of its owner
/// code and of its referral record: the account's own text, so that each
/// account has a slot of its own.
pub fn to_str_val(account: &String) -> (r: String)
    ensures
        r@ == account@,
{
    account.clone()
}

/// The admin placeholder.
fn placeholder_admin_text() -> (r: String)
    ensures
        r@ == placeholder_admin(),
{
    String::from_str("______________________________________________________________________")
}

/// The tier reached with `total_referrals` referrals: 3, 2, 1 or 0 as the
/// count reaches the third, second or first threshold, or none of them.
pub fn compute_tier(config: &ReferralConfig, total_referrals: u32) -> (r: u32)
    ensures
        r == tier_of(config@, total_referrals),
        r <= 3,
{
    if total_referrals >= config.tier3_threshold {
        3
    } else if total_referrals >= config.tier2_threshold {
        2
    } else if total_referrals >= config.tier1_threshold {
        1
    } else {
        0
    }
}

impl ReferralContract {
    /// The parameters in force: the stored ones, or the defaults with the
    /// placeholder admin.
    pub open spec fn config_in_force(&self) -> ReferralParams {
        match self.config {
            Some(c) => c@,
            None => default_params(placeholder_admin()),
        }
    }

    /// The counters in force: the stored ones, or zeros.
    pub open spec fn metrics_in_force(&self) -> GlobalReferralMetrics {
        match self.global_metrics {
            Some(m) => m,
            None => zero_metrics(),
        }
    }

    /// The code that `owner` registered last, if any.
    pub open spec fn owner_code_of(&self, owner: Seq<char>) -> Option<String> {
        if self.owner_codes@.contains_key(owner) {
            Some(self.owner_codes@[owner])
        } else {
            None
        }
    }

    /// The stored affiliate code that `owner` registered last, if any.
    pub open spec fn affiliate_code_of(&self, owner: Seq<char>) -> Option<AffiliateCode> {
        match self.owner_code_of(owner) {
            Some(code) => if self.codes@.contains_key(code@) {
                Some(self.codes@[code@])
            } else {
                None
            },
            None => None,
        }
    }

    /// The referral record of `referee`, if any.
    pub open spec fn record_of(&self, referee: Seq<char>) -> Option<ReferralRecord> {
        if self.referrals@.contains_key(referee) {
            Some(self.referrals@[referee])
        } else {
            None
        }
    }

    /// Every stored code is one whose storage key the host accepts.
    pub open spec fn codes_fit(&self) -> bool {
        &&& forall|k: Seq<char>| #[trigger] self.codes@.contains_key(k) ==> code_key_fits(k)
        &&& forall|k: Seq<char>| #[trigger] self.owner_codes@.contains_key(k)
            ==> code_key_fits(self.owner_codes@[k]@)
    }

    /// A contract with empty storage.
    pub fn new() -> (r: Self)
        ensures
            r.config is None,
            r.global_metrics is None,
            r.codes@ == Map::<Seq<char>, AffiliateCode>::empty(),
            r.owner_codes@ == Map::<Seq<char>, String>::empty(),
            r.referrals@ == Map::<Seq<char>, ReferralRecord>::empty(),
    {
        ReferralContract {
            config: None,
            global_metrics: None,
            codes: StringHashMap::new(),
            owner_codes: StringHashMap::new(),
            referrals: StringHashMap::new(),
        }
    }

    /// The parameters in force.
    pub fn get_config(&self) -> (r: ReferralConfig)
        ensures
            self.config is Some ==> r == self.config->0,
            r@ == self.config_in_force(),
    {
        match &self.config {
            Some(c) => c.clone(),
            None => ReferralConfig {
                admin: placeholder_admin_text(),
                reward_bps: DEFAULT_REWARD_BPS,
                referee_discount_bps: DEFAULT_REFEREE_DISCOUNT_BPS,
                tier1_threshold: TIER1_THRESHOLD,
                tier1_bonus_bps: TIER1_BONUS_BPS,
                tier2_threshold: TIER2_THRESHOLD,
                tier2_bonus_bps: TIER2_BONUS_BPS,
                tier3_threshold: TIER3_THRESHOLD,
                tier3_bonus_bps: TIER3_BONUS_BPS,
                min_deposit_to_qualify: MIN_DEPOSIT,
                paused: false,
            },
        }
    }

    /// The programme-wide counters in force.
    pub fn get_global_metrics(&self) -> (r: GlobalReferralMetrics)
        ensures
            r == self.metrics_in_force(),
    {
        match &self.global_metrics {
            Some(m) => *m,
            None => GlobalReferralMetrics {
                total_codes_created: 0,
                total_referrals: 0,
                total_rewards_distributed: 0,
                total_fees_generated: 0,
                total_referee_discounts: 0,
            },
        }
    }
}


impl ReferralContract {
    /// The tier bonus rate that `referrer` earns: that of the tier its own
    /// code has reached, 0 when it owns no stored code.
    pub open spec fn referrer_bonus_bps(&self, referrer: Seq<char>) -> u32 {
        match self.affiliate_code_of(referrer) {
            Some(c) => tier_bonus_of(self.config_in_force(), c.total_referrals),
            None => 0,
        }
    }

    /// The reward of `fee` before any tier bonus.
    pub open spec fn fee_base_reward(&self, fee: i128) -> int {
        base_reward(self.config_in_force(), fee)
    }

    /// The tier bonus that `record_fee` adds to the base reward of `fee`
    /// paid by `referee`: at the rate of the referrer of the referee's
    /// record.
    pub open spec fn fee_bonus(&self, referee: Seq<char>, fee: i128) -> int {
        reward_bonus(
            self.fee_base_reward(fee),
            self.referrer_bonus_bps(self.record_of(referee)->0.referrer@),
        )
    }

    /// The reward that `record_fee` grants on `fee` paid by `referee`: the
    /// base reward plus the referrer's tier bonus on it.
    pub open spec fn fee_reward(&self, referee: Seq<char>, fee: i128) -> int {
        self.fee_base_reward(fee) + self.fee_bonus(referee, fee)
    }

    /// The discount that `record_fee` grants on `fee`.
    pub open spec fn fee_discount(&self, fee: i128) -> int {
        referee_discount(self.config_in_force(), fee)
    }

    /// Whether recording `fee` for the referee's record would overflow the
    /// reward, the record's totals or the referrer's earnings.
    pub open spec fn fee_record_overflows(&self, referee: Seq<char>, fee: i128) -> bool {
        let rec = self.record_of(referee)->0;
        let reward = self.fee_reward(referee, fee);
        ||| !fits_i128(reward)
        ||| !fits_i128(rec.total_fees_generated + fee)
        ||| !fits_i128(rec.referrer_earned + reward)
        ||| (self.affiliate_code_of(rec.referrer@) matches Some(c) && !fits_i128(
            c.total_earned + reward,
        ))
    }

    /// Whether recording `fee` paid by `referee` would overflow the
    /// programme-wide counters.
    pub open spec fn fee_metrics_overflow(&self, referee: Seq<char>, fee: i128) -> bool {
        let m = self.metrics_in_force();
        ||| !fits_i128(m.total_rewards_distributed + self.fee_reward(referee, fee))
        ||| !fits_i128(m.total_fees_generated + fee)
        ||| !fits_i128(m.total_referee_discounts + self.fee_discount(fee))
    }

    /// The tier bonus rate that `referrer` earns, looked up through its own
    /// code.
    pub fn get_tier_bonus_bps(&self, config: &ReferralConfig, referrer: &String) -> (r: u32)
        requires
            config@ == self.config_in_force(),
        ensures
            r == self.referrer_bonus_bps(referrer@),
    {
        let referrer_slot = to_str_val(referrer);
        let code_symbol = match self.owner_codes.get(referrer_slot.as_str()) {
            Some(c) => c,
            None => return 0,
        };
        let affiliate_code = match self.codes.get(code_symbol.as_str()) {
            Some(c) => c,
            None => return 0,
        };
        let tier = compute_tier(config, affiliate_code.total_referrals);
        if tier == 3 {
            config.tier3_bonus_bps
        } else if tier == 2 {
            config.tier2_bonus_bps
        } else if tier == 1 {
            config.tier1_bonus_bps
        } else {
            0
        }
    }

    /// Initialise the programme with `admin` and the default parameters.
    ///
    /// Fails with `AlreadyInitialized`, changing nothing, once initialised.
    pub fn initialize(&mut self, admin: String) -> (r: Result<(), ReferralError>)
        ensures
            old(self).config is Some ==> r == Err::<(), ReferralError>(
                ReferralError::AlreadyInitialized,
            ) && *final(self) == *old(self),
            old(self).config is None ==> {
                &&& r is Ok
                &&& final(self).config is Some
                &&& final(self).config->0 == ReferralConfig {
                    admin,
                    reward_bps: DEFAULT_REWARD_BPS,
                    referee_discount_bps: DEFAULT_REFEREE_DISCOUNT_BPS,
                    tier1_threshold: TIER1_THRESHOLD,
                    tier1_bonus_bps: TIER1_BONUS_BPS,
                    tier2_threshold: TIER2_THRESHOLD,
                    tier2_bonus_bps: TIER2_BONUS_BPS,
                    tier3_threshold: TIER3_THRESHOLD,
                    tier3_bonus_bps: TIER3_BONUS_BPS,
                    min_deposit_to_qualify: MIN_DEPOSIT,
                    paused: false,
                }
                &&& final(self).config_in_force() == default_params(admin@)
                &&& final(self).global_metrics == Some(zero_metrics())
                &&& final(self).codes == old(self).codes
                &&& final(self).owner_codes == old(self).owner_codes
                &&& final(self).referrals == old(self).referrals
            },
    {
        if self.config.is_some() {
            return Err(ReferralError::AlreadyInitialized);
        }
        self.config = Some(
            ReferralConfig {
                admin,
                reward_bps: DEFAULT_REWARD_BPS,
                referee_discount_bps: DEFAULT_REFEREE_DISCOUNT_BPS,
                tier1_threshold: TIER1_THRESHOLD,
                tier1_bonus_bps: TIER1_BONUS_BPS,
                tier2_threshold: TIER2_THRESHOLD,
                tier2_bonus_bps: TIER2_BONUS_BPS,
                tier3_threshold: TIER3_THRESHOLD,
                tier3_bonus_bps: TIER3_BONUS_BPS,
                min_deposit_to_qualify: MIN_DEPOSIT,
                paused: false,
            },
        );
        self.global_metrics = Some(
            GlobalReferralMetrics {
                total_codes_created: 0,
                total_referrals: 0,
                total_rewards_distributed: 0,
                total_fees_generated: 0,
                total_referee_discounts: 0,
            },
        );
        Ok(())
    }

    /// Register `code` as an affiliate code of `owner`, created at `now`.
    ///
    /// Fails with `Unauthorized` while the programme is paused and with
    /// `AlreadyRegistered` when the code exists; a failure changes nothing.
    /// On success the code is stored active with nothing earned, it becomes
    /// the owner's code, and the count of codes created goes up by one (held
    /// at `u32::MAX`).
    pub fn register_code(&mut self, owner: String, code: String, now: u64) -> (r: Result<
        (),
        ReferralError,
    >)
        requires
            !old(self).config_in_force().paused ==> code_key_fits(code@),
        ensures
            old(self).codes_fit() ==> final(self).codes_fit(),
            old(self).config_in_force().paused ==> r == Err::<(), ReferralError>(
                ReferralError::Unauthorized,
            ) && *final(self) == *old(self),
            !old(self).config_in_force().paused && old(self).codes@.contains_key(code@) ==> r
                == Err::<(), ReferralError>(ReferralError::AlreadyRegistered) && *final(self)
                == *old(self),
            !old(self).config_in_force().paused && !old(self).codes@.contains_key(code@) ==> {
                &&& r is Ok
                &&& final(self).codes@ == old(self).codes@.insert(
                    code@,
                    AffiliateCode {
                        owner,
                        code,
                        created_at: now,
                        total_earned: 0,
                        total_referrals: 0,
                        is_active: true,
                    },
                )
                &&& final(self).owner_codes@ == old(self).owner_codes@.insert(
                    owner@,
                    code,
                )
                &&& final(self).global_metrics == Some(
                    GlobalReferralMetrics {
                        total_codes_created: sat_inc_u32(
                            old(self).metrics_in_force().total_codes_created,
                        ),
                        ..old(self).metrics_in_force()
                    },
                )
                &&& final(self).config == old(self).config
                &&& final(self).referrals == old(self).referrals
            },
    {
        let config = self.get_config();
        if config.paused {
            return Err(ReferralError::Unauthorized);
        }
        if self.codes.contains_key(code.as_str()) {
            return Err(ReferralError::AlreadyRegistered);
        }
        let owner_slot = to_str_val(&owner);
        let affiliate_code = AffiliateCode {
            owner,
            code: code.clone(),
            created_at: now,
            total_earned: 0,
            total_referrals: 0,
            is_active: true,
        };
        self.codes.insert(code.clone(), affiliate_code);
        self.owner_codes.insert(owner_slot, code);
        let mut metrics = self.get_global_metrics();
        metrics.total_codes_created = metrics.total_codes_created.saturating_add(1);
        self.global_metrics = Some(metrics);
        Ok(())
    }

    /// Sign `referee` up under `code`, at `now`.
    ///
    /// Fails, changing nothing, with `Unauthorized` while paused, with
    /// `InvalidCode` when the code is unknown or inactive, with
    /// `SelfReferral` when the referee owns the code, and with
    /// `AlreadyRegistered` when the referee already has a record. On
    /// success the record names the code's owner as referrer with nothing
    /// generated yet and the discount in force, and the code's and the
    /// programme's referral counts go up by one (held at `u32::MAX`).
    pub fn refer(&mut self, referee: String, code: &String, now: u64) -> (r: Result<
        (),
        ReferralError,
    >)
        requires
            !old(self).config_in_force().paused ==> code_key_fits(code@),
        ensures
            old(self).codes_fit() ==> final(self).codes_fit(),
            ({
                let cfg = old(self).config_in_force();
                let c = old(self).codes@[code@];
                if cfg.paused {
                    r == Err::<(), ReferralError>(ReferralError::Unauthorized)
                } else if !old(self).codes@.contains_key(code@) || !c.is_active {
                    r == Err::<(), ReferralError>(ReferralError::InvalidCode)
                } else if c.owner@ == referee@ {
                    r == Err::<(), ReferralError>(ReferralError::SelfReferral)
                } else if old(self).referrals@.contains_key(referee@) {
                    r == Err::<(), ReferralError>(ReferralError::AlreadyRegistered)
                } else {
                    &&& r is Ok
                    &&& final(self).referrals@ == old(self).referrals@.insert(
                        referee@,
                        ReferralRecord {
                            referrer: c.owner,
                            referee,
                            registered_at: now,
                            total_fees_generated: 0,
                            referrer_earned: 0,
                            referee_discount_bps: cfg.referee_discount_bps,
                        },
                    )
                    &&& final(self).codes@ == old(self).codes@.insert(
                        code@,
                        AffiliateCode { total_referrals: sat_inc_u32(c.total_referrals), ..c },
                    )
                    &&& final(self).global_metrics == Some(
                        GlobalReferralMetrics {
                            total_referrals: sat_inc_u32(
                                old(self).metrics_in_force().total_referrals,
                            ),
                            ..old(self).metrics_in_force()
                        },
                    )
                    &&& final(self).config == old(self).config
                    &&& final(self).owner_codes == old(self).owner_codes
                }
            }),
            r is Err ==> *final(self) == *old(self),
    {
        let config = self.get_config();
        if config.paused {
            return Err(ReferralError::Unauthorized);
        }
        let affiliate_code = match self.codes.get(code.as_str()) {
            Some(c) => c.clone(),
            None => return Err(ReferralError::InvalidCode),
        };
        if !affiliate_code.is_active {
            return Err(ReferralError::InvalidCode);
        }
        if affiliate_code.owner == referee {
            return Err(ReferralError::SelfReferral);
        }
        let referee_slot = to_str_val(&referee);
        if self.referrals.contains_key(referee_slot.as_str()) {
            return Err(ReferralError::AlreadyRegistered);
        }
        let record = ReferralRecord {
            referrer: affiliate_code.owner.clone(),
            referee,
            registered_at: now,
            total_fees_generated: 0,
            referrer_earned: 0,
            referee_discount_bps: config.referee_discount_bps,
        };
        self.referrals.insert(referee_slot, record);
        let mut updated_code = affiliate_code;
        updated_code.total_referrals = updated_code.total_referrals.saturating_add(1);
        self.codes.insert(code.clone(), updated_code);
        let mut metrics = self.get_global_metrics();
        metrics.total_referrals = metrics.total_referrals.saturating_add(1);
        self.global_metrics = Some(metrics);
        Ok(())
    }
}


impl ReferralContract {
    /// Record a fee of `fee_amount` paid by `referee`: the referrer earns
    /// the base reward `fee * reward_bps / 10000` plus, when its own code has
    /// reached a tier, that tier's bonus rate on the base reward; the
    /// referee is granted `fee * referee_discount_bps / 10000`; each step
    /// rounds toward zero, and `(reward, discount)` is returned.
    ///
    /// Fails, changing nothing, with `InvalidAmount` when the fee is not
    /// positive, with `InvalidReferrer` when the referee has no record, and
    /// with `Overflow` when the reward or a total would leave `i128`. On
    /// success the record's fee and earnings totals, the earnings of the
    /// referrer's own code (when it has one), and the programme's reward,
    /// fee and discount totals grow by the amounts.
    pub fn record_fee(&mut self, referee: &String, fee_amount: i128) -> (r: Result<
        (i128, i128),
        ReferralError,
    >)
        requires
            fee_amount > 0 && old(self).record_of(referee@) is Some ==> fits_i128(
                fee_amount * old(self).config_in_force().reward_bps,
            ),
            fee_amount > 0 && old(self).record_of(referee@) is Some ==> fits_i128(
                old(self).fee_base_reward(fee_amount) * old(self).referrer_bonus_bps(
                    old(self).record_of(referee@)->0.referrer@,
                ),
            ),
            fee_amount > 0 && old(self).record_of(referee@) is Some && !old(
                self,
            ).fee_record_overflows(referee@, fee_amount) ==> fits_i128(
                fee_amount * old(self).config_in_force().referee_discount_bps,
            ),
        ensures
            ({
                let rec = old(self).record_of(referee@)->0;
                let reward = old(self).fee_reward(referee@, fee_amount);
                let discount = old(self).fee_discount(fee_amount);
                let m = old(self).metrics_in_force();
                if fee_amount <= 0 {
                    r == Err::<(i128, i128), ReferralError>(ReferralError::InvalidAmount)
                } else if old(self).record_of(referee@) is None {
                    r == Err::<(i128, i128), ReferralError>(ReferralError::InvalidReferrer)
                } else if old(self).fee_record_overflows(referee@, fee_amount)
                    || old(self).fee_metrics_overflow(referee@, fee_amount) {
                    r == Err::<(i128, i128), ReferralError>(ReferralError::Overflow)
                } else {
                    &&& r == Ok::<(i128, i128), ReferralError>((reward as i128, discount as i128))
                    &&& final(self).referrals@ == old(self).referrals@.insert(
                        referee@,
                        ReferralRecord {
                            total_fees_generated: (rec.total_fees_generated + fee_amount) as i128,
                            referrer_earned: (rec.referrer_earned + reward) as i128,
                            ..rec
                        },
                    )
                    &&& final(self).codes@ == match old(self).affiliate_code_of(rec.referrer@) {
                        Some(c) => old(self).codes@.insert(
                            old(self).owner_code_of(rec.referrer@)->0@,
                            AffiliateCode { total_earned: (c.total_earned + reward) as i128, ..c },
                        ),
                        None => old(self).codes@,
                    }
                    &&& final(self).global_metrics == Some(
                        GlobalReferralMetrics {
                            total_rewards_distributed: (m.total_rewards_distributed
                                + reward) as i128,
                            total_fees_generated: (m.total_fees_generated + fee_amount) as i128,
                            total_referee_discounts: (m.total_referee_discounts
                                + discount) as i128,
                            ..m
                        },
                    )
                    &&& final(self).config == old(self).config
                    &&& final(self).owner_codes == old(self).owner_codes
                }
            }),
            r is Err ==> *final(self) == *old(self),
            old(self).codes_fit() ==> final(self).codes_fit(),
    {
        if fee_amount <= 0 {
            return Err(ReferralError::InvalidAmount);
        }
        let config = self.get_config();
        let referee_slot = to_str_val(referee);
        let mut record = match self.referrals.get(referee_slot.as_str()) {
            Some(rec) => rec.clone(),
            None => return Err(ReferralError::InvalidReferrer),
        };
        let reward = (fee_amount * config.reward_bps as i128) / BASIS_POINTS;
        proof {
            lemma_tdiv_toward_zero(fee_amount * config.reward_bps, BASIS_POINTS as int);
        }
        let tier_bonus = self.get_tier_bonus_bps(&config, &record.referrer);
        let bonus_amount: i128 = if tier_bonus > 0 {
            (reward * tier_bonus as i128) / BASIS_POINTS
        } else {
            0
        };
        let total_reward = match reward.checked_add(bonus_amount) {
            Some(v) => v,
            None => return Err(ReferralError::Overflow),
        };
        record.total_fees_generated = match record.total_fees_generated.checked_add(fee_amount) {
            Some(v) => v,
            None => return Err(ReferralError::Overflow),
        };
        record.referrer_earned = match record.referrer_earned.checked_add(total_reward) {
            Some(v) => v,
            None => return Err(ReferralError::Overflow),
        };
        // The referrer's own code, with its earnings
        // raised, when both exist.
        let referrer_slot = to_str_val(&record.referrer);
        let mut code_update: Option<(String, AffiliateCode)> = None;
        match self.owner_codes.get(referrer_slot.as_str()) {
            Some(code_symbol) => {
                match self.codes.get(code_symbol.as_str()) {
                    Some(existing) => {
                        let mut affiliate_code = existing.clone();
                        affiliate_code.total_earned =
                            match affiliate_code.total_earned.checked_add(total_reward) {
                            Some(v) => v,
                            None => return Err(ReferralError::Overflow),
                        };
                        code_update = Some((code_symbol.clone(), affiliate_code));
                    },
                    None => {},
                }
            },
            None => {},
        }
        let discount = (fee_amount * config.referee_discount_bps as i128) / BASIS_POINTS;
        proof {
            lemma_tdiv_toward_zero(fee_amount * config.referee_discount_bps, BASIS_POINTS as int);
        }
        let mut metrics = self.get_global_metrics();
        metrics.total_rewards_distributed =
            match metrics.total_rewards_distributed.checked_add(total_reward) {
            Some(v) => v,
            None => return Err(ReferralError::Overflow),
        };
        metrics.total_fees_generated = match metrics.total_fees_generated.checked_add(fee_amount) {
            Some(v) => v,
            None => return Err(ReferralError::Overflow),
        };
        metrics.total_referee_discounts =
            match metrics.total_referee_discounts.checked_add(discount) {
            Some(v) => v,
            None => return Err(ReferralError::Overflow),
        };
        self.referrals.insert(referee_slot, record);
        match code_update {
            Some((code_symbol, affiliate_code)) => {
                self.codes.insert(code_symbol, affiliate_code);
            },
            None => {},
        }
        self.global_metrics = Some(metrics);
        Ok((total_reward, discount))
    }

    /// Pay out what the claimant's code has earned: the earnings are
    /// returned and reset to zero.
    ///
    /// Fails, changing nothing, with `InvalidCode` when the claimant owns no
    /// stored code, and with `NothingToClaim` when the code
    /// has earned nothing positive.
    pub fn claim_rewards(&mut self, claimant: &String) -> (r: Result<i128, ReferralError>)
        ensures
            old(self).codes_fit() ==> final(self).codes_fit(),
            ({
                match old(self).affiliate_code_of(claimant@) {
                    None => r == Err::<i128, ReferralError>(ReferralError::InvalidCode),
                    Some(c) => if c.total_earned <= 0 {
                        r == Err::<i128, ReferralError>(ReferralError::NothingToClaim)
                    } else {
                        &&& r == Ok::<i128, ReferralError>(c.total_earned)
                        &&& final(self).codes@ == old(self).codes@.insert(
                            old(self).owner_code_of(claimant@)->0@,
                            AffiliateCode { total_earned: 0, ..c },
                        )
                        &&& final(self).config == old(self).config
                        &&& final(self).global_metrics == old(self).global_metrics
                        &&& final(self).owner_codes == old(self).owner_codes
                        &&& final(self).referrals == old(self).referrals
                    },
                }
            }),
            r is Err ==> *final(self) == *old(self),
    {
        let _config = self.get_config();
        let claimant_slot = to_str_val(claimant);
        let code_symbol = match self.owner_codes.get(claimant_slot.as_str()) {
            Some(c) => c.clone(),
            None => return Err(ReferralError::InvalidCode),
        };
        let mut affiliate_code = match self.codes.get(code_symbol.as_str()) {
            Some(c) => c.clone(),
            None => return Err(ReferralError::InvalidCode),
        };
        if affiliate_code.total_earned <= 0 {
            return Err(ReferralError::NothingToClaim);
        }
        let claimable = affiliate_code.total_earned;
        affiliate_code.total_earned = 0;
        self.codes.insert(code_symbol, affiliate_code);
        Ok(claimable)
    }

    /// The standing of `user` as an affiliate, from its own code: its
    /// referral count, its earnings (all claimable, none recorded as
    /// claimed, no lifetime fees recorded) and its tier.
    ///
    /// Fails with `InvalidCode` when the user owns no stored code.
    pub fn get_affiliate_stats(&self, user: &String) -> (r: Result<AffiliateStats, ReferralError>)
        ensures
            r == match self.affiliate_code_of(user@) {
                None => Err::<AffiliateStats, ReferralError>(ReferralError::InvalidCode),
                Some(c) => Ok::<AffiliateStats, ReferralError>(
                    AffiliateStats {
                        total_referrals: c.total_referrals,
                        total_earned: c.total_earned,
                        total_claimed: 0,
                        claimable: c.total_earned,
                        lifetime_fees_generated: 0,
                        tier: tier_of(self.config_in_force(), c.total_referrals),
                    },
                ),
            },
    {
        let user_slot = to_str_val(user);
        let code_symbol = match self.owner_codes.get(user_slot.as_str()) {
            Some(c) => c,
            None => return Err(ReferralError::InvalidCode),
        };
        let affiliate_code = match self.codes.get(code_symbol.as_str()) {
            Some(c) => c,
            None => return Err(ReferralError::InvalidCode),
        };
        let config = self.get_config();
        let tier = compute_tier(&config, affiliate_code.total_referrals);
        Ok(
            AffiliateStats {
                total_referrals: affiliate_code.total_referrals,
                total_earned: affiliate_code.total_earned,
                total_claimed: 0,
                claimable: affiliate_code.total_earned,
                lifetime_fees_generated: 0,
                tier,
            },
        )
    }

    /// The referral record of `referee`.
    pub fn get_referral_record(&self, referee: &String) -> (r: Option<ReferralRecord>)
        ensures
            r == self.record_of(referee@),
    {
        let referee_slot = to_str_val(referee);
        match self.referrals.get(referee_slot.as_str()) {
            Some(rec) => Some(rec.clone()),
            None => None,
        }
    }

    /// The stored affiliate code that `owner` registered last.
    pub fn get_affiliate_code(&self, owner: &String) -> (r: Option<AffiliateCode>)
        ensures
            r == self.affiliate_code_of(owner@),
    {
        let owner_slot = to_str_val(owner);
        let code_symbol = match self.owner_codes.get(owner_slot.as_str()) {
            Some(s) => s,
            None => return None,
        };
        match self.codes.get(code_symbol.as_str()) {
            Some(c) => Some(c.clone()),
            None => None,
        }
    }

    /// Change the reward rate, the referee discount or the pause flag, each
    /// where a new value is given, and store the parameters.
    ///
    /// Fails with `Unauthorized`, changing nothing, unless `admin` is the
    /// admin in force.
    pub fn update_config(
        &mut self,
        admin: &String,
        reward_bps: Option<u32>,
        referee_discount_bps: Option<u32>,
        paused: Option<bool>,
    ) -> (r: Result<(), ReferralError>)
        ensures
            ({
                let cfg = old(self).config_in_force();
                if admin@ != cfg.admin {
                    r == Err::<(), ReferralError>(ReferralError::Unauthorized) && *final(self)
                        == *old(self)
                } else {
                    &&& r is Ok
                    &&& final(self).config is Some
                    &&& final(self).config_in_force() == ReferralParams {
                        reward_bps: match reward_bps {
                            Some(v) => v,
                            None => cfg.reward_bps,
                        },
                        referee_discount_bps: match referee_discount_bps {
                            Some(v) => v,
                            None => cfg.referee_discount_bps,
                        },
                        paused: match paused {
                            Some(v) => v,
                            None => cfg.paused,
                        },
                        ..cfg
                    }
                    &&& final(self).global_metrics == old(self).global_metrics
                    &&& final(self).codes == old(self).codes
                    &&& final(self).owner_codes == old(self).owner_codes
                    &&& final(self).referrals == old(self).referrals
                }
            }),
    {
        let mut config = self.get_config();
        if *admin != config.admin {
            return Err(ReferralError::Unauthorized);
        }
        match reward_bps {
            Some(v) => {
                config.reward_bps = v;
            },
            None => {},
        }
        match referee_discount_bps {
            Some(v) => {
                config.referee_discount_bps = v;
            },
            None => {},
        }
        match paused {
            Some(v) => {
                config.paused = v;
            },
            None => {},
        }
        self.config = Some(config);
        Ok(())
    }
}

/// The tier never drops as referrals grow: with at least as many
/// referrals, an affiliate is in at least as high a tier.
pub proof fn law_tier_monotone(config: ReferralParams, fewer: u32, more: u32)
    requires
        fewer <= more,
    ensures
        tier_of(config, fewer) <= tier_of(config, more),
        tier_of(config, more) <= 3,
{
}

/// Counting one more never lowers a counter: the code and referral counts
/// that `register_code` and `refer` bump only grow.
pub proof fn law_counter_bump_grows(count: u32)
    ensures
        sat_inc_u32(count) >= count,
        count < u32::MAX ==> sat_inc_u32(count) == count + 1,
{
}

/// Claiming pays out everything: once a claim has reset the claimant's
/// earnings (as `claim_rewards` does on success), a second claim finds
/// nothing to claim.
pub proof fn law_claim_twice_finds_nothing(
    before: ReferralContract,
    after: ReferralContract,
    claimant: Seq<char>,
)
    requires
        before.affiliate_code_of(claimant) is Some,
        before.affiliate_code_of(claimant)->0.total_earned > 0,
        after.codes@ == before.codes@.insert(
            before.owner_code_of(claimant)->0@,
            AffiliateCode { total_earned: 0, ..before.affiliate_code_of(claimant)->0 },
        ),
        after.owner_codes == before.owner_codes,
    ensures
        after.affiliate_code_of(claimant) is Some,
        after.affiliate_code_of(claimant)->0.total_earned <= 0,
{
}

/// What a recorded fee earns is what the referrer can then claim: after
/// `record_fee` credits a reward to the referrer's own code, that code's claimable earnings are its earlier earnings
/// plus the reward.
pub proof fn law_recorded_reward_is_claimable(
    before: ReferralContract,
    after: ReferralContract,
    referrer: Seq<char>,
    reward: int,
)
    requires
        before.affiliate_code_of(referrer) is Some,
        fits_i128(before.affiliate_code_of(referrer)->0.total_earned + reward),
        after.codes@ == before.codes@.insert(
            before.owner_code_of(referrer)->0@,
            AffiliateCode {
                total_earned: (before.affiliate_code_of(referrer)->0.total_earned + reward) as i128,
                ..before.affiliate_code_of(referrer)->0
            },
        ),
        after.owner_codes == before.owner_codes,
    ensures
        after.affiliate_code_of(referrer) is Some,
        after.affiliate_code_of(referrer)->0.total_earned == before.affiliate_code_of(
            referrer,
        )->0.total_earned + reward,
{
}

/// The fee split never exceeds the fee: with rates of at most 100%, a
/// positive fee earns a base reward (before any tier bonus) and a discount
/// each between 0 and the fee.
pub proof fn law_fee_split_within_fee(config: ReferralParams, fee: i128)
    requires
        fee > 0,
        config.reward_bps <= BASIS_POINTS,
        config.referee_discount_bps <= BASIS_POINTS,
    ensures
        0 <= base_reward(config, fee) <= fee,
        0 <= referee_discount(config, fee) <= fee,
{
    assert(0 <= (fee * config.reward_bps) / 10000 <= fee) by (nonlinear_arith)
        requires
            fee > 0,
            0 <= config.reward_bps <= 10000,
    ;
    assert(0 <= (fee * config.referee_discount_bps) / 10000 <= fee) by (nonlinear_arith)
        requires
            fee > 0,
            0 <= config.referee_discount_bps <= 10000,
    ;
}

/// Each account keeps its own record: writing the record of one referee
/// (as `refer` and `record_fee` do) leaves the record of every other
/// account as it was.
pub proof fn law_records_are_per_referee(
    before: ReferralContract,
    after: ReferralContract,
    referee: Seq<char>,
    record: ReferralRecord,
    other: Seq<char>,
)
    requires
        after.referrals@ == before.referrals@.insert(referee, record),
        other != referee,
    ensures
        after.record_of(other) == before.record_of(other),
        after.record_of(referee) == Some(record),
{
}

/// The reward on a referee's fee is the base reward plus the bonus of
/// the tier that the referrer's own code has reached: with as many
/// referrals as the third threshold, the third tier's bonus rate; from the
/// second threshold up to the third, the second's; from the first up to
/// the second, the first's; below the first, or without a code of its own,
/// no bonus. The base reward is `fee * reward_bps / 10000` and the bonus is
/// the rate applied to it, each rounded down.
pub proof fn law_reward_carries_tier_bonus(contract: ReferralContract, referee: Seq<char>, fee: i128)
    requires
        contract.record_of(referee) is Some,
        fee > 0,
    ensures
        ({
            let cfg = contract.config_in_force();
            let referrer = contract.record_of(referee)->0.referrer@;
            let bonus_bps = contract.referrer_bonus_bps(referrer);
            let base = fee * cfg.reward_bps / 10_000;
            &&& contract.fee_base_reward(fee) == base
            &&& contract.fee_reward(referee, fee) == base + base * bonus_bps / 10_000
            &&& contract.affiliate_code_of(referrer) is None ==> bonus_bps == 0
            &&& contract.affiliate_code_of(referrer) matches Some(c) ==> {
                let n = c.total_referrals;
                &&& n >= cfg.tier3_threshold ==> bonus_bps == cfg.tier3_bonus_bps
                &&& cfg.tier2_threshold <= n < cfg.tier3_threshold ==> bonus_bps
                    == cfg.tier2_bonus_bps
                &&& cfg.tier1_threshold <= n < cfg.tier2_threshold && n < cfg.tier3_threshold
                    ==> bonus_bps == cfg.tier1_bonus_bps
                &&& n < cfg.tier1_threshold && n < cfg.tier2_threshold && n < cfg.tier3_threshold
                    ==> bonus_bps == 0
            }
        }),
{
    let cfg = contract.config_in_force();
    let referrer = contract.record_of(referee)->0.referrer@;
    let bonus_bps = contract.referrer_bonus_bps(referrer);
    assert(fee * cfg.reward_bps >= 0) by (nonlinear_arith)
        requires
            fee > 0,
            cfg.reward_bps >= 0,
    ;
    let base = fee * cfg.reward_bps / 10_000;
    assert(base >= 0);
    assert(base * bonus_bps >= 0) by (nonlinear_arith)
        requires
            base >= 0,
            bonus_bps >= 0,
    ;
    if bonus_bps == 0 {
        assert(base * bonus_bps == 0) by (nonlinear_arith)
            requires
                bonus_bps == 0,
        ;
    }
}

} // verus!
