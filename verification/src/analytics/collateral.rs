//! Real-time collateral ratio monitoring: per-asset snapshots, risk
//! classification, risk thresholds and the trend history.

use vstd::prelude::*;
use crate::analytics::store::AnalyticsStore;
use crate::analytics::types::{
    AnalyticsError, CollateralRatioSnapshot, CollateralRatioTrend, CollateralRiskThresholds,
};
use crate::bounded::{keep_newest, law_keep_newest_bounded, trim_oldest};
use crate::numeric::{fits_i128, tdiv, BASIS_POINTS};

verus! {

/// Most collateral ratio snapshots kept; the oldest go first.
pub const MAX_COLLATERAL_SNAPSHOTS: usize = 100;
/// Most collateral ratio trends kept; the oldest go first.
pub const MAX_COLLATERAL_HISTORY: usize = 90;

/// The thresholds in force until others are configured: safe from 2.0x,
/// warning from 1.5x, danger from 1.1x.
pub open spec fn default_risk_thresholds() -> CollateralRiskThresholds {
    CollateralRiskThresholds {
        safe_threshold: 20_000,
        warning_threshold: 15_000,
        danger_threshold: 11_000,
    }
}

/// The risk label of a health factor under `th`.
pub open spec fn risk_label(th: CollateralRiskThresholds, health_factor: i128) -> Seq<char> {
    if health_factor >= th.safe_threshold {
        "safe"@
    } else if health_factor >= th.warning_threshold {
        "warning"@
    } else if health_factor >= th.danger_threshold {
        "danger"@
    } else {
        "critical"@
    }
}

/// The health factor of a collateral ratio against the required one:
/// `current * 10000 / required` rounded toward zero, `i128::MAX` when
/// nothing is required.
pub open spec fn ratio_health_factor(current_ratio: i128, required_ratio: i128) -> Result<
    i128,
    AnalyticsError,
> {
    if required_ratio == 0 {
        Ok(i128::MAX)
    } else {
        let q = tdiv(current_ratio * BASIS_POINTS, required_ratio as int);
        if fits_i128(q) {
            Ok(q as i128)
        } else {
            Err(AnalyticsError::Overflow)
        }
    }
}

/// Whether some snapshot of `s` is for `asset`.
pub open spec fn has_asset(s: Seq<CollateralRatioSnapshot>, asset: Seq<char>) -> bool {
    exists|i: int| 0 <= i < s.len() && #[trigger] s[i].asset@ == asset
}

/// The first index of `s` whose snapshot is for `asset`.
pub open spec fn first_asset_index(s: Seq<CollateralRatioSnapshot>, asset: Seq<char>) -> int {
    choose|i: int|
        0 <= i < s.len() && s[i].asset@ == asset && forall|j: int|
            0 <= j < i ==> #[trigger] s[j].asset@ != asset
}

/// `s` with the first snapshot for `snap`'s asset replaced by `snap`, or
/// `snap` appended when there is none.
pub open spec fn upsert_snapshot(s: Seq<CollateralRatioSnapshot>, snap: CollateralRatioSnapshot) -> Seq<
    CollateralRatioSnapshot,
> {
    if has_asset(s, snap.asset@) {
        s.update(first_asset_index(s, snap.asset@), snap)
    } else {
        s.push(snap)
    }
}

/// Whether a trend is for `asset`.
pub open spec fn trend_for(asset: Seq<char>) -> spec_fn(CollateralRatioTrend) -> bool {
    |t: CollateralRatioTrend| t.asset@ == asset
}

impl AnalyticsStore {
    /// The collateral risk thresholds in force.
    pub open spec fn risk_thresholds_in_force(&self) -> CollateralRiskThresholds {
        match self.collateral_risk_thresholds {
            Some(th) => th,
            None => default_risk_thresholds(),
        }
    }
}

/// A copy of a list of snapshots.
fn copy_snapshots(v: &Vec<CollateralRatioSnapshot>) -> (r: Vec<CollateralRatioSnapshot>)
    ensures
        r@ == v@,
{
    let mut out: Vec<CollateralRatioSnapshot> = Vec::new();
    let mut i: usize = 0;
    while i < v.len()
        invariant
            i <= v.len(),
            out@ == v@.take(i as int),
        decreases v.len() - i,
    {
        out.push(v[i].clone());
        assert(out@ =~= v@.take(i + 1));
        i += 1;
    }
    assert(v@.take(v.len() as int) =~= v@);
    out
}

/// A copy of a list of trends.
fn copy_trends(v: &Vec<CollateralRatioTrend>) -> (r: Vec<CollateralRatioTrend>)
    ensures
        r@ == v@,
{
    let mut out: Vec<CollateralRatioTrend> = Vec::new();
    let mut i: usize = 0;
    while i < v.len()
        invariant
            i <= v.len(),
            out@ == v@.take(i as int),
        decreases v.len() - i,
    {
        out.push(v[i].clone());
        assert(out@ =~= v@.take(i + 1));
        i += 1;
    }
    assert(v@.take(v.len() as int) =~= v@);
    out
}

/// The index of the first snapshot for `asset`, if any.
fn find_asset(ss: &Vec<CollateralRatioSnapshot>, asset: &String) -> (r: Option<usize>)
    ensures
        match r {
            Some(i) => i < ss.len() && has_asset(ss@, asset@) && i == first_asset_index(ss@, asset@),
            None => !has_asset(ss@, asset@),
        },
{
    let mut i: usize = 0;
    while i < ss.len()
        invariant
            i <= ss.len(),
            forall|j: int| 0 <= j < i ==> #[trigger] ss@[j].asset@ != asset@,
        decreases ss.len() - i,
    {
        if ss[i].asset == *asset {
            proof {
                assert(has_asset(ss@, asset@));
                let k = first_asset_index(ss@, asset@);
                if k != i {
                    assert(ss@[i as int].asset@ == asset@);
                }
            }
            return Some(i);
        }
        i += 1;
    }
    None
}

/// Record the collateral ratio snapshot of `asset` at time `now`: its
/// health factor is `current * 10000 / required` (rounded toward zero,
/// `i128::MAX` when nothing is required) and its risk label that of the
/// thresholds in force. The asset's earlier snapshot is replaced (or the
/// snapshot appended) and the list bounded.
///
/// Fails with `Overflow`, changing nothing, when the health factor leaves
/// `i128`.
pub fn record_collateral_ratio_snapshot(
    store: &mut AnalyticsStore,
    asset: String,
    current_ratio: i128,
    required_ratio: i128,
    collateral_value: i128,
    debt_value: i128,
    now: u64,
) -> (r: Result<CollateralRatioSnapshot, AnalyticsError>)
    requires
        required_ratio != 0 ==> fits_i128(current_ratio * BASIS_POINTS),
    ensures
        match ratio_health_factor(current_ratio, required_ratio) {
            Err(e) => r == Err::<CollateralRatioSnapshot, AnalyticsError>(e) && *final(store)
                == *old(store),
            Ok(hf) => {
                let s = r->Ok_0;
                &&& r is Ok
                &&& s.asset == asset
                &&& s.current_ratio == current_ratio
                &&& s.required_ratio == required_ratio
                &&& s.health_factor == hf
                &&& s.risk_level@ == risk_label(old(store).risk_thresholds_in_force(), hf)
                &&& s.collateral_value == collateral_value
                &&& s.debt_value == debt_value
                &&& s.timestamp == now
                &&& final(store).collateral_ratio_snapshots@ == keep_newest(
                    upsert_snapshot(old(store).collateral_ratio_snapshots@, s),
                    MAX_COLLATERAL_SNAPSHOTS as int,
                )
                &&& old(store).well_formed() ==> final(store).well_formed()
                &&& *final(store) == (AnalyticsStore {
                    collateral_ratio_snapshots: final(store).collateral_ratio_snapshots,
                    ..*old(store)
                })
            },
        },
{
    let health_factor = if required_ratio == 0 {
        i128::MAX
    } else {
        match (current_ratio * 10_000).checked_div(required_ratio) {
            Some(h) => h,
            None => return Err(AnalyticsError::Overflow),
        }
    };
    let risk_level = classify_collateral_risk_level(store, health_factor);
    let snapshot = CollateralRatioSnapshot {
        asset,
        current_ratio,
        required_ratio,
        health_factor,
        risk_level,
        collateral_value,
        debt_value,
        timestamp: now,
    };
    let ghost ss = store.collateral_ratio_snapshots@;
    match find_asset(&store.collateral_ratio_snapshots, &snapshot.asset) {
        Some(i) => {
            store.collateral_ratio_snapshots.set(i, snapshot.clone());
        },
        None => {
            store.collateral_ratio_snapshots.push(snapshot.clone());
        },
    }
    assert(store.collateral_ratio_snapshots@ == upsert_snapshot(ss, snapshot));
    trim_oldest(&mut store.collateral_ratio_snapshots, MAX_COLLATERAL_SNAPSHOTS);
    proof {
        if old(store).well_formed() {
            law_snapshot_per_asset(ss, snapshot);
        }
    }
    Ok(snapshot)
}

/// All current collateral ratio snapshots.
pub fn get_collateral_ratio_snapshots(store: &AnalyticsStore) -> (r: Vec<CollateralRatioSnapshot>)
    ensures
        r@ == store.collateral_ratio_snapshots@,
{
    copy_snapshots(&store.collateral_ratio_snapshots)
}

/// The first snapshot for `asset`, if any.
pub fn get_collateral_ratio_snapshot(store: &AnalyticsStore, asset: &String) -> (r: Option<
    CollateralRatioSnapshot,
>)
    ensures
        ({
            let ss = store.collateral_ratio_snapshots@;
            r == if has_asset(ss, asset@) {
                Some(ss[first_asset_index(ss, asset@)])
            } else {
                None::<CollateralRatioSnapshot>
            }
        }),
{
    match find_asset(&store.collateral_ratio_snapshots, asset) {
        Some(i) => Some(store.collateral_ratio_snapshots[i].clone()),
        None => None,
    }
}

/// The risk label of `health_factor` under the thresholds in force:
/// "safe", "warning", "danger" or "critical".
pub fn classify_collateral_risk_level(store: &AnalyticsStore, health_factor: i128) -> (r: String)
    ensures
        r@ == risk_label(store.risk_thresholds_in_force(), health_factor),
{
    let thresholds = get_collateral_risk_thresholds(store);
    if health_factor >= thresholds.safe_threshold {
        String::from_str("safe")
    } else if health_factor >= thresholds.warning_threshold {
        String::from_str("warning")
    } else if health_factor >= thresholds.danger_threshold {
        String::from_str("danger")
    } else {
        String::from_str("critical")
    }
}

/// The collateral risk thresholds in force: the configured ones, or the
/// defaults.
pub fn get_collateral_risk_thresholds(store: &AnalyticsStore) -> (r: CollateralRiskThresholds)
    ensures
        r == store.risk_thresholds_in_force(),
{
    match store.collateral_risk_thresholds {
        Some(th) => th,
        None => CollateralRiskThresholds {
            safe_threshold: 20_000,
            warning_threshold: 15_000,
            danger_threshold: 11_000,
        },
    }
}

/// Configure the collateral risk thresholds.
///
/// Fails with `NotInitialized` when no admin is set and with `Unauthorized`
/// unless `admin` is the admin; a failure changes nothing.
pub fn set_collateral_risk_thresholds(
    store: &mut AnalyticsStore,
    admin: &String,
    thresholds: CollateralRiskThresholds,
) -> (r: Result<(), AnalyticsError>)
    ensures
        old(store).admin is None ==> r == Err::<(), AnalyticsError>(AnalyticsError::NotInitialized),
        old(store).admin is Some && old(store).admin->0@ != admin@ ==> r == Err::<
            (),
            AnalyticsError,
        >(AnalyticsError::Unauthorized),
        r is Err ==> *final(store) == *old(store),
        old(store).admin is Some && old(store).admin->0@ == admin@ ==> r is Ok && *final(store)
            == (AnalyticsStore { collateral_risk_thresholds: Some(thresholds), ..*old(store) }),
{
    match &store.admin {
        Some(a) => {
            if *admin != *a {
                return Err(AnalyticsError::Unauthorized);
            }
        },
        None => return Err(AnalyticsError::NotInitialized),
    }
    store.collateral_risk_thresholds = Some(thresholds);
    Ok(())
}

/// Record the collateral ratio trend of `asset` at time `now` in the
/// bounded history.
pub fn record_collateral_ratio_trend(
    store: &mut AnalyticsStore,
    asset: String,
    avg_health_factor: i128,
    min_health_factor: i128,
    max_health_factor: i128,
    position_count: u64,
    danger_count: u64,
    critical_count: u64,
    now: u64,
) -> (r: Result<CollateralRatioTrend, AnalyticsError>)
    ensures
        r == Ok::<CollateralRatioTrend, AnalyticsError>(
            CollateralRatioTrend {
                asset,
                timestamp: now,
                avg_health_factor,
                min_health_factor,
                max_health_factor,
                position_count,
                danger_count,
                critical_count,
            },
        ),
        final(store).collateral_ratio_history@ == keep_newest(
            old(store).collateral_ratio_history@.push(r->Ok_0),
            MAX_COLLATERAL_HISTORY as int,
        ),
        *final(store) == (AnalyticsStore {
            collateral_ratio_history: final(store).collateral_ratio_history,
            ..*old(store)
        }),
        old(store).well_formed() ==> final(store).well_formed(),
{
    let trend = CollateralRatioTrend {
        asset,
        timestamp: now,
        avg_health_factor,
        min_health_factor,
        max_health_factor,
        position_count,
        danger_count,
        critical_count,
    };
    store.collateral_ratio_history.push(trend.clone());
    trim_oldest(&mut store.collateral_ratio_history, MAX_COLLATERAL_HISTORY);
    proof {
        law_keep_newest_bounded(
            old(store).collateral_ratio_history@.push(trend),
            MAX_COLLATERAL_HISTORY as int,
        );
    }
    Ok(trend)
}

/// The recorded trends of `asset`, oldest first.
pub fn get_collateral_ratio_history(store: &AnalyticsStore, asset: &String) -> (r: Vec<
    CollateralRatioTrend,
>)
    ensures
        r@ == store.collateral_ratio_history@.filter(trend_for(asset@)),
{
    let ghost h = store.collateral_ratio_history@;
    let ghost pred = trend_for(asset@);
    let mut filtered: Vec<CollateralRatioTrend> = Vec::new();
    proof {
        reveal(Seq::filter);
        assert(h.take(0).filter(pred) =~= Seq::<CollateralRatioTrend>::empty());
    }
    let mut i: usize = 0;
    while i < store.collateral_ratio_history.len()
        invariant
            i <= store.collateral_ratio_history.len(),
            h == store.collateral_ratio_history@,
            pred == trend_for(asset@),
            filtered@ == h.take(i as int).filter(pred),
        decreases store.collateral_ratio_history.len() - i,
    {
        proof {
            reveal(Seq::filter);
            assert(h.take(i + 1).drop_last() =~= h.take(i as int));
            assert(h.take(i + 1).last() == h[i as int]);
        }
        let trend = &store.collateral_ratio_history[i];
        if trend.asset == *asset {
            filtered.push(trend.clone());
        }
        assert(filtered@ =~= h.take(i + 1).filter(pred));
        i += 1;
    }
    assert(h.take(h.len() as int) =~= h);
    filtered
}

/// All recorded trends, oldest first.
pub fn get_all_collateral_ratio_history(store: &AnalyticsStore) -> (r: Vec<CollateralRatioTrend>)
    ensures
        r@ == store.collateral_ratio_history@,
{
    copy_trends(&store.collateral_ratio_history)
}

/// Whether no two snapshots of `s` are for the same asset.
pub open spec fn assets_unique(s: Seq<CollateralRatioSnapshot>) -> bool {
    forall|i: int, j: int| 0 <= i < j < s.len() ==> #[trigger] s[i].asset@ != #[trigger] s[j].asset@
}

/// Recording a snapshot keeps one snapshot per asset: when the assets were
/// distinct they stay distinct (bounding drops only whole entries), and
/// the asset's snapshot is the one just recorded.
pub proof fn law_snapshot_per_asset(s: Seq<CollateralRatioSnapshot>, snap: CollateralRatioSnapshot)
    requires
        assets_unique(s),
    ensures
        assets_unique(upsert_snapshot(s, snap)),
        assets_unique(keep_newest(upsert_snapshot(s, snap), MAX_COLLATERAL_SNAPSHOTS as int)),
        keep_newest(upsert_snapshot(s, snap), MAX_COLLATERAL_SNAPSHOTS as int).len()
            <= MAX_COLLATERAL_SNAPSHOTS,
        forall|i: int|
            0 <= i < upsert_snapshot(s, snap).len() && #[trigger] upsert_snapshot(s, snap)[i].asset@
                == snap.asset@ ==> upsert_snapshot(s, snap)[i] == snap,
{
    let u = upsert_snapshot(s, snap);
    if has_asset(s, snap.asset@) {
        let w = choose|i: int| 0 <= i < s.len() && #[trigger] s[i].asset@ == snap.asset@;
        assert(forall|j: int| 0 <= j < w ==> #[trigger] s[j].asset@ != snap.asset@);
        let k = first_asset_index(s, snap.asset@);
        assert(k == w);
        assert(u[k] == snap);
    } else {
        assert(u[s.len() as int] == snap);
    }
    let kept = keep_newest(u, MAX_COLLATERAL_SNAPSHOTS as int);
    assert forall|i: int, j: int| 0 <= i < j < kept.len() implies #[trigger] kept[i].asset@
        != #[trigger] kept[j].asset@ by {
        let off = u.len() - kept.len();
        assert(kept[i] == u[off + i]);
        assert(kept[j] == u[off + j]);
    }
}

} // verus!
