//! The activity log: recording, paging, filtering, and the risk and volume
//! panels computed over it.

use vstd::prelude::*;
use crate::analytics::store::{AnalyticsStore, MAX_ACTIVITY_LOG_SIZE};
use crate::analytics::types::{
    entries_view, opt_text_view, ActivityEntry, ActivityEntryView, AnalyticsError,
    RiskDistributionSummary, VolumeSummary,
};
use crate::analytics::users::{calculate_health_factor, calculate_user_risk_level, risk_level_of};
use crate::numeric::{sat_add, saturate_i128};

verus! {

/// Entries that the dashboard's activity panel shows.
pub const DASHBOARD_ACTIVITY_LIMIT: u32 = 20;

/// The page of `s` read newest first: the `offset` newest elements are
/// skipped and up to `limit` of the next ones are taken, newest first.
pub open spec fn newest_page<A>(s: Seq<A>, offset: int, limit: int) -> Seq<A> {
    let n = s.len() as int;
    let k = if offset >= n {
        0
    } else if limit < n - offset {
        limit
    } else {
        n - offset
    };
    Seq::new(k as nat, |j: int| s[n - 1 - offset - j])
}

/// The entry that `record_activity` appends.
pub open spec fn new_entry_view(
    user: Seq<char>,
    activity_type: Seq<char>,
    amount: i128,
    asset: Option<Seq<char>>,
    now: u64,
) -> ActivityEntryView {
    ActivityEntryView {
        user,
        activity_type,
        amount,
        asset,
        timestamp: now,
        metadata: Seq::empty(),
    }
}

/// `s` with `e` appended, dropping the oldest element when that makes it
/// longer than `max`.
pub open spec fn append_bounded<A>(s: Seq<A>, e: A, max: int) -> Seq<A> {
    let pushed = s.push(e);
    if pushed.len() > max {
        pushed.drop_first()
    } else {
        pushed
    }
}

/// Whether an entry is by `user`.
pub open spec fn by_user(user: Seq<char>) -> spec_fn(ActivityEntryView) -> bool {
    |e: ActivityEntryView| e.user == user
}

/// Whether an entry is of type `activity_type`.
pub open spec fn of_type(activity_type: Seq<char>) -> spec_fn(ActivityEntryView) -> bool {
    |e: ActivityEntryView| e.activity_type == activity_type
}

/// Whether the user of entry `k` of `s` appears in an earlier entry.
pub open spec fn seen_before(s: Seq<ActivityEntryView>, k: int) -> bool {
    exists|j: int| 0 <= j < k && #[trigger] s[j].user == s[k].user
}

/// The risk panel over log `s`: (users sampled, then the count at each risk
/// level 1 to 5), counting each user at its first entry by the level of
/// `level_of` applied to it.
pub open spec fn risk_tally(s: Seq<ActivityEntryView>, level_of: spec_fn(Seq<char>) -> i128) -> (
    nat,
    nat,
    nat,
    nat,
    nat,
    nat,
)
    decreases s.len(),
{
    if s.len() == 0 {
        (0, 0, 0, 0, 0, 0)
    } else {
        let t = risk_tally(s.drop_last(), level_of);
        if seen_before(s, s.len() - 1) {
            t
        } else {
            let level = level_of(s.last().user);
            (
                t.0 + 1,
                if level == 1 { t.1 + 1 } else { t.1 },
                if level == 2 { t.2 + 1 } else { t.2 },
                if level == 3 { t.3 + 1 } else { t.3 },
                if level == 4 { t.4 + 1 } else { t.4 },
                if level != 1 && level != 2 && level != 3 && level != 4 { t.5 + 1 } else { t.5 },
            )
        }
    }
}

/// The volume panel over log `s`: saturating sums of the amounts of the
/// deposit, borrow, withdraw, repay and liquidate entries.
pub open spec fn volume_tally(s: Seq<ActivityEntryView>) -> (int, int, int, int, int)
    decreases s.len(),
{
    if s.len() == 0 {
        (0, 0, 0, 0, 0)
    } else {
        let t = volume_tally(s.drop_last());
        let e = s.last();
        let a = e.amount as int;
        if e.activity_type == "deposit"@ {
            (saturate_i128(t.0 + a), t.1, t.2, t.3, t.4)
        } else if e.activity_type == "borrow"@ {
            (t.0, saturate_i128(t.1 + a), t.2, t.3, t.4)
        } else if e.activity_type == "withdraw"@ {
            (t.0, t.1, saturate_i128(t.2 + a), t.3, t.4)
        } else if e.activity_type == "repay"@ {
            (t.0, t.1, t.2, saturate_i128(t.3 + a), t.4)
        } else if e.activity_type == "liquidate"@ {
            (t.0, t.1, t.2, t.3, saturate_i128(t.4 + a))
        } else {
            t
        }
    }
}

impl AnalyticsStore {
    /// The models of the activity log, oldest first.
    pub open spec fn log_view(&self) -> Seq<ActivityEntryView> {
        entries_view(self.activity_log@)
    }

    /// The risk level of a user's health factor (`i128::MAX` when it
    /// cannot be had).
    pub open spec fn user_risk_level(&self) -> spec_fn(Seq<char>) -> i128 {
        |u: Seq<char>| risk_level_of(self.health_factor_or_max(u) as int)
    }

    /// Every user in the log has a health factor that can be computed.
    pub open spec fn log_users_health_computable(&self) -> bool {
        forall|i: int| 0 <= i < self.activity_log@.len() ==> self.user_health_computable(
            #[trigger] self.activity_log@[i].user@,
        )
    }
}

/// The page of `entries` read newest first, skipping `offset` entries and
/// taking up to `limit`.
fn newest_page_of(entries: &Vec<ActivityEntry>, offset: usize, limit: usize) -> (r: Vec<
    ActivityEntry,
>)
    ensures
        entries_view(r@) == newest_page(entries_view(entries@), offset as int, limit as int),
{
    let ghost ev = entries_view(entries@);
    let ghost page = newest_page(ev, offset as int, limit as int);
    let n = entries.len();
    let mut out: Vec<ActivityEntry> = Vec::new();
    if offset >= n {
        assert(entries_view(out@) =~= page);
        return out;
    }
    let k = if limit < n - offset {
        limit
    } else {
        n - offset
    };
    let mut j: usize = 0;
    while j < k
        invariant
            offset < n,
            n == entries.len(),
            ev == entries_view(entries@),
            page == newest_page(ev, offset as int, limit as int),
            k == page.len(),
            j <= k,
            k <= n - offset,
            entries_view(out@) == page.take(j as int),
        decreases k - j,
    {
        let idx = n - 1 - offset - j;
        let e = entries[idx].clone();
        assert(e@ == ev[idx as int]);
        assert(page[j as int] == ev[idx as int]);
        let ghost before = entries_view(out@);
        out.push(e);
        assert(entries_view(out@) =~= before.push(ev[idx as int]));
        assert(entries_view(out@) =~= page.take(j + 1));
        j += 1;
    }
    assert(page.take(k as int) =~= page);
    out
}

/// The entries of `entries` by the user `key` (when `match_user`) or of
/// the type `key` (otherwise), oldest first.
fn matching_entries(entries: &Vec<ActivityEntry>, key: &String, match_user: bool) -> (r: Vec<
    ActivityEntry,
>)
    ensures
        entries_view(r@) == entries_view(entries@).filter(
            if match_user {
                by_user(key@)
            } else {
                of_type(key@)
            },
        ),
{
    let ghost ev = entries_view(entries@);
    let ghost pred = if match_user {
        by_user(key@)
    } else {
        of_type(key@)
    };
    let mut out: Vec<ActivityEntry> = Vec::new();
    let mut i: usize = 0;
    proof {
        reveal(Seq::filter);
        assert(ev.take(0).filter(pred) =~= Seq::<ActivityEntryView>::empty());
    }
    while i < entries.len()
        invariant
            i <= entries.len(),
            ev == entries_view(entries@),
            pred == (if match_user {
                by_user(key@)
            } else {
                of_type(key@)
            }),
            entries_view(out@) == ev.take(i as int).filter(pred),
        decreases entries.len() - i,
    {
        let keep = if match_user {
            entries[i].user == *key
        } else {
            entries[i].activity_type == *key
        };
        proof {
            reveal(Seq::filter);
            assert(ev.take(i + 1).drop_last() =~= ev.take(i as int));
            assert(ev.take(i + 1).last() == ev[i as int]);
            assert(keep == pred(ev[i as int]));
        }
        if keep {
            let e = entries[i].clone();
            out.push(e);
            assert(entries_view(out@) =~= ev.take(i + 1).filter(pred));
        } else {
            assert(entries_view(out@) =~= ev.take(i + 1).filter(pred));
        }
        i += 1;
    }
    assert(ev.take(entries.len() as int) =~= ev);
    out
}

/// Append an activity of `user` at time `now` to the log, dropping the
/// oldest entry when the log would exceed its bound, and count one more
/// protocol transaction.
pub fn record_activity(
    store: &mut AnalyticsStore,
    user: &String,
    activity_type: String,
    amount: i128,
    asset: Option<String>,
    now: u64,
) -> (r: Result<(), AnalyticsError>)
    requires
        old(store).total_transactions < u64::MAX,
    ensures
        r is Ok,
        final(store).log_view() == append_bounded(
            old(store).log_view(),
            new_entry_view(user@, activity_type@, amount, opt_text_view(asset), now),
            MAX_ACTIVITY_LOG_SIZE as int,
        ),
        final(store).total_transactions == old(store).total_transactions + 1,
        old(store).well_formed() ==> final(store).well_formed(),
        *final(store) == (AnalyticsStore {
            activity_log: final(store).activity_log,
            total_transactions: final(store).total_transactions,
            ..*old(store)
        }),
{
    let ghost old_view = store.log_view();
    let ghost e = new_entry_view(user@, activity_type@, amount, opt_text_view(asset), now);
    let entry = ActivityEntry {
        user: user.clone(),
        activity_type,
        amount,
        asset,
        timestamp: now,
        metadata: Vec::new(),
    };
    assert(entry@ == e) by {
        assert(entry.metadata@.map_values(
            |p: (String, i128)| crate::analytics::types::metadata_pair_view(p),
        ) =~= Seq::<(Seq<char>, i128)>::empty());
    }
    store.activity_log.push(entry);
    assert(store.log_view() =~= old_view.push(e));
    if store.activity_log.len() > MAX_ACTIVITY_LOG_SIZE {
        let _oldest = store.activity_log.remove(0);
        assert(store.log_view() =~= old_view.push(e).drop_first());
    }
    store.total_transactions = store.total_transactions + 1;
    proof {
        if old(store).well_formed() {
            law_activity_log_bounded(old_view, e);
        }
    }
    Ok(())
}

/// Recent protocol-wide activity, newest first: the `offset` newest entries
/// are skipped and up to `limit` of the next ones returned.
pub fn get_recent_activity(store: &AnalyticsStore, limit: u32, offset: u32) -> (r: Result<
    Vec<ActivityEntry>,
    AnalyticsError,
>)
    ensures
        r is Ok,
        entries_view(r->Ok_0@) == newest_page(store.log_view(), offset as int, limit as int),
{
    Ok(newest_page_of(&store.activity_log, offset as usize, limit as usize))
}

/// Activity of `user`, newest first: the `offset` newest of the user's
/// entries are skipped and up to `limit` of the next ones returned.
pub fn get_user_activity_feed(store: &AnalyticsStore, user: &String, limit: u32, offset: u32) -> (r:
    Result<Vec<ActivityEntry>, AnalyticsError>)
    ensures
        r is Ok,
        entries_view(r->Ok_0@) == newest_page(
            store.log_view().filter(by_user(user@)),
            offset as int,
            limit as int,
        ),
{
    let mine = matching_entries(&store.activity_log, user, true);
    Ok(newest_page_of(&mine, offset as usize, limit as usize))
}

/// Up to `limit` of the newest entries of type `activity_type`, newest
/// first.
pub fn get_activity_by_type(store: &AnalyticsStore, activity_type: &String, limit: u32) -> (r:
    Result<Vec<ActivityEntry>, AnalyticsError>)
    ensures
        r is Ok,
        entries_view(r->Ok_0@) == newest_page(
            store.log_view().filter(of_type(activity_type@)),
            0,
            limit as int,
        ),
{
    let matching = matching_entries(&store.activity_log, activity_type, false);
    Ok(newest_page_of(&matching, 0, limit as usize))
}

/// The risk panel counts every user once: the users sampled are the sum of
/// the counts per level, and no more than the entries of the log.
pub proof fn law_risk_distribution_sums(s: Seq<ActivityEntryView>, level_of: spec_fn(Seq<char>) -> i128)
    ensures
        ({
            let t = risk_tally(s, level_of);
            t.0 == t.1 + t.2 + t.3 + t.4 + t.5 && t.0 <= s.len()
        }),
    decreases s.len(),
{
    if s.len() > 0 {
        law_risk_distribution_sums(s.drop_last(), level_of);
    }
}

/// Whether some text in `v` equals `t`.
fn contains_text(v: &Vec<String>, t: &String) -> (r: bool)
    ensures
        r == exists|k: int| 0 <= k < v.len() && #[trigger] v@[k]@ == t@,
{
    let mut i: usize = 0;
    while i < v.len()
        invariant
            i <= v.len(),
            forall|k: int| 0 <= k < i ==> #[trigger] v@[k]@ != t@,
        decreases v.len() - i,
    {
        if v[i] == *t {
            return true;
        }
        i += 1;
    }
    false
}

/// Whether some text in `v` is `u`.
pub open spec fn texts_contain(v: Seq<String>, u: Seq<char>) -> bool {
    exists|k: int| 0 <= k < v.len() && #[trigger] v[k]@ == u
}

/// Whether `u` is the user of one of the first `i` entries of `s`.
pub open spec fn user_among_first(s: Seq<ActivityEntryView>, i: int, u: Seq<char>) -> bool {
    exists|j: int| 0 <= j < i && #[trigger] s[j].user == u
}

/// The distribution of risk levels over the users seen in the activity
/// log: each user is counted once, at its first entry, by the risk level of
/// its health factor (`i128::MAX` when it cannot be had).
pub fn get_risk_distribution(store: &AnalyticsStore) -> (r: RiskDistributionSummary)
    requires
        store.activity_log.len() <= u32::MAX,
        store.log_users_health_computable(),
    ensures
        ({
            let t = risk_tally(store.log_view(), store.user_risk_level());
            &&& r.users_sampled == t.0
            &&& r.level_1 == t.1
            &&& r.level_2 == t.2
            &&& r.level_3 == t.3
            &&& r.level_4 == t.4
            &&& r.level_5 == t.5
        }),
{
    let ghost ev = store.log_view();
    let ghost lv = store.user_risk_level();
    let mut seen: Vec<String> = Vec::new();
    let mut summary = RiskDistributionSummary {
        users_sampled: 0,
        level_1: 0,
        level_2: 0,
        level_3: 0,
        level_4: 0,
        level_5: 0,
    };
    let n = store.activity_log.len();
    let mut i: usize = 0;
    while i < n
        invariant
            n == store.activity_log.len(),
            n <= u32::MAX,
            i <= n,
            ev == store.log_view(),
            lv == store.user_risk_level(),
            store.log_users_health_computable(),
            forall|u: Seq<char>| #[trigger]
                texts_contain(seen@, u) <==> user_among_first(ev, i as int, u),
            ({
                let t = risk_tally(ev.take(i as int), lv);
                &&& summary.users_sampled == t.0
                &&& summary.level_1 == t.1
                &&& summary.level_2 == t.2
                &&& summary.level_3 == t.3
                &&& summary.level_4 == t.4
                &&& summary.level_5 == t.5
            }),
        decreases n - i,
    {
        let ghost pre = ev.take(i as int);
        let ghost post = ev.take(i + 1);
        let ghost me = ev[i as int].user;
        proof {
            assert(post.drop_last() =~= pre);
            assert(post.last() == ev[i as int]);
            law_risk_distribution_sums(pre, lv);
            assert(me == store.activity_log@[i as int].user@);
            assert(seen_before(post, i as int) <==> user_among_first(ev, i as int, me)) by {
                if seen_before(post, i as int) {
                    let j = choose|j: int| 0 <= j < i && #[trigger] post[j].user == post[i as int].user;
                    assert(ev[j].user == me);
                }
                if user_among_first(ev, i as int, me) {
                    let j = choose|j: int| 0 <= j < i && #[trigger] ev[j].user == me;
                    assert(post[j].user == post[i as int].user);
                }
            }
        }
        let user = &store.activity_log[i];
        let already = contains_text(&seen, &user.user);
        assert(already == texts_contain(seen@, me));
        if !already {
            let ghost old_seen = seen@;
            seen.push(user.user.clone());
            proof {
                assert forall|u: Seq<char>| #[trigger]
                    texts_contain(seen@, u) <==> user_among_first(ev, i + 1, u) by {
                    if texts_contain(seen@, u) {
                        let k = choose|k: int| 0 <= k < seen.len() && #[trigger] seen@[k]@ == u;
                        if k < old_seen.len() {
                            assert(old_seen[k]@ == u);
                            assert(texts_contain(old_seen, u));
                            let j = choose|j: int| 0 <= j < i && #[trigger] ev[j].user == u;
                            assert(ev[j].user == u);
                        } else {
                            assert(ev[i as int].user == u);
                        }
                    }
                    if user_among_first(ev, i + 1, u) {
                        let j = choose|j: int| 0 <= j < i + 1 && #[trigger] ev[j].user == u;
                        if j < i {
                            assert(user_among_first(ev, i as int, u));
                            assert(texts_contain(old_seen, u));
                            let k = choose|k: int| 0 <= k < old_seen.len() && #[trigger] old_seen[k]@ == u;
                            assert(seen@[k]@ == u);
                        } else {
                            assert(seen@[old_seen.len() as int]@ == u);
                        }
                    }
                }
            }
            let health = match calculate_health_factor(store, &user.user) {
                Ok(h) => h,
                Err(_) => i128::MAX,
            };
            let level = calculate_user_risk_level(health);
            assert(level == lv(me));
            summary.users_sampled = summary.users_sampled.saturating_add(1);
            if level == 1 {
                summary.level_1 = summary.level_1.saturating_add(1);
            } else if level == 2 {
                summary.level_2 = summary.level_2.saturating_add(1);
            } else if level == 3 {
                summary.level_3 = summary.level_3.saturating_add(1);
            } else if level == 4 {
                summary.level_4 = summary.level_4.saturating_add(1);
            } else {
                summary.level_5 = summary.level_5.saturating_add(1);
            }
        } else {
            proof {
                assert forall|u: Seq<char>| #[trigger]
                    texts_contain(seen@, u) <==> user_among_first(ev, i + 1, u) by {
                    if user_among_first(ev, i + 1, u) {
                        let j = choose|j: int| 0 <= j < i + 1 && #[trigger] ev[j].user == u;
                        if j == i {
                            assert(texts_contain(seen@, me));
                        } else {
                            assert(user_among_first(ev, i as int, u));
                        }
                    }
                    if texts_contain(seen@, u) {
                        assert(user_among_first(ev, i as int, u));
                        let j = choose|j: int| 0 <= j < i && #[trigger] ev[j].user == u;
                        assert(ev[j].user == u);
                    }
                }
            }
        }
        i += 1;
    }
    assert(ev.take(n as int) =~= ev);
    summary
}

/// Volumes by activity type over the log: saturating sums of the amounts of
/// the "deposit", "borrow", "withdraw", "repay" and "liquidate" entries, and
/// the number of entries.
pub fn get_volume_summary(store: &AnalyticsStore) -> (r: VolumeSummary)
    requires
        store.activity_log.len() <= u32::MAX,
    ensures
        ({
            let t = volume_tally(store.log_view());
            &&& r.total_deposit_volume == t.0
            &&& r.total_borrow_volume == t.1
            &&& r.total_withdrawal_volume == t.2
            &&& r.total_repayment_volume == t.3
            &&& r.total_liquidation_volume == t.4
            &&& r.entry_count == store.activity_log.len()
        }),
{
    let ghost ev = store.log_view();
    let deposit = String::from_str("deposit");
    let borrow = String::from_str("borrow");
    let withdraw = String::from_str("withdraw");
    let repay = String::from_str("repay");
    let liquidate = String::from_str("liquidate");
    let mut summary = VolumeSummary {
        total_deposit_volume: 0,
        total_borrow_volume: 0,
        total_withdrawal_volume: 0,
        total_repayment_volume: 0,
        total_liquidation_volume: 0,
        entry_count: store.activity_log.len() as u32,
    };
    let n = store.activity_log.len();
    let mut i: usize = 0;
    while i < n
        invariant
            n == store.activity_log.len(),
            n <= u32::MAX,
            i <= n,
            ev == store.log_view(),
            deposit@ == "deposit"@,
            borrow@ == "borrow"@,
            withdraw@ == "withdraw"@,
            repay@ == "repay"@,
            liquidate@ == "liquidate"@,
            summary.entry_count == n,
            ({
                let t = volume_tally(ev.take(i as int));
                &&& summary.total_deposit_volume == t.0
                &&& summary.total_borrow_volume == t.1
                &&& summary.total_withdrawal_volume == t.2
                &&& summary.total_repayment_volume == t.3
                &&& summary.total_liquidation_volume == t.4
            }),
        decreases n - i,
    {
        proof {
            assert(ev.take(i + 1).drop_last() =~= ev.take(i as int));
            assert(ev.take(i + 1).last() == ev[i as int]);
        }
        let entry = &store.activity_log[i];
        if entry.activity_type == deposit {
            summary.total_deposit_volume = sat_add(summary.total_deposit_volume, entry.amount);
        } else if entry.activity_type == borrow {
            summary.total_borrow_volume = sat_add(summary.total_borrow_volume, entry.amount);
        } else if entry.activity_type == withdraw {
            summary.total_withdrawal_volume = sat_add(summary.total_withdrawal_volume, entry.amount);
        } else if entry.activity_type == repay {
            summary.total_repayment_volume = sat_add(summary.total_repayment_volume, entry.amount);
        } else if entry.activity_type == liquidate {
            summary.total_liquidation_volume = sat_add(
                summary.total_liquidation_volume,
                entry.amount,
            );
        }
        i += 1;
    }
    assert(ev.take(n as int) =~= ev);
    summary
}

/// The activity log stays bounded: appending to a log within the bound
/// keeps it within the bound, and the new entry is the newest.
pub proof fn law_activity_log_bounded(log: Seq<ActivityEntryView>, entry: ActivityEntryView)
    requires
        log.len() <= MAX_ACTIVITY_LOG_SIZE,
    ensures
        append_bounded(log, entry, MAX_ACTIVITY_LOG_SIZE as int).len() <= MAX_ACTIVITY_LOG_SIZE,
        append_bounded(log, entry, MAX_ACTIVITY_LOG_SIZE as int).last() == entry,
        log.len() < MAX_ACTIVITY_LOG_SIZE ==> append_bounded(
            log,
            entry,
            MAX_ACTIVITY_LOG_SIZE as int,
        ) == log.push(entry),
{
}

/// Pages are read newest first: a page holds as many entries as the limit
/// allows after the skipped ones, its `j`-th entry is the `j`-th newest
/// after them, and a first page of a non-empty log starts with its newest
/// entry.
pub proof fn law_newest_page_order<A>(s: Seq<A>, offset: int, limit: int)
    requires
        offset >= 0,
        limit >= 0,
    ensures
        ({
            let p = newest_page(s, offset, limit);
            &&& p.len() == if offset >= s.len() {
                0
            } else if limit < s.len() - offset {
                limit
            } else {
                s.len() - offset
            }
            &&& forall|j: int| 0 <= j < p.len() ==> #[trigger] p[j] == s[s.len() - 1 - offset - j]
            &&& (offset == 0 && limit > 0 && s.len() > 0) ==> p[0] == s.last()
        }),
{
}

/// A user's feed holds only that user's entries, and no more than asked.
pub proof fn law_feed_is_the_users(log: Seq<ActivityEntryView>, user: Seq<char>, offset: int, limit: int)
    requires
        offset >= 0,
        limit >= 0,
    ensures
        ({
            let p = newest_page(log.filter(by_user(user)), offset, limit);
            &&& p.len() <= limit
            &&& forall|j: int| 0 <= j < p.len() ==> (#[trigger] p[j]).user == user
        }),
{
    let f = log.filter(by_user(user));
    let p = newest_page(f, offset, limit);
    assert forall|j: int| 0 <= j < p.len() implies (#[trigger] p[j]).user == user by {
        let k = f.len() - 1 - offset - j;
        log.lemma_filter_pred(by_user(user), k);
    }
}

/// A by-type query holds only entries of that type, and at most `limit`.
pub proof fn law_by_type_is_the_type(log: Seq<ActivityEntryView>, activity_type: Seq<char>, limit: int)
    requires
        limit >= 0,
    ensures
        ({
            let p = newest_page(log.filter(of_type(activity_type)), 0, limit);
            &&& p.len() <= limit
            &&& forall|j: int| 0 <= j < p.len() ==> (#[trigger] p[j]).activity_type == activity_type
        }),
{
    let f = log.filter(of_type(activity_type));
    let p = newest_page(f, 0, limit);
    assert forall|j: int| 0 <= j < p.len() implies (#[trigger] p[j]).activity_type
        == activity_type by {
        let k = f.len() - 1 - j;
        log.lemma_filter_pred(of_type(activity_type), k);
    }
}

/// One more entry in the log adds to the risk panel only for a user not
/// seen before: that user is sampled once more and counted at exactly its
/// own level (levels other than 1 to 4 count as level 5); an entry by a
/// user already seen changes nothing.
pub proof fn law_risk_tally_counts_each_new_user_at_its_level(
    s: Seq<ActivityEntryView>,
    e: ActivityEntryView,
    level_of: spec_fn(Seq<char>) -> i128,
)
    ensures
        ({
            let t = risk_tally(s, level_of);
            let t2 = risk_tally(s.push(e), level_of);
            let level = level_of(e.user);
            &&& (exists|j: int| 0 <= j < s.len() && #[trigger] s[j].user == e.user) ==> t2 == t
            &&& !(exists|j: int| 0 <= j < s.len() && #[trigger] s[j].user == e.user) ==> {
                &&& t2.0 == t.0 + 1
                &&& level == 1 ==> t2 == (t.0 + 1, t.1 + 1, t.2, t.3, t.4, t.5)
                &&& level == 2 ==> t2 == (t.0 + 1, t.1, t.2 + 1, t.3, t.4, t.5)
                &&& level == 3 ==> t2 == (t.0 + 1, t.1, t.2, t.3 + 1, t.4, t.5)
                &&& level == 4 ==> t2 == (t.0 + 1, t.1, t.2, t.3, t.4 + 1, t.5)
                &&& (level < 1 || level > 4) ==> t2 == (t.0 + 1, t.1, t.2, t.3, t.4, t.5 + 1)
            }
        }),
{
    let s2 = s.push(e);
    assert(s2.drop_last() =~= s);
    assert(s2.last() == e);
    if exists|j: int| 0 <= j < s.len() && #[trigger] s[j].user == e.user {
        let j = choose|j: int| 0 <= j < s.len() && #[trigger] s[j].user == e.user;
        assert(s2[j].user == s2[s2.len() - 1].user);
        assert(seen_before(s2, s2.len() - 1));
    } else {
        assert(!seen_before(s2, s2.len() - 1)) by {
            if seen_before(s2, s2.len() - 1) {
                let j = choose|j: int| 0 <= j < s2.len() - 1 && #[trigger] s2[j].user == s2[s2.len() - 1].user;
                assert(s[j].user == e.user);
            }
        }
    }
}

/// One more entry in the log adds its amount (saturating) to exactly the
/// volume of its type: deposits, borrows, withdrawals, repayments or
/// liquidations; an entry of any other type changes no volume.
pub proof fn law_volume_tally_adds_to_its_type(s: Seq<ActivityEntryView>, e: ActivityEntryView)
    ensures
        ({
            let t = volume_tally(s);
            let t2 = volume_tally(s.push(e));
            let a = e.amount as int;
            &&& e.activity_type == "deposit"@ ==> t2 == (saturate_i128(t.0 + a), t.1, t.2, t.3, t.4)
            &&& e.activity_type == "borrow"@ ==> t2 == (t.0, saturate_i128(t.1 + a), t.2, t.3, t.4)
            &&& e.activity_type == "withdraw"@ ==> t2 == (t.0, t.1, saturate_i128(t.2 + a), t.3, t.4)
            &&& e.activity_type == "repay"@ ==> t2 == (t.0, t.1, t.2, saturate_i128(t.3 + a), t.4)
            &&& e.activity_type == "liquidate"@ ==> t2 == (t.0, t.1, t.2, t.3, saturate_i128(t.4 + a))
            &&& (e.activity_type != "deposit"@ && e.activity_type != "borrow"@
                && e.activity_type != "withdraw"@ && e.activity_type != "repay"@
                && e.activity_type != "liquidate"@) ==> t2 == t
        }),
{
    let s2 = s.push(e);
    assert(s2.drop_last() =~= s);
    assert(s2.last() == e);
    reveal_strlit("deposit");
    reveal_strlit("borrow");
    reveal_strlit("withdraw");
    reveal_strlit("repay");
    reveal_strlit("liquidate");
    assert("deposit"@.len() == 7 && "borrow"@.len() == 6 && "withdraw"@.len() == 8
        && "repay"@.len() == 5 && "liquidate"@.len() == 9);
    let t = volume_tally(s);
    if e.activity_type != "deposit"@ && e.activity_type != "borrow"@ && e.activity_type
        != "withdraw"@ && e.activity_type != "repay"@ && e.activity_type != "liquidate"@ {
        assert(volume_tally(s2) == t);
    }
}

/// Volumes add up: the liquidation volume of a log of liquidations with
/// non-negative amounts whose total fits in `i128` is the sum of their
/// amounts, and no other volume moves.
pub proof fn law_liquidation_volume_sums(s: Seq<ActivityEntryView>)
    requires
        forall|i: int| 0 <= i < s.len() ==> (#[trigger] s[i]).activity_type == "liquidate"@,
        forall|i: int| 0 <= i < s.len() ==> 0 <= (#[trigger] s[i]).amount,
        amounts_sum(s) <= i128::MAX,
    ensures
        volume_tally(s) == (0int, 0int, 0int, 0int, amounts_sum(s)),
    decreases s.len(),
{
    if s.len() > 0 {
        let p = s.drop_last();
        assert forall|i: int| 0 <= i < p.len() implies (#[trigger] p[i]).activity_type == "liquidate"@
            && 0 <= p[i].amount by {
            assert(p[i] == s[i]);
        }
        assert(0 <= s[s.len() - 1].amount);
        law_liquidation_volume_sums(p);
        assert(s.last().activity_type == "liquidate"@);
        reveal_strlit("liquidate");
        reveal_strlit("deposit");
        reveal_strlit("borrow");
        reveal_strlit("withdraw");
        reveal_strlit("repay");
        lemma_amounts_sum_nonnegative(p);
        let t = volume_tally(p);
        assert(t == (0int, 0int, 0int, 0int, amounts_sum(p)));
        let a = s.last().amount as int;
        assert(amounts_sum(s) == amounts_sum(p) + a);
        assert("deposit"@.len() == 7 && "borrow"@.len() == 6 && "withdraw"@.len() == 8
            && "repay"@.len() == 5 && "liquidate"@.len() == 9);
        assert(volume_tally(s) == (t.0, t.1, t.2, t.3, saturate_i128(t.4 + a)));
        assert(saturate_i128(t.4 + a) == amounts_sum(s));
    } else {
        assert(volume_tally(s) == (0int, 0int, 0int, 0int, 0int));
    }
}

/// The sum of the amounts of the entries of `s`.
pub open spec fn amounts_sum(s: Seq<ActivityEntryView>) -> int
    decreases s.len(),
{
    if s.len() == 0 {
        0
    } else {
        amounts_sum(s.drop_last()) + s.last().amount
    }
}

/// A sum of non-negative amounts is non-negative.
proof fn lemma_amounts_sum_nonnegative(s: Seq<ActivityEntryView>)
    requires
        forall|i: int| 0 <= i < s.len() ==> 0 <= (#[trigger] s[i]).amount,
    ensures
        0 <= amounts_sum(s),
    decreases s.len(),
{
    if s.len() > 0 {
        let p = s.drop_last();
        assert forall|i: int| 0 <= i < p.len() implies 0 <= (#[trigger] p[i]).amount by {
            assert(p[i] == s[i]);
        }
        lemma_amounts_sum_nonnegative(p);
        assert(0 <= s[s.len() - 1].amount);
    }
}

} // verus!
