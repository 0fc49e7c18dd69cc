//! The health tracker: the failure counter and the blacklist of a provider.

use crate::models::Provider;
use vstd::prelude::*;

verus! {

/// `x`, held at the ends of the range of `i64`.
pub open spec fn held(x: int) -> i64 {
    if x > i64::MAX {
        i64::MAX
    } else if x < i64::MIN {
        i64::MIN
    } else {
        x as i64
    }
}

/// The counter after one more failure.
pub open spec fn next_failures(counter: i64) -> i64 {
    held(counter + 1)
}

/// The instant until which a provider blacklisted at `now` stays out of selection.
pub open spec fn blacklist_expiry(now: i64, minutes: i64) -> i64 {
    held(now + minutes * 60)
}

/// What holds of the health fields of every provider: the counter is never negative and the
/// threshold is positive.
pub open spec fn health_wf(p: Provider) -> bool {
    p.consecutive_failures >= 0 && p.failure_threshold >= 1
}

/// Whether a status code counts as success: 200 up to, not including, 300.
pub open spec fn is_success_status(status: Option<u16>) -> bool {
    match status {
        Some(code) => 200 <= code < 300,
        None => false,
    }
}

/// Whether a success on `p` is a recovery: failures had been counted before it.
pub open spec fn success_recovers(p: Provider) -> bool {
    p.consecutive_failures > 0
}

/// The provider after a success at `now`: the counter is cleared, the blacklist stays.
pub open spec fn after_success(p: Provider, now: i64) -> Provider {
    Provider { consecutive_failures: 0, updated_at: now, ..p }
}

/// Whether a failure on `p` reaches the threshold and blacklists it.
pub open spec fn failure_blacklists(p: Provider) -> bool {
    next_failures(p.consecutive_failures) >= p.failure_threshold
}

/// The provider after a failure at `now`: the counter goes up by one, and where it reaches
/// the threshold the provider is blacklisted for its blacklist duration.
pub open spec fn after_failure(p: Provider, now: i64) -> Provider {
    Provider {
        consecutive_failures: next_failures(p.consecutive_failures),
        blacklisted_until: if failure_blacklists(p) {
            Some(blacklist_expiry(now, p.blacklist_minutes))
        } else {
            p.blacklisted_until
        },
        updated_at: now,
        ..p
    }
}

/// The provider after the operator has cleared its failures at `now`.
pub open spec fn after_reset(p: Provider, now: i64) -> Provider {
    Provider { consecutive_failures: 0, blacklisted_until: None, updated_at: now, ..p }
}

/// Whether the provider may be selected at `now`: it has no blacklist expiry, or the expiry
/// is at or before `now`.
pub open spec fn not_blacklisted(p: Provider, now: i64) -> bool {
    match p.blacklisted_until {
        Some(until) => until <= now,
        None => true,
    }
}

/// Whether a status code counts as success.
pub fn status_is_success(status: Option<u16>) -> (r: bool)
    ensures
        r == is_success_status(status),
{
    match status {
        Some(code) => 200 <= code && code < 300,
        None => false,
    }
}

/// `x`, held at the ends of the range of `i64`.
pub fn hold(x: i128) -> (r: i64)
    ensures
        r == held(x as int),
{
    if x > i64::MAX as i128 {
        i64::MAX
    } else if x < i64::MIN as i128 {
        i64::MIN
    } else {
        x as i64
    }
}

/// Records a success on `provider`. The result says whether failures had been counted
/// before, which is when the caller reports a recovery.
pub fn record_success(provider: &mut Provider, now: i64) -> (recovered: bool)
    ensures
        *final(provider) == after_success(*old(provider), now),
        recovered == success_recovers(*old(provider)),
{
    let had_previous_failures = provider.consecutive_failures > 0;
    provider.consecutive_failures = 0;
    provider.updated_at = now;
    had_previous_failures
}

/// Records a failure on `provider`. The result says whether this failure blacklisted the
/// provider, which is when the caller reports the blacklisting, and gives the provider's name.
pub fn record_failure(provider: &mut Provider, now: i64) -> (r: (bool, String))
    ensures
        *final(provider) == after_failure(*old(provider), now),
        r.0 == failure_blacklists(*old(provider)),
        r.1@ == old(provider).name@,
{
    let new_failures: i64 = hold(provider.consecutive_failures as i128 + 1);
    let was_blacklisted = new_failures >= provider.failure_threshold;
    if was_blacklisted {
        let until: i64 = hold(now as i128 + provider.blacklist_minutes as i128 * 60);
        provider.blacklisted_until = Some(until);
    }
    provider.consecutive_failures = new_failures;
    provider.updated_at = now;
    (was_blacklisted, provider.name.clone())
}

/// Clears the failures and the blacklist of `provider`, as the operator asks.
pub fn reset_failures(provider: &mut Provider, now: i64)
    ensures
        *final(provider) == after_reset(*old(provider), now),
{
    provider.consecutive_failures = 0;
    provider.blacklisted_until = None;
    provider.updated_at = now;
}

/// What can happen to the health fields of a provider.
pub enum HealthEvent {
    Success,
    Failure,
    Reset,
}

/// The provider after one event at `now`.
pub open spec fn after_event(p: Provider, event: HealthEvent, now: i64) -> Provider {
    match event {
        HealthEvent::Success => after_success(p, now),
        HealthEvent::Failure => after_failure(p, now),
        HealthEvent::Reset => after_reset(p, now),
    }
}

/// The provider after a run of events, each with its instant.
pub open spec fn after_events(p: Provider, events: Seq<(HealthEvent, i64)>) -> Provider
    decreases events.len(),
{
    if events.len() == 0 {
        p
    } else {
        after_event(after_events(p, events.drop_last()), events.last().0, events.last().1)
    }
}

/// The provider after one failure at each of `times`.
pub open spec fn after_failures(p: Provider, times: Seq<i64>) -> Provider
    decreases times.len(),
{
    if times.len() == 0 {
        p
    } else {
        after_failure(after_failures(p, times.drop_last()), times.last())
    }
}

/// How many of the failures at `times` blacklisted the provider.
pub open spec fn blacklistings(p: Provider, times: Seq<i64>) -> nat
    decreases times.len(),
{
    if times.len() == 0 {
        0
    } else {
        let earlier = blacklistings(p, times.drop_last());
        if failure_blacklists(after_failures(p, times.drop_last())) {
            earlier + 1
        } else {
            earlier
        }
    }
}

/// The counter is never negative and the threshold stays positive, whatever happens.
pub proof fn lemma_health_wf_kept(p: Provider, events: Seq<(HealthEvent, i64)>)
    requires
        health_wf(p),
    ensures
        health_wf(after_events(p, events)),
    decreases events.len(),
{
    if events.len() > 0 {
        lemma_health_wf_kept(p, events.drop_last());
    }
}

/// A blacklist expiry is set by a failure alone, and only by one that brings the counter to
/// the threshold or above; it is then the instant of the failure plus the blacklist duration.
pub proof fn lemma_blacklist_set_at_threshold(p: Provider, event: HealthEvent, now: i64)
    ensures
        ({
            let q = after_event(p, event, now);
            q.blacklisted_until is Some && q.blacklisted_until != p.blacklisted_until ==> event
                is Failure && q.consecutive_failures >= q.failure_threshold
                && q.blacklisted_until == Some(blacklist_expiry(now, p.blacklist_minutes))
        }),
{
}

/// After a success the counter is zero, and stays zero until the next failure.
pub proof fn lemma_success_clears_until_failure(
    p: Provider,
    now: i64,
    later: Seq<(HealthEvent, i64)>,
)
    requires
        forall|i: int| 0 <= i < later.len() ==> !(#[trigger] later[i].0 is Failure),
    ensures
        after_events(after_success(p, now), later).consecutive_failures == 0,
    decreases later.len(),
{
    if later.len() > 0 {
        assert(!(later.last().0 is Failure));
        assert forall|i: int| 0 <= i < later.drop_last().len() implies !(
        #[trigger] later.drop_last()[i].0 is Failure) by {
            assert(later.drop_last()[i] == later[i]);
        }
        lemma_success_clears_until_failure(p, now, later.drop_last());
    }
}

proof fn lemma_failures_below_threshold(p: Provider, times: Seq<i64>)
    requires
        health_wf(p),
        p.consecutive_failures == 0,
        times.len() < p.failure_threshold,
    ensures
        after_failures(p, times).consecutive_failures == times.len(),
        after_failures(p, times).failure_threshold == p.failure_threshold,
        after_failures(p, times).blacklist_minutes == p.blacklist_minutes,
        after_failures(p, times).blacklisted_until == p.blacklisted_until,
        blacklistings(p, times) == 0,
    decreases times.len(),
{
    if times.len() > 0 {
        lemma_failures_below_threshold(p, times.drop_last());
    }
}

/// With threshold N, N failures in a row on a provider without counted failures blacklist it
/// exactly once, at the last of them; from then until the expiry the provider is not eligible.
pub proof fn lemma_threshold_blacklists_once(p: Provider, times: Seq<i64>, now: i64)
    requires
        health_wf(p),
        p.consecutive_failures == 0,
        times.len() == p.failure_threshold,
    ensures
        blacklistings(p, times) == 1,
        failure_blacklists(after_failures(p, times.drop_last())),
        after_failures(p, times).consecutive_failures == p.failure_threshold,
        after_failures(p, times).blacklisted_until == Some(
            blacklist_expiry(times.last(), p.blacklist_minutes),
        ),
        now < blacklist_expiry(times.last(), p.blacklist_minutes) ==> !not_blacklisted(
            after_failures(p, times),
            now,
        ),
{
    lemma_failures_below_threshold(p, times.drop_last());
}

/// Once a failure has blacklisted a provider, the next success is a recovery and clears the
/// counter, a second success is none, and from the expiry on the provider is eligible again.
pub proof fn lemma_recovery_after_blacklist(p: Provider, failed_at: i64, ok_at: i64, now: i64)
    requires
        health_wf(p),
        failure_blacklists(p),
    ensures
        ({
            let blacklisted = after_failure(p, failed_at);
            let recovered = after_success(blacklisted, ok_at);
            &&& success_recovers(blacklisted)
            &&& recovered.consecutive_failures == 0
            &&& !success_recovers(recovered)
            &&& recovered.blacklisted_until == Some(
                blacklist_expiry(failed_at, p.blacklist_minutes),
            )
            &&& now >= blacklist_expiry(failed_at, p.blacklist_minutes) ==> not_blacklisted(
                recovered,
                now,
            )
        }),
{
}

} // verus!
