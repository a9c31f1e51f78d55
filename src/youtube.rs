//! The streaming signal: a broadcast listing reduces to one boolean, and the
//! poller reports each change of it.
use crate::models::{LiveBroadcast, LiveBroadcastsResponse, TokenInfo};
use vstd::prelude::*;

verus! {

/// Seconds between two status queries.
pub const POLL_INTERVAL_SECS: u64 = 5;

/// A broadcast is live when its life-cycle status is exactly `live`.
pub open spec fn is_live(b: LiveBroadcast) -> bool {
    match b.status.life_cycle_status {
        Some(s) => s@ == "live"@,
        None => false,
    }
}

/// A listing shows streaming when at least one of its broadcasts is live.
pub open spec fn streaming_in(items: Seq<LiveBroadcast>) -> bool {
    exists|i: int| 0 <= i < items.len() && is_live(#[trigger] items[i])
}

/// Whether the broadcast is live.
pub fn broadcast_is_live(b: &LiveBroadcast) -> (r: bool)
    ensures
        r == is_live(*b),
{
    match &b.status.life_cycle_status {
        Some(s) => {
            let live = "live".to_owned();
            *s == live
        },
        None => false,
    }
}

/// Reduces a listing of the user's active broadcasts to the streaming signal.
pub fn check_youtube_streaming(response: &LiveBroadcastsResponse) -> (r: bool)
    ensures
        r == streaming_in(response.items@),
{
    let mut i: usize = 0;
    while i < response.items.len()
        invariant
            i <= response.items@.len(),
            forall|j: int| 0 <= j < i ==> !is_live(#[trigger] response.items@[j]),
        decreases response.items@.len() - i,
    {
        if broadcast_is_live(&response.items[i]) {
            return true;
        }
        i = i + 1;
    }
    false
}

/// A change of the streaming signal between two polls.
#[derive(PartialEq, Eq, Structural, Debug, Clone, Copy)]
pub struct Transition {
    pub previous: bool,
    pub current: bool,
}

/// The signal after a poll that saw `observed` (nothing where the query
/// failed), and the transition to report, if any.
pub open spec fn poll_transition(last: bool, observed: Option<bool>) -> (bool, Option<Transition>) {
    match observed {
        Some(now) => if now != last {
            (now, Some(Transition { previous: last, current: now }))
        } else {
            (last, None)
        },
        None => (last, None),
    }
}

/// What a status query gave: the listing's signal, or nothing if it failed.
pub open spec fn observed_signal(response: Option<&LiveBroadcastsResponse>) -> Option<bool> {
    match response {
        Some(r) => Some(streaming_in(r.items@)),
        None => None,
    }
}

/// The retained streaming signal, mutated only by polls.
pub struct StatusPoller {
    pub is_streaming: bool,
}

impl StatusPoller {
    /// The signal starts out off.
    pub fn new() -> (r: StatusPoller)
        ensures
            !r.is_streaming,
    {
        StatusPoller { is_streaming: false }
    }

    /// Takes in the result of one status query (`None` where it failed) and
    /// returns the transition it causes. A failed query keeps the signal.
    pub fn observe(&mut self, response: Option<&LiveBroadcastsResponse>) -> (r: Option<Transition>)
        ensures
            (final(self).is_streaming, r) == poll_transition(
                old(self).is_streaming,
                observed_signal(response),
            ),
    {
        match response {
            Some(listing) => {
                let now = check_youtube_streaming(listing);
                if now != self.is_streaming {
                    let previous = self.is_streaming;
                    self.is_streaming = now;
                    Some(Transition { previous, current: now })
                } else {
                    None
                }
            },
            None => None,
        }
    }
}

/// Whether the credential has to be refreshed before the next query.
pub fn needs_refresh(token: &TokenInfo, now: i64) -> (r: bool)
    ensures
        r == !token.valid_at(now as int),
{
    !token.is_valid_at(now)
}

/// An empty listing, or one with no live broadcast, shows no streaming; one
/// with a live broadcast shows streaming.
pub proof fn lemma_streaming_reduction(items: Seq<LiveBroadcast>)
    ensures
        items.len() == 0 ==> !streaming_in(items),
        (forall|i: int| 0 <= i < items.len() ==> !is_live(#[trigger] items[i])) ==> !streaming_in(items),
        (exists|i: int| 0 <= i < items.len() && is_live(#[trigger] items[i])) ==> streaming_in(items),
{
}

/// A repeated result reports nothing: after any poll that saw `x`, another
/// poll that sees `x` leaves the signal and reports no transition.
pub proof fn lemma_repeat_reports_nothing(last: bool, x: bool)
    ensures
        poll_transition(poll_transition(last, Some(x)).0, Some(x)) == (x, None::<Transition>),
{
}

/// A failed query keeps the signal and reports nothing.
pub proof fn lemma_failed_query_keeps_signal(last: bool)
    ensures
        poll_transition(last, None) == (last, None::<Transition>),
{
}

/// From off, a poll that sees streaming and then one that does not report
/// exactly two transitions, off to on and then on to off.
pub proof fn lemma_flip_reports_two_transitions()
    ensures
        ({
            let (s1, e1) = poll_transition(false, Some(true));
            let (s2, e2) = poll_transition(s1, Some(false));
            &&& e1 == Some(Transition { previous: false, current: true })
            &&& e2 == Some(Transition { previous: true, current: false })
            &&& !s2
        }),
{
}

} // verus!
