//! The subscription manager's decisions: the connect and retry state
//! machine, and what becomes of each notification once subscribed. The
//! caller performs each action (an attempt, a wait) and reports back.

use vstd::prelude::*;
use crate::channel::{ChannelClosed, HandOff};
use crate::event::{carries, normalize, parse_error, RawRecord, RecordParseError};

verus! {

/// How often and how patiently to try to subscribe.
#[derive(Clone, Copy, Debug, PartialEq, Eq)]
pub struct RetryPolicy {
    /// Attempts in all before giving up.
    pub max_attempts: u32,
    /// The wait after a failed attempt, in milliseconds.
    pub retry_delay_ms: u64,
}

impl RetryPolicy {
    /// A thousand attempts, one second apart.
    pub fn standard() -> (r: RetryPolicy)
        ensures
            r.max_attempts == 1000,
            r.retry_delay_ms == 1000,
    {
        RetryPolicy { max_attempts: 1000, retry_delay_ms: 1000 }
    }
}

impl Default for RetryPolicy {
    fn default() -> (r: RetryPolicy)
        ensures
            r.max_attempts == 1000,
            r.retry_delay_ms == 1000,
    {
        RetryPolicy::standard()
    }
}

/// Every attempt to subscribe failed.
#[derive(Clone, Copy, Debug, PartialEq, Eq)]
pub struct ExhaustedRetries {
    /// The attempts made.
    pub attempts: u32,
}

#[derive(Clone, Copy, Debug, PartialEq, Eq)]
pub enum SubscriptionState {
    Disconnected,
    Connecting,
    Subscribed,
    Exhausted,
}

/// What the manager asks its caller to do next.
#[derive(Clone, Copy, Debug, PartialEq, Eq)]
pub enum ConnectAction {
    /// Try to connect and subscribe now.
    Attempt,
    /// Wait this many milliseconds, then try to connect and subscribe.
    WaitThenAttempt(u64),
    /// Subscribed: receive notifications.
    Monitor,
    /// Stop: no attempt succeeded.
    GiveUp(ExhaustedRetries),
}

/// The manager as its contracts see it: the policy, the state, and the
/// attempts asked for since the last `begin`.
pub struct ManagerView {
    pub policy: RetryPolicy,
    pub state: SubscriptionState,
    pub attempts: u32,
}

pub struct SubscriptionManager {
    policy: RetryPolicy,
    state: SubscriptionState,
    attempts: u32,
}

impl View for SubscriptionManager {
    type V = ManagerView;

    closed spec fn view(&self) -> ManagerView {
        ManagerView { policy: self.policy, state: self.state, attempts: self.attempts }
    }
}

impl ManagerView {
    pub open spec fn wf(self) -> bool {
        &&& self.attempts <= self.policy.max_attempts
        &&& self.state == SubscriptionState::Connecting ==> self.attempts >= 1
    }
}

/// The manager before any attempt.
pub open spec fn initial(policy: RetryPolicy) -> ManagerView {
    ManagerView { policy, state: SubscriptionState::Disconnected, attempts: 0 }
}

/// Starting to connect: the first attempt, or giving up at once when the
/// policy allows none.
pub open spec fn begin_step(v: ManagerView) -> (ManagerView, ConnectAction) {
    if v.policy.max_attempts == 0 {
        (
            ManagerView { state: SubscriptionState::Exhausted, attempts: 0, ..v },
            ConnectAction::GiveUp(ExhaustedRetries { attempts: 0 }),
        )
    } else {
        (
            ManagerView { state: SubscriptionState::Connecting, attempts: 1, ..v },
            ConnectAction::Attempt,
        )
    }
}

/// The outcome of an attempt: subscribed; or a wait and one more attempt
/// while the policy allows; or giving up.
pub open spec fn outcome_step(v: ManagerView, subscribed: bool) -> (ManagerView, ConnectAction) {
    if subscribed {
        (ManagerView { state: SubscriptionState::Subscribed, ..v }, ConnectAction::Monitor)
    } else if v.attempts < v.policy.max_attempts {
        (
            ManagerView { attempts: (v.attempts + 1) as u32, ..v },
            ConnectAction::WaitThenAttempt(v.policy.retry_delay_ms),
        )
    } else {
        (
            ManagerView { state: SubscriptionState::Exhausted, ..v },
            ConnectAction::GiveUp(ExhaustedRetries { attempts: v.attempts }),
        )
    }
}

impl SubscriptionManager {
    pub fn new(policy: RetryPolicy) -> (r: SubscriptionManager)
        ensures
            r@ == initial(policy),
            r@.wf(),
    {
        SubscriptionManager { policy, state: SubscriptionState::Disconnected, attempts: 0 }
    }

    /// Starts a round of connecting; the count of attempts starts afresh.
    pub fn begin(&mut self) -> (r: ConnectAction)
        requires
            old(self)@.state == SubscriptionState::Disconnected,
        ensures
            (final(self)@, r) == begin_step(old(self)@),
            final(self)@.wf(),
    {
        if self.policy.max_attempts == 0 {
            self.state = SubscriptionState::Exhausted;
            self.attempts = 0;
            ConnectAction::GiveUp(ExhaustedRetries { attempts: 0 })
        } else {
            self.state = SubscriptionState::Connecting;
            self.attempts = 1;
            ConnectAction::Attempt
        }
    }

    /// Takes the outcome of the attempt last asked for.
    pub fn record_outcome(&mut self, subscribed: bool) -> (r: ConnectAction)
        requires
            old(self)@.wf(),
            old(self)@.state == SubscriptionState::Connecting,
        ensures
            (final(self)@, r) == outcome_step(old(self)@, subscribed),
            final(self)@.wf(),
    {
        if subscribed {
            self.state = SubscriptionState::Subscribed;
            ConnectAction::Monitor
        } else if self.attempts < self.policy.max_attempts {
            self.attempts = self.attempts + 1;
            ConnectAction::WaitThenAttempt(self.policy.retry_delay_ms)
        } else {
            self.state = SubscriptionState::Exhausted;
            ConnectAction::GiveUp(ExhaustedRetries { attempts: self.attempts })
        }
    }

    /// The subscription's stream ended or failed: back to disconnected.
    pub fn stream_lost(&mut self)
        requires
            old(self)@.state == SubscriptionState::Subscribed,
        ensures
            final(self)@ == (ManagerView { state: SubscriptionState::Disconnected, ..old(self)@ }),
            final(self)@.wf() == old(self)@.wf(),
    {
        self.state = SubscriptionState::Disconnected;
    }

    pub fn state(&self) -> (r: SubscriptionState)
        ensures
            r == self@.state,
    {
        self.state
    }

    /// Attempts asked for since the last `begin`.
    pub fn attempts(&self) -> (r: u32)
        ensures
            r == self@.attempts,
    {
        self.attempts
    }

    pub fn policy(&self) -> (r: RetryPolicy)
        ensures
            r == self@.policy,
    {
        self.policy
    }
}

/// What became of one notification once subscribed.
#[derive(Clone, Copy, Debug, PartialEq, Eq)]
pub enum Delivery {
    /// Normalized and handed to the consumer.
    Delivered,
    /// Not a well-formed record: dropped; receiving goes on.
    Dropped(RecordParseError),
    /// The consumer has closed its end: receiving ends, with no retry.
    Stop,
}

/// Normalizes one notification and hands the event to the consumer. A
/// record that does not normalize is dropped and nothing reaches the
/// channel; a closed channel asks the caller to stop.
pub fn deliver(raw: RawRecord, channel: &mut HandOff) -> (r: Delivery)
    requires
        old(channel).wf(),
    ensures
        final(channel).wf(),
        final(channel).is_shut() == old(channel).is_shut(),
        parse_error(raw) is Some ==> r == Delivery::Dropped(parse_error(raw).unwrap())
            && final(channel).pending() == old(channel).pending(),
        parse_error(raw) is None && old(channel).is_shut() ==> r == Delivery::Stop
            && final(channel).pending() == old(channel).pending(),
        parse_error(raw) is None && !old(channel).is_shut() ==> {
            &&& r == Delivery::Delivered
            &&& final(channel).pending().len() == old(channel).pending().len() + 1
            &&& final(channel).pending().drop_last() == old(channel).pending()
            &&& carries(raw, final(channel).pending().last())
            &&& final(channel).pending().last().wf()
        },
{
    let ghost raw0 = raw;
    match normalize(raw) {
        Ok(e) => {
            let ghost e0 = e;
            match channel.push(e) {
                Ok(()) => {
                    assert(final(channel).pending().drop_last() =~= old(channel).pending());
                    assert(final(channel).pending().last() == e0);
                    Delivery::Delivered
                },
                Err(ChannelClosed) => Delivery::Stop,
            }
        },
        Err(err) => Delivery::Dropped(err),
    }
}

/// The actions that follow while attempts come out as `outcomes`, in order,
/// for as long as the manager asks for attempts.
pub open spec fn drive(v: ManagerView, outcomes: Seq<bool>) -> (ManagerView, Seq<ConnectAction>)
    decreases outcomes.len(),
{
    if v.state == SubscriptionState::Connecting && outcomes.len() > 0 {
        let (next, a) = outcome_step(v, outcomes[0]);
        let (last, rest) = drive(next, outcomes.drop_first());
        (last, seq![a] + rest)
    } else {
        (v, Seq::empty())
    }
}

/// A whole round of connecting from a new manager: `begin`, then each
/// outcome in turn. The final view, and every action asked for.
pub open spec fn establish_run(policy: RetryPolicy, outcomes: Seq<bool>) -> (
    ManagerView,
    Seq<ConnectAction>,
) {
    let (v, a) = begin_step(initial(policy));
    let (last, rest) = drive(v, outcomes);
    (last, seq![a] + rest)
}

/// The actions that ask for an attempt to connect.
pub open spec fn count_attempts(acts: Seq<ConnectAction>) -> nat
    decreases acts.len(),
{
    if acts.len() == 0 {
        0
    } else {
        (if acts[0] is Attempt || acts[0] is WaitThenAttempt {
            1nat
        } else {
            0nat
        }) + count_attempts(acts.drop_first())
    }
}

/// The actions that ask for a wait of `delay_ms` before an attempt.
pub open spec fn count_waits(acts: Seq<ConnectAction>, delay_ms: u64) -> nat
    decreases acts.len(),
{
    if acts.len() == 0 {
        0
    } else {
        (if acts[0] == ConnectAction::WaitThenAttempt(delay_ms) {
            1nat
        } else {
            0nat
        }) + count_waits(acts.drop_first(), delay_ms)
    }
}

proof fn lemma_counts_prepend(a: ConnectAction, rest: Seq<ConnectAction>, delay_ms: u64)
    ensures
        count_attempts(seq![a] + rest) == (if a is Attempt || a is WaitThenAttempt {
            1nat
        } else {
            0nat
        }) + count_attempts(rest),
        count_waits(seq![a] + rest, delay_ms) == (if a == ConnectAction::WaitThenAttempt(delay_ms) {
            1nat
        } else {
            0nat
        }) + count_waits(rest, delay_ms),
        (seq![a] + rest).len() == rest.len() + 1,
        (seq![a] + rest).last() == if rest.len() == 0 {
            a
        } else {
            rest.last()
        },
{
    assert((seq![a] + rest).drop_first() =~= rest);
    if rest.len() == 0 {
        assert(count_attempts(rest) == 0);
        assert(count_waits(rest, delay_ms) == 0);
    }
}

proof fn lemma_drive_until_success(v: ManagerView, k: nat, outcomes: Seq<bool>)
    requires
        v.wf(),
        v.state == SubscriptionState::Connecting,
        v.attempts + k <= v.policy.max_attempts,
        k < outcomes.len(),
        forall|i: int| 0 <= i < k ==> !outcomes[i],
        outcomes[k as int],
    ensures
        drive(v, outcomes).0 == (ManagerView {
            state: SubscriptionState::Subscribed,
            attempts: (v.attempts + k) as u32,
            ..v
        }),
        drive(v, outcomes).1.len() == k + 1,
        drive(v, outcomes).1.last() == ConnectAction::Monitor,
        count_attempts(drive(v, outcomes).1) == k,
        count_waits(drive(v, outcomes).1, v.policy.retry_delay_ms) == k,
    decreases k,
{
    let (next, a) = outcome_step(v, outcomes[0]);
    let rest = drive(next, outcomes.drop_first()).1;
    lemma_counts_prepend(a, rest, v.policy.retry_delay_ms);
    if k > 0 {
        assert forall|i: int| 0 <= i < k - 1 implies !outcomes.drop_first()[i] by {
            assert(!outcomes[i + 1]);
        }
        lemma_drive_until_success(next, (k - 1) as nat, outcomes.drop_first());
    } else {
        assert(rest.len() == 0);
    }
}

proof fn lemma_drive_all_fail(v: ManagerView, outcomes: Seq<bool>)
    requires
        v.wf(),
        v.state == SubscriptionState::Connecting,
        outcomes.len() >= v.policy.max_attempts - v.attempts + 1,
        forall|i: int| 0 <= i < outcomes.len() ==> !outcomes[i],
    ensures
        drive(v, outcomes).0 == (ManagerView {
            state: SubscriptionState::Exhausted,
            attempts: v.policy.max_attempts,
            ..v
        }),
        drive(v, outcomes).1.last() == ConnectAction::GiveUp(
            ExhaustedRetries { attempts: v.policy.max_attempts },
        ),
        count_attempts(drive(v, outcomes).1) == v.policy.max_attempts - v.attempts,
    decreases v.policy.max_attempts - v.attempts,
{
    let (next, a) = outcome_step(v, outcomes[0]);
    let rest = drive(next, outcomes.drop_first()).1;
    lemma_counts_prepend(a, rest, v.policy.retry_delay_ms);
    if v.attempts < v.policy.max_attempts {
        assert forall|i: int| 0 <= i < outcomes.drop_first().len() implies !outcomes.drop_first()[i] by {
            assert(!outcomes[i + 1]);
        }
        lemma_drive_all_fail(next, outcomes.drop_first());
    } else {
        assert(rest.len() == 0);
    }
}

/// When the first `k` attempts fail and the next succeeds, with `k` below
/// the policy's cap, connecting ends subscribed after exactly `k + 1`
/// attempts, with a wait of the policy's delay before each of the last `k`.
pub proof fn lemma_subscribes_after_failures(policy: RetryPolicy, k: nat, outcomes: Seq<bool>)
    requires
        k < policy.max_attempts,
        k < outcomes.len(),
        forall|i: int| 0 <= i < k ==> !outcomes[i],
        outcomes[k as int],
    ensures
        establish_run(policy, outcomes).0.state == SubscriptionState::Subscribed,
        establish_run(policy, outcomes).0.attempts == k + 1,
        establish_run(policy, outcomes).1.last() == ConnectAction::Monitor,
        count_attempts(establish_run(policy, outcomes).1) == k + 1,
        count_waits(establish_run(policy, outcomes).1, policy.retry_delay_ms) == k,
{
    let (v, a) = begin_step(initial(policy));
    let rest = drive(v, outcomes).1;
    lemma_drive_until_success(v, k, outcomes);
    lemma_counts_prepend(a, rest, policy.retry_delay_ms);
}

/// When every attempt fails, connecting gives up with `ExhaustedRetries`
/// after exactly the policy's number of attempts, and asks for no more.
pub proof fn lemma_gives_up_when_all_fail(policy: RetryPolicy, outcomes: Seq<bool>)
    requires
        outcomes.len() >= policy.max_attempts,
        forall|i: int| 0 <= i < outcomes.len() ==> !outcomes[i],
    ensures
        establish_run(policy, outcomes).0.state == SubscriptionState::Exhausted,
        establish_run(policy, outcomes).1.last() == ConnectAction::GiveUp(
            ExhaustedRetries { attempts: policy.max_attempts },
        ),
        count_attempts(establish_run(policy, outcomes).1) == policy.max_attempts,
{
    let (v, a) = begin_step(initial(policy));
    let rest = drive(v, outcomes).1;
    lemma_counts_prepend(a, rest, policy.retry_delay_ms);
    if policy.max_attempts > 0 {
        lemma_drive_all_fail(v, outcomes);
    }
}

} // verus!
