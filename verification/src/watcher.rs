use vstd::prelude::*;

use crate::stats::Rate;
use crate::stats::Stats;

verus! {

/// The two states of the stall-detection machine. It starts `Operating`;
/// `Alerting` means the last sampled rate was a stall.
#[derive(Clone, Copy, Debug, PartialEq, Eq, Structural)]
pub enum State {
    Operating,
    Alerting,
}

/// What a state transition asks the notifier to announce.
#[derive(Clone, Copy, Debug, PartialEq, Eq, Structural)]
pub enum Notification {
    Alert,
    Resolved,
}

/// The edge-triggered transition rule: a stalled sample while `Operating`
/// moves to `Alerting` and owes an alert; a non-stalled sample while
/// `Alerting` moves back to `Operating` and owes a resolution; staying in
/// the same state owes nothing, so a continuing stall is announced once.
pub open spec fn step_spec(s: State, stalled: bool) -> (State, Option<Notification>) {
    match s {
        State::Operating => if stalled {
            (State::Alerting, Some(Notification::Alert))
        } else {
            (State::Operating, None)
        },
        State::Alerting => if stalled {
            (State::Alerting, None)
        } else {
            (State::Operating, Some(Notification::Resolved))
        },
    }
}

/// The stall watcher's own state. It is created in `Operating`; nothing of
/// it survives a restart.
pub struct StallWatcher {
    pub state: State,
}

impl StallWatcher {
    pub fn new() -> (r: StallWatcher)
        ensures
            r.state == State::Operating,
    {
        StallWatcher { state: State::Operating }
    }

    /// Applies one sampled rate to the machine and returns the notification
    /// this transition owes, if any.
    pub fn on_sample(&mut self, rate: Rate) -> (note: Option<Notification>)
        ensures
            (final(self).state, note) == step_spec(old(self).state, rate.spec_is_stalled()),
            final(self).state == (if rate.spec_is_stalled() {
                State::Alerting
            } else {
                State::Operating
            }),
            note is Some <==> final(self).state != old(self).state,
            note == Some(Notification::Alert) <==> (old(self).state == State::Operating
                && rate.spec_is_stalled()),
            note == Some(Notification::Resolved) <==> (old(self).state == State::Alerting
                && !rate.spec_is_stalled()),
    {
        let stalled = rate.is_stalled();
        match self.state {
            State::Operating => {
                if stalled {
                    self.state = State::Alerting;
                    Some(Notification::Alert)
                } else {
                    None
                }
            },
            State::Alerting => {
                if stalled {
                    None
                } else {
                    self.state = State::Operating;
                    Some(Notification::Resolved)
                }
            },
        }
    }
}

/// One outbound message the notifier owes: the recipient, what happened, and
/// the rate that triggered it. Formatting and transport belong to the
/// messaging edge, outside the core.
pub struct OutboundMessage {
    pub chat_id: String,
    pub kind: Notification,
    pub rate: Rate,
}

/// Builds the messages one transition owes: exactly one per configured
/// recipient when a notification is due, none otherwise.
pub fn messages_for(note: Option<Notification>, rate: Rate, chat_ids: &Vec<String>) -> (msgs: Vec<
    OutboundMessage,
>)
    ensures
        note is None ==> msgs@.len() == 0,
        note is Some ==> msgs@.len() == chat_ids@.len(),
        forall|i: int|
            0 <= i < msgs@.len() ==> {
                &&& (#[trigger] msgs@[i]).chat_id@ == chat_ids@[i]@
                &&& Some(msgs@[i].kind) == note
                &&& msgs@[i].rate == rate
            },
{
    let mut msgs: Vec<OutboundMessage> = Vec::new();
    match note {
        None => {},
        Some(kind) => {
            let mut i: usize = 0;
            while i < chat_ids.len()
                invariant
                    i <= chat_ids@.len(),
                    msgs@.len() == i,
                    forall|j: int|
                        0 <= j < i ==> {
                            &&& (#[trigger] msgs@[j]).chat_id@ == chat_ids@[j]@
                            &&& msgs@[j].kind == kind
                            &&& msgs@[j].rate == rate
                        },
                decreases chat_ids@.len() - i,
            {
                let msg = OutboundMessage { chat_id: chat_ids[i].clone(), kind, rate };
                msgs.push(msg);
                i = i + 1;
            }
        },
    }
    msgs
}

/// Whether a failed delivery, on attempt number `attempt` (counted from
/// zero), should be tried again under a bound of `max_attempts` total
/// attempts. Delivery failures are retried a bounded number of times and
/// then given up on, so one bad delivery never stops the watcher.
pub fn should_retry(attempt: u64, max_attempts: u64) -> (r: bool)
    ensures
        r == (attempt + 1 < max_attempts),
{
    attempt < max_attempts && attempt + 1 < max_attempts
}

/// The delay before the next delivery attempt: `base` seconds after the
/// first failure, doubling after each further failure, saturating at `cap`.
pub open spec fn backoff_spec(base: u64, attempt: nat, cap: u64) -> int
    decreases attempt,
{
    if attempt == 0 {
        if base <= cap {
            base as int
        } else {
            cap as int
        }
    } else {
        let p = backoff_spec(base, (attempt - 1) as nat, cap);
        if 2 * p <= cap {
            2 * p
        } else {
            cap as int
        }
    }
}

pub fn backoff_delay_secs(base: u64, attempt: u64, cap: u64) -> (r: u64)
    ensures
        r == backoff_spec(base, attempt as nat, cap),
{
    let mut d: u64 = if base <= cap {
        base
    } else {
        cap
    };
    let mut i: u64 = 0;
    while i < attempt
        invariant
            i <= attempt,
            d <= cap,
            d == backoff_spec(base, i as nat, cap),
        decreases attempt - i,
    {
        d = if d <= cap / 2 {
            2 * d
        } else {
            cap
        };
        i = i + 1;
    }
    d
}

/// One evaluation of the stall watcher: samples the statistics over
/// `interval_secs` (resetting the baseline), applies the transition rule,
/// and returns the messages this evaluation owes — one per recipient on a
/// transition, none otherwise.
pub fn watcher_tick(
    stats: &mut Stats,
    watcher: &mut StallWatcher,
    interval_secs: u64,
    chat_ids: &Vec<String>,
) -> (msgs: Vec<OutboundMessage>)
    requires
        old(stats).wf(),
        interval_secs > 0,
    ensures
        *final(stats) == old(stats).sample_spec(interval_secs),
        final(stats).wf(),
        ({
            let stalled = old(stats).blocks_processed_count == old(stats).prev_sample_count;
            let out = step_spec(old(watcher).state, stalled);
            &&& final(watcher).state == out.0
            &&& (out.1 is Some ==> msgs@.len() == chat_ids@.len())
            &&& (out.1 is None ==> msgs@.len() == 0)
            &&& forall|i: int|
                0 <= i < msgs@.len() ==> {
                    &&& Some((#[trigger] msgs@[i]).kind) == out.1
                    &&& msgs@[i].chat_id@ == chat_ids@[i]@
                    &&& msgs@[i].rate == final(stats).rate
                }
        }),
{
    let (_count, rate) = stats.sample_and_reset_rate(interval_secs);
    let note = watcher.on_sample(rate);
    messages_for(note, rate, chat_ids)
}

/// Law: the alert machine is edge-triggered. From `Operating`, a stalled
/// sample moves to `Alerting` and owes an alert; a further stalled sample
/// while `Alerting` owes nothing; a later non-stalled sample returns to
/// `Operating` and owes a resolution. That each owed notification becomes
/// exactly one message per configured recipient is stated on
/// `messages_for`.
pub proof fn lemma_edge_triggered_alerting(r1: Rate, r2: Rate, r3: Rate)
    requires
        r1.spec_is_stalled(),
        r2.spec_is_stalled(),
        !r3.spec_is_stalled(),
    ensures
        step_spec(State::Operating, r1.spec_is_stalled()) == (
            State::Alerting,
            Some(Notification::Alert),
        ),
        step_spec(step_spec(State::Operating, r1.spec_is_stalled()).0, r2.spec_is_stalled()) == (
            State::Alerting,
            None::<Notification>,
        ),
        step_spec(
            step_spec(step_spec(State::Operating, r1.spec_is_stalled()).0, r2.spec_is_stalled()).0,
            r3.spec_is_stalled(),
        ) == (State::Operating, Some(Notification::Resolved)),
{
}

} // verus!
