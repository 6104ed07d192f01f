//! The fragment transmission scheduler: a sliding window over one
//! session's ordered sequence of outbound fragment packets, one retry task
//! per in-flight fragment, and a registry routing external commands to the
//! task they concern. The scheduler decides here, in verified code, which
//! fragments to admit and how each command changes the window; the
//! asynchronous plumbing that runs the retry loops lives outside the
//! library and calls back in for every decision.

use vstd::prelude::*;
use std::collections::HashMap;
use crate::packet::Packet;
use vstd::set_lib::lemma_len_subset;

verus! {

broadcast use vstd::std_specs::hash::group_hash_axioms;

#[verifier::external_type_specification]
#[verifier::external_body]
#[verifier::reject_recursive_types(T)]
pub struct ExUnboundedSender<T>(tokio::sync::mpsc::UnboundedSender<T>);

#[verifier::external_type_specification]
#[verifier::external_body]
#[verifier::reject_recursive_types(T)]
pub struct ExUnboundedReceiver<T>(tokio::sync::mpsc::UnboundedReceiver<T>);

/// A control signal driving window advancement and task retry behavior.
#[derive(Clone, Copy, Debug, PartialEq, Eq, Structural)]
pub enum Command {
    /// Resend the fragment with this index immediately.
    Resend(u64),
    /// The oldest in-flight fragment is confirmed.
    Confirmed,
}

/// Relies on tokio::sync::mpsc::unbounded_channel: creates a fresh
/// unbounded channel, returning its two connected halves.
#[verifier::external_body]
fn new_command_channel() -> (r: (
    tokio::sync::mpsc::UnboundedSender<Command>,
    tokio::sync::mpsc::UnboundedReceiver<Command>,
)) {
    tokio::sync::mpsc::unbounded_channel()
}

/// Relies on tokio::sync::mpsc::UnboundedSender::send: enqueues the
/// command exactly when it returns Ok, and fails only when the receiving
/// half is closed. Which occurs depends on the receiver's state, so
/// nothing is promised of the result.
#[verifier::external_body]
fn send_command(ch: &tokio::sync::mpsc::UnboundedSender<Command>, cmd: Command) -> (r: bool) {
    ch.send(cmd).is_ok()
}

/// Drives the reliable transmission of one session's fragment sequence:
/// `packets` is the ordered, immutable sequence of outbound fragment
/// packets; indices in `[window_start, window_start + window_size)` are
/// the only ones allowed to have an active retry task; and
/// `fragment_channels` maps each in-flight fragment index to the control
/// channel of its retry task.
#[derive(Debug)]
pub struct TransmissionHandler {
    pub packets: Vec<Packet>,
    pub window_size: usize,
    pub window_start: usize,
    pub timeout_ms: u64,
    pub fragment_channels: HashMap<u64, tokio::sync::mpsc::UnboundedSender<Command>>,
}

impl TransmissionHandler {
    /// The window invariant: the window is at least one fragment wide, and
    /// every registered retry task is for an in-window index within the
    /// bounds of the fragment sequence.
    pub open spec fn wf(self) -> bool {
        &&& 1 <= self.window_size
        &&& forall|i: u64| #[trigger]
            self.fragment_channels@.dom().contains(i) ==> {
                &&& self.window_start <= i as int
                &&& (i as int) < self.window_start + self.window_size
                &&& (i as int) < self.packets@.len()
            }
    }

    /// A fresh scheduler with the given window size and retry timeout; no
    /// fragment has a task yet.
    pub fn with_window(packets: Vec<Packet>, window_size: usize, timeout_ms: u64) -> (r: Self)
        requires
            1 <= window_size,
        ensures
            r.wf(),
            r.packets == packets,
            r.window_size == window_size,
            r.window_start == 0,
            r.timeout_ms == timeout_ms,
            r.fragment_channels@ == Map::<u64, tokio::sync::mpsc::UnboundedSender<Command>>::empty(),
    {
        TransmissionHandler {
            packets,
            window_size,
            window_start: 0,
            timeout_ms,
            fragment_channels: HashMap::new(),
        }
    }

    /// A fresh scheduler with the default window of one fragment in flight
    /// and a two-second retry timeout.
    pub fn new(packets: Vec<Packet>) -> (r: Self)
        ensures
            r.wf(),
            r.packets == packets,
            r.window_size == 1,
            r.window_start == 0,
            r.timeout_ms == 2000,
            r.fragment_channels@ == Map::<u64, tokio::sync::mpsc::UnboundedSender<Command>>::empty(),
    {
        Self::with_window(packets, 1, 2000)
    }

    /// The window has advanced to or past the end of the fragment
    /// sequence: nothing is left to admit, so once the registered tasks
    /// are gone the transmission is over.
    pub fn is_complete(&self) -> (r: bool)
        ensures
            r == (self.window_start >= self.packets@.len()),
    {
        self.window_start >= self.packets.len()
    }

    /// Admits every in-window fragment that does not already have a retry
    /// task: for each such index, creates a fresh control channel,
    /// registers its sending half, and hands back the index with the
    /// receiving half, for the caller to start the fragment's retry task
    /// on. Fragments already under a task keep their channel untouched.
    pub fn admit_window(&mut self) -> (admitted: Vec<(u64, tokio::sync::mpsc::UnboundedReceiver<Command>)>)
        requires
            old(self).wf(),
            old(self).window_start + old(self).window_size <= usize::MAX,
        ensures
            final(self).wf(),
            final(self).packets == old(self).packets,
            final(self).window_size == old(self).window_size,
            final(self).window_start == old(self).window_start,
            final(self).timeout_ms == old(self).timeout_ms,
            forall|j: u64|
                #![trigger final(self).fragment_channels@.dom().contains(j)]
                #![trigger old(self).fragment_channels@.dom().contains(j)]
                final(self).fragment_channels@.dom().contains(j) <==> (old(self).fragment_channels@.dom().contains(j)
                    || (old(self).window_start <= j as int
                    && (j as int) < old(self).window_start + old(self).window_size && (j as int)
                    < old(self).packets@.len())),
            forall|j: u64| #[trigger]
                old(self).fragment_channels@.dom().contains(j)
                    ==> final(self).fragment_channels@[j] == old(self).fragment_channels@[j],
            forall|k: int|
                0 <= k < admitted@.len() ==> {
                    &&& old(self).window_start <= admitted@[k].0 as int
                    &&& (admitted@[k].0 as int) < old(self).window_start + old(self).window_size
                    &&& (admitted@[k].0 as int) < old(self).packets@.len()
                    &&& !old(self).fragment_channels@.dom().contains(#[trigger] admitted@[k].0)
                },
            forall|j: u64|
                #![trigger final(self).fragment_channels@.dom().contains(j)]
                final(self).fragment_channels@.dom().contains(j) && !old(
                    self,
                ).fragment_channels@.dom().contains(j) ==> exists|k: int|
                    0 <= k < admitted@.len() && admitted@[k].0 == j,
            forall|k1: int, k2: int|
                0 <= k1 < k2 < admitted@.len() ==> #[trigger] admitted@[k1].0
                    < #[trigger] admitted@[k2].0,
    {
        let ghost start_state = *old(self);
        let mut admitted: Vec<(u64, tokio::sync::mpsc::UnboundedReceiver<Command>)> = Vec::new();
        let end: usize = if self.packets.len() < self.window_start + self.window_size {
            self.packets.len()
        } else {
            self.window_start + self.window_size
        };
        let mut i: usize = self.window_start;
        if i > end {
            // The window already lies wholly past the sequence end.
            return admitted;
        }
        while i < end
            invariant
                self.wf(),
                self.packets == start_state.packets,
                self.window_size == start_state.window_size,
                self.window_start == start_state.window_start,
                self.timeout_ms == start_state.timeout_ms,
                start_state.window_start <= i <= end,
                end == if start_state.packets@.len() < start_state.window_start
                    + start_state.window_size {
                    start_state.packets@.len() as int
                } else {
                    start_state.window_start + start_state.window_size
                },
                forall|j: u64|
                    #![trigger self.fragment_channels@.dom().contains(j)]
                    #![trigger start_state.fragment_channels@.dom().contains(j)]
                    self.fragment_channels@.dom().contains(j) <==> (
                    start_state.fragment_channels@.dom().contains(j) || (start_state.window_start
                        <= j as int && (j as int) < i)),
                forall|j: u64| #[trigger]
                    start_state.fragment_channels@.dom().contains(j) ==> self.fragment_channels@[j]
                        == start_state.fragment_channels@[j],
                forall|k: int|
                    0 <= k < admitted@.len() ==> {
                        &&& start_state.window_start <= admitted@[k].0 as int
                        &&& (admitted@[k].0 as int) < i
                        &&& !start_state.fragment_channels@.dom().contains(
                            #[trigger] admitted@[k].0,
                        )
                    },
                forall|j: u64|
                    #![trigger self.fragment_channels@.dom().contains(j)]
                    self.fragment_channels@.dom().contains(j)
                        && !start_state.fragment_channels@.dom().contains(j) ==> exists|k: int|
                        0 <= k < admitted@.len() && admitted@[k].0 == j,
                forall|k1: int, k2: int|
                    0 <= k1 < k2 < admitted@.len() ==> #[trigger] admitted@[k1].0
                        < #[trigger] admitted@[k2].0,
            decreases end - i,
        {
            let idx: u64 = i as u64;
            if !self.fragment_channels.contains_key(&idx) {
                let (tx, rx) = new_command_channel();
                self.fragment_channels.insert(idx, tx);
                let ghost prev_admitted = admitted@;
                admitted.push((idx, rx));
                proof {
                    assert forall|j: u64|
                        self.fragment_channels@.dom().contains(j)
                            && !start_state.fragment_channels@.dom().contains(
                            j,
                        ) implies exists|k: int|
                        0 <= k < admitted@.len() && admitted@[k].0 == j by {
                        if j == idx {
                            assert(admitted@[prev_admitted.len() as int].0 == j);
                        } else {
                            let k = choose|k: int|
                                0 <= k < prev_admitted.len() && prev_admitted[k].0 == j;
                            assert(admitted@[k].0 == j);
                        }
                    }
                }
            }
            i = i + 1;
        }
        admitted
    }

    /// Acknowledgment is strictly in-order: confirming always retires the
    /// single oldest outstanding fragment, so this advances the window's
    /// start by exactly one, never more, and touches nothing else. The
    /// full handling of a `Confirmed` command, which also retires the
    /// head fragment's task, is `on_command`.
    pub fn on_ack_received(&mut self)
        requires
            old(self).window_start < usize::MAX,
        ensures
            final(self).window_start == old(self).window_start + 1,
            final(self).packets == old(self).packets,
            final(self).window_size == old(self).window_size,
            final(self).timeout_ms == old(self).timeout_ms,
            final(self).fragment_channels == old(self).fragment_channels,
    {
        let previous_start = self.window_start;
        self.window_start = previous_start + 1;
    }

    /// Applies one external command. `Confirmed` retires the oldest
    /// in-flight fragment: its task (if registered) is told it is
    /// confirmed and dropped from the registry, and the window advances by
    /// exactly one. `Resend(i)` forwards an immediate-resend instruction
    /// to the task registered for `i`; if no task is registered the
    /// command is dropped and the scheduler's state is left untouched.
    pub fn on_command(&mut self, cmd: Command)
        requires
            old(self).wf(),
            old(self).window_start < usize::MAX,
        ensures
            final(self).wf(),
            final(self).packets == old(self).packets,
            final(self).window_size == old(self).window_size,
            final(self).timeout_ms == old(self).timeout_ms,
            cmd == Command::Confirmed ==> {
                &&& final(self).window_start == old(self).window_start + 1
                &&& final(self).fragment_channels@ == old(self).fragment_channels@.remove(
                    old(self).window_start as u64,
                )
            },
            (cmd matches Command::Resend(i)) ==> {
                &&& final(self).window_start == old(self).window_start
                &&& final(self).fragment_channels@ == old(self).fragment_channels@
            },
    {
        match cmd {
            Command::Confirmed => {
                let idx: u64 = self.window_start as u64;
                match self.fragment_channels.remove(&idx) {
                    Some(channel) => {
                        // Whether the task is still listening does not
                        // matter: either way it is retired here.
                        let _ = send_command(&channel, Command::Confirmed);
                    },
                    None => {},
                }
                self.on_ack_received();
            },
            Command::Resend(fragment_index) => {
                match self.fragment_channels.get(&fragment_index) {
                    Some(channel) => {
                        let _ = send_command(channel, Command::Resend(fragment_index));
                    },
                    None => {},
                }
            },
        }
    }
}

/// The set of indices the window `[lo, lo + n)` covers, as 64-bit values.
pub open spec fn window_range(lo: int, n: int) -> Set<u64> {
    Set::new(|i: u64| lo <= i as int && (i as int) < lo + n)
}

/// A window of width `n` covers at most `n` indices.
pub proof fn lemma_window_range_card(lo: int, n: int)
    requires
        0 <= n,
    ensures
        window_range(lo, n).finite(),
        window_range(lo, n).len() <= n,
    decreases n,
{
    if n == 0 {
        assert(window_range(lo, 0) =~= Set::<u64>::empty());
    } else {
        lemma_window_range_card(lo, n - 1);
        let top = lo + n - 1;
        if 0 <= top <= u64::MAX {
            assert(window_range(lo, n) =~= window_range(lo, n - 1).insert(top as u64));
        } else {
            assert(window_range(lo, n) =~= window_range(lo, n - 1));
        }
    }
}

/// The window invariant, as a law: a well-formed scheduler never has more
/// active fragment tasks than the window size, and every active task's
/// index lies in `[window_start, window_start + window_size)` and within
/// the fragment sequence.
pub proof fn lemma_window_invariant(h: TransmissionHandler)
    requires
        h.wf(),
    ensures
        h.fragment_channels@.dom().len() <= h.window_size,
        forall|i: u64| #[trigger]
            h.fragment_channels@.dom().contains(i) ==> h.window_start <= i as int
                && (i as int) < h.window_start + h.window_size && (i as int) < h.packets@.len(),
{
    let range = window_range(h.window_start as int, h.window_size as int);
    lemma_window_range_card(h.window_start as int, h.window_size as int);
    assert(h.fragment_channels@.dom().subset_of(range));
    lemma_len_subset(h.fragment_channels@.dom(), range);
}

/// What a retry task does in response to one event.
#[derive(Clone, Copy, Debug, PartialEq, Eq, Structural)]
pub enum TaskStep {
    /// Transmit the fragment (again) and keep waiting.
    Retransmit,
    /// Terminate the task; its fragment needs no further transmission.
    Finish,
}

/// One event a waiting retry task can wake up on.
#[derive(Clone, Copy, Debug, PartialEq, Eq, Structural)]
pub enum TaskEvent {
    /// The retry timeout elapsed before any command arrived.
    TimeoutExpired,
    /// A command arrived on the task's control channel.
    Received(Command),
    /// The task's control channel was closed without a command: the
    /// registry entry was dropped, a normal, unilateral cancellation.
    ChannelClosed,
}

/// The step a retry task takes on `ev`: retransmit after a timeout or an
/// explicit resend; finish once confirmed or cancelled.
pub open spec fn spec_retry_step(ev: TaskEvent) -> TaskStep {
    match ev {
        TaskEvent::TimeoutExpired => TaskStep::Retransmit,
        TaskEvent::Received(Command::Resend(_)) => TaskStep::Retransmit,
        TaskEvent::Received(Command::Confirmed) => TaskStep::Finish,
        TaskEvent::ChannelClosed => TaskStep::Finish,
    }
}

/// The one decision of the per-fragment retry loop: having transmitted its
/// fragment, a task waits for whichever comes first of its timer and its
/// control channel, then takes the step this function returns.
pub fn retry_step(ev: TaskEvent) -> (r: TaskStep)
    ensures
        r == spec_retry_step(ev),
{
    match ev {
        TaskEvent::TimeoutExpired => TaskStep::Retransmit,
        TaskEvent::Received(Command::Resend(_)) => TaskStep::Retransmit,
        TaskEvent::Received(Command::Confirmed) => TaskStep::Finish,
        TaskEvent::ChannelClosed => TaskStep::Finish,
    }
}

} // verus!
