//! One worker of the pool: it owns the state machines of its connections,
//! admits new ones from the shared queue only when it has none, and evicts
//! what has outlived its deadline.

use crate::error::ProtocolError;
use crate::event::Progress;
use crate::server::driver::{handle_client_readable_data, handle_client_writable_data};
use crate::server::signed_result::signed_result_outcome;
use crate::server::state::{ServerTestPhase, ServerView, TestState};
use crate::server::timeout_utils::{is_timed_out, timed_out};
use std::collections::HashMap;
use std::collections::VecDeque;
use vstd::prelude::*;

verus! {

broadcast use vstd::std_specs::hash::group_hash_axioms;

/// Nanoseconds that an accepted socket may wait in the admission queue.
pub const QUEUE_TIMEOUT_NS: u64 = 60_000_000_000;

/// Nanoseconds of idling between two sweeps of the admission queue.
pub const QUEUE_CHECK_INTERVAL_NS: u64 = 10_000_000_000;

/// Milliseconds that one poll for readiness may take.
pub const POLL_TIMEOUT_MS: u64 = 10;

/// Milliseconds that an idle worker sleeps.
pub const IDLE_SLEEP_MS: u64 = 100;

/// Nanoseconds from `since` to `now`, zero if the clock read earlier.
pub open spec fn age(since: u64, now: u64) -> u64 {
    if now >= since {
        (now - since) as u64
    } else {
        0
    }
}

/// The entries of a queue that have not waited longer than the queue
/// timeout at `now`, in their order.
pub open spec fn fresh<T>(entries: Seq<(T, u64)>, now: u64) -> Seq<(T, u64)>
    decreases entries.len(),
{
    if entries.len() == 0 {
        Seq::empty()
    } else if age(entries.last().1, now) <= QUEUE_TIMEOUT_NS {
        fresh(entries.drop_last(), now).push(entries.last())
    } else {
        fresh(entries.drop_last(), now)
    }
}

/// Sweeping drops no entry that is within the timeout, keeps none that is
/// beyond it, and leaves the order of those that stay.
pub proof fn lemma_fresh<T>(entries: Seq<(T, u64)>, now: u64)
    ensures
        fresh(entries, now).len() <= entries.len(),
        forall|i: int|
            0 <= i < fresh(entries, now).len() ==> age(
                (#[trigger] fresh(entries, now)[i]).1,
                now,
            ) <= QUEUE_TIMEOUT_NS,
        (forall|i: int| 0 <= i < entries.len() ==> age((#[trigger] entries[i]).1, now)
            <= QUEUE_TIMEOUT_NS) ==> fresh(entries, now) == entries,
    decreases entries.len(),
{
    if entries.len() > 0 {
        let rest = entries.drop_last();
        lemma_fresh(rest, now);
        if forall|i: int| 0 <= i < entries.len() ==> age((#[trigger] entries[i]).1, now)
            <= QUEUE_TIMEOUT_NS {
            assert forall|i: int| 0 <= i < rest.len() implies age((#[trigger] rest[i]).1, now)
                <= QUEUE_TIMEOUT_NS by {
                assert(rest[i] == entries[i]);
            }
            assert(age(entries[entries.len() - 1].1, now) <= QUEUE_TIMEOUT_NS);
            assert(fresh(entries, now) =~= entries);
        }
    }
}

/// The queue on which accepted sockets wait for a worker, each with the
/// clock reading at which it was accepted.
pub struct AdmissionQueue<T> {
    pub entries: VecDeque<(T, u64)>,
}

impl<T> View for AdmissionQueue<T> {
    type V = Seq<(T, u64)>;

    open spec fn view(&self) -> Seq<(T, u64)> {
        self.entries@
    }
}

impl<T> AdmissionQueue<T> {
    /// An empty queue.
    pub fn new() -> (r: AdmissionQueue<T>)
        ensures
            r@ == Seq::<(T, u64)>::empty(),
    {
        AdmissionQueue { entries: VecDeque::new() }
    }

    /// How many sockets wait.
    pub fn len(&self) -> (r: usize)
        ensures
            r == self@.len(),
    {
        self.entries.len()
    }

    /// Puts a socket accepted at `now` behind all that wait.
    pub fn push(&mut self, connection: T, now: u64)
        ensures
            final(self)@ == old(self)@.push((connection, now)),
    {
        self.entries.push_back((connection, now));
    }

    /// Takes the socket that has waited longest.
    pub fn pop(&mut self) -> (r: Option<(T, u64)>)
        ensures
            match r {
                Some(entry) => old(self)@.len() > 0 && entry == old(self)@[0] && final(self)@
                    == old(self)@.skip(1),
                None => old(self)@.len() == 0 && final(self)@ == old(self)@,
            },
    {
        let r = self.entries.pop_front();
        assert(r.is_some() ==> self@ =~= old(self)@.skip(1));
        r
    }

    /// Drops every socket that has waited longer than the queue timeout at
    /// `now`, and says how many were dropped.
    pub fn sweep(&mut self, now: u64) -> (dropped: usize)
        ensures
            final(self)@ == fresh(old(self)@, now),
            dropped == old(self)@.len() - final(self)@.len(),
    {
        let total: usize = self.entries.len();
        let mut kept: VecDeque<(T, u64)> = VecDeque::new();
        let mut i: usize = 0;
        while i < total
            invariant
                i <= total,
                total == old(self)@.len(),
                self.entries@ == old(self)@.skip(i as int),
                kept@ == fresh(old(self)@.take(i as int), now),
                kept@.len() <= i,
            decreases total - i,
        {
            let ghost before = self.entries@;
            let entry = self.entries.pop_front();
            proof {
                let prefix = old(self)@.take(i + 1);
                assert(prefix.drop_last() =~= old(self)@.take(i as int));
                assert(prefix.last() == old(self)@[i as int]);
                assert(before[0] == old(self)@[i as int]);
                assert(self.entries@ =~= old(self)@.skip(i + 1));
            }
            match entry {
                Some(e) => {
                    let waited: u64 = if now >= e.1 {
                        now - e.1
                    } else {
                        0
                    };
                    if waited <= QUEUE_TIMEOUT_NS {
                        kept.push_back(e);
                    }
                },
                None => {},
            }
            i += 1;
        }
        assert(old(self)@.take(total as int) =~= old(self)@);
        let remaining: usize = kept.len();
        self.entries = kept;
        total - remaining
    }
}

/// The direction of a readiness event.
#[derive(Clone, Copy, Debug, PartialEq, Eq, Structural)]
pub enum Direction {
    Readable,
    Writable,
}

/// The handler that an event goes to: the readable one where the event is
/// readable, else the writable one where it is writable, else none.
pub open spec fn direction_of(readable: bool, writable: bool) -> Option<Direction> {
    if readable {
        Some(Direction::Readable)
    } else if writable {
        Some(Direction::Writable)
    } else {
        None
    }
}

/// The handler that an event goes to.
pub fn direction(readable: bool, writable: bool) -> (r: Option<Direction>)
    ensures
        r == direction_of(readable, writable),
{
    if readable {
        Some(Direction::Readable)
    } else if writable {
        Some(Direction::Writable)
    } else {
        None
    }
}

/// What became of an attempt to move bytes on the stream.
#[derive(Clone, Copy, Debug, PartialEq, Eq, Structural)]
pub enum Transport {
    /// The stream moved this many bytes.
    Moved(usize),
    /// The stream is not ready; the event is over.
    WouldBlock,
    /// The stream failed.
    Failed,
}

/// What the worker does with a connection after an event.
#[derive(Clone, Copy, Debug, PartialEq, Eq, Structural)]
pub enum Disposition {
    /// The connection stays.
    Keep,
    /// The connection reached a clean end and is removed.
    Remove,
    /// The connection is closed at once and removed.
    CloseAndRemove,
}

/// What the worker does after a handler ran: a connection that reached its
/// end is removed, one whose handler failed is closed and removed, any
/// other stays.
pub open spec fn disposition_of(result: Result<Progress, ProtocolError>, phase: ServerTestPhase)
    -> Disposition {
    match result {
        Err(_) => Disposition::CloseAndRemove,
        Ok(_) => if phase == ServerTestPhase::Closed {
            Disposition::Remove
        } else {
            Disposition::Keep
        },
    }
}

/// What the worker does after a handler ran.
pub fn disposition(result: &Result<Progress, ProtocolError>, state: &TestState) -> (r: Disposition)
    ensures
        r == disposition_of(*result, state.measurement_state),
{
    match result {
        Err(_) => Disposition::CloseAndRemove,
        Ok(_) => match state.measurement_state {
            ServerTestPhase::Closed => Disposition::Remove,
            _ => Disposition::Keep,
        },
    }
}

/// Serves a readable event on a connection at clock reading `now`, `read`
/// being what reading into `buffer` came to. A stream that is not ready
/// leaves the connection as it is; a failed stream has it closed; bytes
/// that were read go to the handler of the phase.
pub fn serve_readable(state: &mut TestState, read: Transport, buffer: &[u8], now: u64) -> (r:
    Disposition)
    requires
        old(state).wf(),
    ensures
        final(state).wf(),
        match read {
            Transport::WouldBlock => r == Disposition::Keep && final(state)@ == old(state)@,
            Transport::Failed => r == Disposition::CloseAndRemove && final(state)@ == old(state)@,
            Transport::Moved(n) => if n > buffer@.len() {
                r == Disposition::CloseAndRemove && final(state)@ == old(state)@
            } else {
                let step = old(state)@.on_readable(buffer@.take(n as int), now);
                final(state)@ == step.0 && r == disposition_of(step.1, step.0.phase)
            },
        },
{
    match read {
        Transport::WouldBlock => Disposition::Keep,
        Transport::Failed => Disposition::CloseAndRemove,
        Transport::Moved(n) => {
            if n > buffer.len() {
                return Disposition::CloseAndRemove;
            }
            let data = vstd::slice::slice_subrange(buffer, 0, n);
            assert(data@ =~= buffer@.take(n as int));
            let result = handle_client_readable_data(state, data, now);
            disposition(&result, state)
        },
    }
}

/// Serves a writable event on a connection at clock reading `now`, `write`
/// being what writing `state.outgoing()` came to.
pub fn serve_writable(state: &mut TestState, write: Transport, now: u64) -> (r: Disposition)
    requires
        old(state).wf(),
    ensures
        final(state).wf(),
        match write {
            Transport::WouldBlock => r == Disposition::Keep && final(state)@ == old(state)@,
            Transport::Failed => r == Disposition::CloseAndRemove && final(state)@ == old(state)@,
            Transport::Moved(n) => if old(state).measurement_state
                == ServerTestPhase::SignedResultSend {
                exists|result: Result<Progress, ProtocolError>|
                    signed_result_outcome(old(state)@, n as nat, now, final(state)@, result) && r
                        == disposition_of(result, final(state)@.phase)
            } else {
                let step = old(state)@.on_writable(n as nat, now);
                final(state)@ == step.0 && r == disposition_of(step.1, step.0.phase)
            },
        },
{
    match write {
        Transport::WouldBlock => Disposition::Keep,
        Transport::Failed => Disposition::CloseAndRemove,
        Transport::Moved(n) => {
            let result = handle_client_writable_data(state, n, now);
            disposition(&result, state)
        },
    }
}

/// The connections of one worker, each under its token.
pub struct Worker {
    /// Index of the worker in the pool.
    pub id: usize,
    /// The poller identifier that the next connection gets.
    pub next_token: usize,
    pub connections: HashMap<usize, TestState>,
    /// Clock reading of the last sweep of the admission queue.
    pub last_queue_check: u64,
}

impl Worker {
    /// Every connection is well formed and stands under its own token.
    pub open spec fn wf(&self) -> bool {
        forall|t: usize| #[trigger]
            self.connections@.contains_key(t) ==> self.connections@[t].wf()
                && self.connections@[t].token == t
    }

    /// The connection with `token` has outlived the lifetime cap at `now`.
    pub open spec fn is_expired(&self, token: usize, now: u64) -> bool {
        self.connections@.contains_key(token) && timed_out(
            self.connections@[token].connection_start,
            now,
        )
    }

    /// A worker without connections, whose first connection gets token 1.
    pub fn new(id: usize, now: u64) -> (r: Worker)
        ensures
            r.wf(),
            r.id == id,
            r.next_token == 1,
            r.connections@ == Map::<usize, TestState>::empty(),
            r.last_queue_check == now,
    {
        Worker { id, next_token: 1, connections: HashMap::new(), last_queue_check: now }
    }

    /// Whether the worker takes a socket from the admission queue: only
    /// when it has no connection, so that work in flight is completed first.
    pub fn wants_connection(&self) -> (r: bool)
        ensures
            r == self.connections@.is_empty(),
    {
        self.connections.is_empty()
    }

    /// Whether the worker has a connection with `token`.
    pub fn find(&self, token: usize) -> (r: bool)
        ensures
            r == self.connections@.contains_key(token),
    {
        self.connections.contains_key(&token)
    }

    /// Takes up a socket from the admission queue at clock reading `now`:
    /// the connection gets the next token and starts with the greeting
    /// staged. Returns the token.
    pub fn take_up(
        &mut self,
        now: u64,
        version: Option<u8>,
        client_addr: Vec<u8>,
        sig_key: Option<Vec<u8>>,
    ) -> (token: usize)
        requires
            old(self).wf(),
            old(self).connections@.is_empty(),
        ensures
            final(self).wf(),
            token == old(self).next_token,
            final(self).next_token == if old(self).next_token == usize::MAX {
                1
            } else {
                (old(self).next_token + 1) as usize
            },
            final(self).id == old(self).id,
            final(self).last_queue_check == old(self).last_queue_check,
            final(self).connections@.dom() == set![token],
            final(self).connections@[token]@ == ServerView::initial(
                token,
                now,
                version,
                client_addr@,
                match sig_key {
                    Some(k) => Some(k@),
                    None => None,
                },
            ),
    {
        let token: usize = self.next_token;
        self.next_token = if token == usize::MAX {
            1
        } else {
            token + 1
        };
        let state = TestState::new(token, now, version, client_addr, sig_key);
        let replaced = self.connections.insert(token, state);
        assert(self.connections@.dom() =~= set![token]);
        token
    }

    /// Removes the connection with `token`, and says whether there was one;
    /// the others stay.
    pub fn remove(&mut self, token: usize) -> (r: bool)
        requires
            old(self).wf(),
        ensures
            final(self).wf(),
            final(self).id == old(self).id,
            final(self).next_token == old(self).next_token,
            final(self).last_queue_check == old(self).last_queue_check,
            r == old(self).connections@.contains_key(token),
            final(self).connections@ == old(self).connections@.remove(token),
    {
        self.connections.remove(&token).is_some()
    }

    /// The tokens of the connections that have outlived the lifetime cap at
    /// `now`, each once.
    pub fn expired(&self, now: u64) -> (r: Vec<usize>)
        requires
            self.wf(),
        ensures
            r@.no_duplicates(),
            forall|t: usize| r@.contains(t) <==> self.is_expired(t, now),
    {
        let mut out: Vec<usize> = Vec::new();
        for key in it: self.connections.keys()
            invariant
                it.seq().unref().to_set() == self.connections@.dom(),
                it.seq().no_duplicates(),
                out@.no_duplicates(),
                forall|t: usize|
                    out@.contains(t) <==> (exists|j: int|
                        0 <= j < it.index() && *(#[trigger] it.seq()[j]) == t && self.is_expired(
                            t,
                            now,
                        )),
        {
            let ghost before = out@;
            let ghost at = it.index() as int;
            assert(it.seq()[at] == key);
            assert(it.seq().unref()[at] == *key);
            assert(it.seq().unref().to_set().contains(*key));
            assert(self.connections@.contains_key(*key));
            match self.connections.get(key) {
                Some(state) => {
                    assert(*state == self.connections@[*key]);
                    if is_timed_out(state.connection_start, now) {
                        assert(!before.contains(*key)) by {
                            if before.contains(*key) {
                                let j = choose|j: int|
                                    0 <= j < at && *(#[trigger] it.seq()[j]) == *key;
                                assert(it.seq()[j] == it.seq()[at]);
                            }
                        }
                        out.push(*key);
                        assert forall|t: usize| out@.contains(t) implies (exists|j: int|
                            0 <= j < at + 1 && *(#[trigger] it.seq()[j]) == t && self.is_expired(
                                t,
                                now,
                            )) by {
                            if t == *key {
                                assert(*it.seq()[at] == t);
                            } else {
                                let i = choose|i: int| 0 <= i < out@.len() && out@[i] == t;
                                assert(before[i] == t);
                                assert(before.contains(t));
                            }
                        }
                        assert forall|t: usize| (exists|j: int|
                            0 <= j < at + 1 && *(#[trigger] it.seq()[j]) == t && self.is_expired(
                                t,
                                now,
                            )) implies out@.contains(t) by {
                            let j = choose|j: int|
                                0 <= j < at + 1 && *(#[trigger] it.seq()[j]) == t
                                    && self.is_expired(t, now);
                            if j == at {
                                assert(out@[before.len() as int] == t);
                            } else {
                                assert(before.contains(t));
                                let i = choose|i: int| 0 <= i < before.len() && before[i] == t;
                                assert(out@[i] == t);
                            }
                        }
                    }
                },
                None => {},
            }
        }
        assert forall|t: usize| self.is_expired(t, now) implies out@.contains(t) by {
            assert(self.connections@.dom().contains(t));
        }
        out
    }

    /// Whether an idle worker sweeps the admission queue at `now`: when
    /// more than the sweep interval has passed since the last sweep, which is
    /// then noted as done at `now`.
    pub fn queue_check_due(&mut self, now: u64) -> (r: bool)
        ensures
            r == (age(old(self).last_queue_check, now) > QUEUE_CHECK_INTERVAL_NS),
            final(self).last_queue_check == if r {
                now
            } else {
                old(self).last_queue_check
            },
            final(self).id == old(self).id,
            final(self).next_token == old(self).next_token,
            final(self).connections == old(self).connections,
    {
        let waited: u64 = if now >= self.last_queue_check {
            now - self.last_queue_check
        } else {
            0
        };
        if waited > QUEUE_CHECK_INTERVAL_NS {
            self.last_queue_check = now;
            true
        } else {
            false
        }
    }
}

/// Counts one more connection for worker `id`; a worker that the list does
/// not hold, or a count at its limit, leaves the list as it is.
pub fn count_up(counts: &mut Vec<usize>, id: usize)
    ensures
        final(counts)@.len() == old(counts)@.len(),
        forall|i: int|
            0 <= i < old(counts)@.len() ==> #[trigger] final(counts)@[i] == if i == id && old(counts)@[i] < usize::MAX {
                (old(counts)@[i] + 1) as usize
            } else {
                old(counts)@[i]
            },
{
    if id < counts.len() && counts[id] < usize::MAX {
        counts[id] = counts[id] + 1;
    }
}

/// Counts one connection less for worker `id`; a worker that the list does
/// not hold, or a count of zero, leaves the list as it is.
pub fn count_down(counts: &mut Vec<usize>, id: usize)
    ensures
        final(counts)@.len() == old(counts)@.len(),
        forall|i: int|
            0 <= i < old(counts)@.len() ==> #[trigger] final(counts)@[i] == if i == id && old(counts)@[i] > 0 {
                (old(counts)@[i] - 1) as usize
            } else {
                old(counts)@[i]
            },
{
    if id < counts.len() && counts[id] > 0 {
        counts[id] = counts[id] - 1;
    }
}

} // verus!
