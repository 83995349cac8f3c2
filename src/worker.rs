use vstd::prelude::*;

use crate::mailbox::Mailbox;
use crate::types::{IoFailure, PollInterval, Timestamp, Update};

verus! {

/// The worker's record of one registered file: its path, the newest
/// modification time seen so far, and the writing end of its mailbox.
pub struct WatchedEntry {
    path: String,
    tm: Timestamp,
    mailbox: Mailbox,
    published: Ghost<Seq<Update>>,
}

/// The model of a [`WatchedEntry`]: `published` lists, oldest first, every
/// update that the entry has left in its mailbox.
pub struct EntryState {
    pub path: Seq<char>,
    pub tm: int,
    pub published: Seq<Update>,
}

impl View for WatchedEntry {
    type V = EntryState;

    closed spec fn view(&self) -> EntryState {
        EntryState { path: self.path@, tm: self.tm.nanos as int, published: self.published@ }
    }
}

/// Whether a successful stat reports a strictly newer modification time.
pub open spec fn is_newer(e: EntryState, stat: Result<Timestamp, IoFailure>) -> bool {
    stat is Ok && stat->Ok_0.nanos > e.tm
}

/// The entry after it has looked at the outcome of a stat: a failure is
/// published and leaves the time alone; a newer time is recorded; anything
/// else changes nothing.
pub open spec fn observed(e: EntryState, stat: Result<Timestamp, IoFailure>) -> EntryState {
    match stat {
        Err(f) => EntryState { path: e.path, tm: e.tm, published: e.published.push(Err(f)) },
        Ok(t) => if t.nanos > e.tm {
            EntryState { path: e.path, tm: t.nanos as int, published: e.published }
        } else {
            e
        },
    }
}

/// The entry after it has published the outcome of a re-read.
pub open spec fn with_published(e: EntryState, u: Update) -> EntryState {
    EntryState { path: e.path, tm: e.tm, published: e.published.push(u) }
}

impl WatchedEntry {
    /// The mailbox the entry publishes into.
    pub closed spec fn mailbox(&self) -> Mailbox {
        self.mailbox
    }

    /// The entry's path, as the string handed to the file system.
    pub closed spec fn path_string(&self) -> String {
        self.path
    }

    /// A record for a file read at modification time `tm`, which publishes
    /// into `mailbox`.
    pub fn new(path: String, tm: Timestamp, mailbox: Mailbox) -> (r: WatchedEntry)
        ensures
            r@ == (EntryState { path: path@, tm: tm.nanos as int, published: Seq::empty() }),
            r.mailbox() == mailbox,
            r.path_string() == path,
    {
        WatchedEntry { path, tm, mailbox, published: Ghost(Seq::empty()) }
    }

    pub fn path(&self) -> (r: &String)
        ensures
            r@ == self@.path,
            *r == self.path_string(),
    {
        &self.path
    }

    /// Looks at the outcome of a stat of the file. A failure goes to the
    /// mailbox; a strictly newer time is recorded and asks for a re-read,
    /// which is what the result says.
    pub fn check_update(&mut self, stat: Result<Timestamp, IoFailure>) -> (r: bool)
        ensures
            final(self)@ == observed(old(self)@, stat),
            r == is_newer(old(self)@, stat),
            final(self).mailbox() == old(self).mailbox(),
            final(self).path_string() == old(self).path_string(),
    {
        match stat {
            Err(f) => {
                let ghost g = f;
                self.mailbox.push(Err(f));
                self.published = Ghost(self.published@.push(Err(g)));
                false
            },
            Ok(t) => {
                if t.nanos > self.tm.nanos {
                    self.tm = t;
                    true
                } else {
                    false
                }
            },
        }
    }

    /// Leaves the outcome of a re-read in the mailbox.
    pub fn publish(&mut self, u: Update)
        ensures
            final(self)@ == with_published(old(self)@, u),
            final(self).mailbox() == old(self).mailbox(),
            final(self).path_string() == old(self).path_string(),
    {
        let ghost g = u;
        self.mailbox.push(u);
        self.published = Ghost(self.published@.push(g));
    }
}

/// A control message from a caller to the worker.
pub enum Message {
    Start,
    Stop,
    Interval(PollInterval),
    Register(WatchedEntry),
}

/// What one timed wait on the control channel gave.
pub enum Received {
    Message(Message),
    Timeout,
    Disconnected,
}

/// What the worker does after one wait and the messages drained after it.
#[derive(Clone, Copy, Debug, PartialEq, Eq, Structural)]
pub enum Tick {
    /// The channel is closed: the worker ends.
    Exit,
    /// Watching is paused: no file is checked.
    Idle,
    /// Every entry is checked.
    Poll,
}

/// The model of a [`Worker`].
pub struct WorkerState {
    pub interval: PollInterval,
    pub enabled: bool,
    pub entries: Seq<WatchedEntry>,
}

/// The worker's state: the poll interval, whether watching is enabled, and
/// the registered entries in order of registration.
pub struct Worker {
    interval: PollInterval,
    enabled: bool,
    entries: Vec<WatchedEntry>,
}

impl View for Worker {
    type V = WorkerState;

    closed spec fn view(&self) -> WorkerState {
        WorkerState { interval: self.interval, enabled: self.enabled, entries: self.entries@ }
    }
}

/// A fresh worker: running, every second, with nothing to watch.
pub open spec fn initial_state() -> WorkerState {
    WorkerState {
        interval: PollInterval { secs: 1, nanos: 0 },
        enabled: true,
        entries: Seq::empty(),
    }
}

/// The state after one control message.
pub open spec fn applied(s: WorkerState, m: Message) -> WorkerState {
    match m {
        Message::Start => WorkerState { interval: s.interval, enabled: true, entries: s.entries },
        Message::Stop => WorkerState { interval: s.interval, enabled: false, entries: s.entries },
        Message::Interval(i) => WorkerState { interval: i, enabled: s.enabled, entries: s.entries },
        Message::Register(e) => WorkerState {
            interval: s.interval,
            enabled: s.enabled,
            entries: s.entries.push(e),
        },
    }
}

/// The state after a run of control messages, applied in order.
pub open spec fn applied_all(s: WorkerState, ms: Seq<Message>) -> WorkerState
    decreases ms.len(),
{
    if ms.len() == 0 {
        s
    } else {
        applied_all(applied(s, ms[0]), ms.drop_first())
    }
}

/// The state after what a timed wait gave.
pub open spec fn received(s: WorkerState, first: Received) -> WorkerState {
    match first {
        Received::Message(m) => applied(s, m),
        _ => s,
    }
}

/// What follows a wait that did not find the channel closed.
pub open spec fn tick_for(s: WorkerState) -> Tick {
    if s.enabled {
        Tick::Poll
    } else {
        Tick::Idle
    }
}

/// The entry after one poll: the outcome of its stat is observed, and when
/// that asks for a re-read, the outcome of the re-read is published.
pub open spec fn polled(e: EntryState, stat: Result<Timestamp, IoFailure>, read: Update) -> EntryState {
    if is_newer(e, stat) {
        with_published(observed(e, stat), read)
    } else {
        observed(e, stat)
    }
}

/// `after` is `before` checked once: one stat of its path, and one re-read
/// of it only when the stat found it newer.
pub open spec fn checked_once<S, R>(before: WatchedEntry, after: WatchedEntry, stat: S, read: R) -> bool where
    S: Fn(&String) -> Result<Timestamp, IoFailure>,
    R: Fn(&String) -> Update,
 {
    &&& after.mailbox() == before.mailbox()
    &&& after.path_string() == before.path_string()
    &&& exists|s: Result<Timestamp, IoFailure>, u: Update|
        {
            &&& #[trigger] stat.ensures((&before.path_string(),), s)
            &&& (is_newer(before@, s) ==> read.ensures((&before.path_string(),), u))
            &&& after@ == #[trigger] polled(before@, s, u)
        }
}

/// `after` is `before` with only entry `i` changed, into one with model `e`.
pub open spec fn entry_replaced(before: WorkerState, after: WorkerState, i: int, e: EntryState) -> bool {
    &&& after.interval == before.interval
    &&& after.enabled == before.enabled
    &&& after.entries.len() == before.entries.len()
    &&& forall|j: int| 0 <= j < before.entries.len() && j != i ==> after.entries[j] == before.entries[j]
    &&& after.entries[i]@ == e
}

impl Worker {
    pub fn new() -> (r: Worker)
        ensures
            r@ == initial_state(),
    {
        Worker { interval: PollInterval::default_interval(), enabled: true, entries: Vec::new() }
    }

    /// How long the next wait for control traffic lasts.
    pub fn interval(&self) -> (r: PollInterval)
        ensures
            r == self@.interval,
    {
        self.interval
    }

    pub fn is_enabled(&self) -> (r: bool)
        ensures
            r == self@.enabled,
    {
        self.enabled
    }

    pub fn entry_count(&self) -> (r: usize)
        ensures
            r == self@.entries.len(),
    {
        self.entries.len()
    }

    pub fn entry_path(&self, i: usize) -> (r: &String)
        requires
            i < self@.entries.len(),
        ensures
            r@ == self@.entries[i as int]@.path,
    {
        self.entries[i].path()
    }

    /// Applies one control message.
    pub fn apply(&mut self, m: Message)
        ensures
            final(self)@ == applied(old(self)@, m),
    {
        match m {
            Message::Start => self.enabled = true,
            Message::Stop => self.enabled = false,
            Message::Interval(i) => self.interval = i,
            Message::Register(e) => self.entries.push(e),
        }
    }

    /// Hands entry `i` the outcome of a stat of its file; the result says
    /// whether the file must be re-read.
    pub fn check_entry(&mut self, i: usize, stat: Result<Timestamp, IoFailure>) -> (r: bool)
        requires
            i < old(self)@.entries.len(),
        ensures
            entry_replaced(old(self)@, final(self)@, i as int, observed(old(self)@.entries[i as int]@, stat)),
            final(self)@.entries[i as int].mailbox() == old(self)@.entries[i as int].mailbox(),
            final(self)@.entries[i as int].path_string() == old(self)@.entries[i as int].path_string(),
            r == is_newer(old(self)@.entries[i as int]@, stat),
    {
        let mut e = self.entries.remove(i);
        let r = e.check_update(stat);
        self.entries.insert(i, e);
        r
    }

    /// Hands entry `i` the outcome of a re-read of its file, which it
    /// publishes.
    pub fn publish_entry(&mut self, i: usize, u: Update)
        requires
            i < old(self)@.entries.len(),
        ensures
            entry_replaced(old(self)@, final(self)@, i as int, with_published(old(self)@.entries[i as int]@, u)),
            final(self)@.entries[i as int].mailbox() == old(self)@.entries[i as int].mailbox(),
            final(self)@.entries[i as int].path_string() == old(self)@.entries[i as int].path_string(),
    {
        let mut e = self.entries.remove(i);
        e.publish(u);
        self.entries.insert(i, e);
    }

    /// Checks every entry once, in order of registration: `stat` gives the
    /// modification time of a path, and `read` its text, asked for only when
    /// the time is newer than the stored one.
    pub fn poll<S, R>(&mut self, stat: S, read: R) where
        S: Fn(&String) -> Result<Timestamp, IoFailure>,
        R: Fn(&String) -> Update,

        requires
            forall|p: &String| #[trigger] stat.requires((p,)),
            forall|p: &String| #[trigger] read.requires((p,)),
        ensures
            final(self)@.interval == old(self)@.interval,
            final(self)@.enabled == old(self)@.enabled,
            final(self)@.entries.len() == old(self)@.entries.len(),
            forall|i: int|
                0 <= i < old(self)@.entries.len() ==> checked_once(
                    old(self)@.entries[i],
                    #[trigger] final(self)@.entries[i],
                    stat,
                    read,
                ),
    {
        let ghost before = self@;
        let n = self.entries.len();
        let mut i: usize = 0;
        while i < n
            invariant
                n == before.entries.len(),
                self@.entries.len() == n,
                self@.interval == before.interval,
                self@.enabled == before.enabled,
                i <= n,
                forall|p: &String| #[trigger] stat.requires((p,)),
                forall|p: &String| #[trigger] read.requires((p,)),
                forall|j: int|
                    0 <= j < i ==> checked_once(before.entries[j], #[trigger] self@.entries[j], stat, read),
                forall|j: int| i <= j < n ==> #[trigger] self@.entries[j] == before.entries[j],
            decreases n - i,
        {
            let ghost mid = self@;
            let path = self.entries[i].path().clone();
            let s = stat(&path);
            let again = self.check_entry(i, s);
            if again {
                let u = read(&path);
                self.publish_entry(i, u);
                assert(path == before.entries[i as int].path_string());
                assert(stat.ensures((&before.entries[i as int].path_string(),), s));
                assert(read.ensures((&before.entries[i as int].path_string(),), u));
                assert(self@.entries[i as int]@ == polled(before.entries[i as int]@, s, u));
                assert(checked_once(before.entries[i as int], self@.entries[i as int], stat, read));
            } else {
                let ghost u: Update = vstd::pervasive::arbitrary();
                assert(polled(before.entries[i as int]@, s, u) == observed(before.entries[i as int]@, s));
                assert(checked_once(before.entries[i as int], self@.entries[i as int], stat, read));
            }
            assert forall|j: int| 0 <= j < i implies checked_once(before.entries[j], #[trigger] self@.entries[j], stat, read) by {
                assert(self@.entries[j] == mid.entries[j]);
            }
            i = i + 1;
        }
    }

    /// One turn of the worker's loop: what the timed wait gave, then the
    /// messages drained after it without waiting, all applied before any file
    /// is checked. A closed channel ends the worker.
    pub fn step(&mut self, first: Received, burst: Vec<Message>) -> (r: Tick)
        ensures
            first is Disconnected ==> r == Tick::Exit && final(self)@ == old(self)@,
            !(first is Disconnected) ==> final(self)@ == applied_all(
                received(old(self)@, first),
                burst@,
            ) && r == tick_for(final(self)@),
    {
        match first {
            Received::Disconnected => {
                return Tick::Exit;
            },
            Received::Timeout => {},
            Received::Message(m) => self.apply(m),
        }
        let mut rest = burst;
        let ghost goal = applied_all(self@, rest@);
        while rest.len() > 0
            invariant
                applied_all(self@, rest@) == goal,
            decreases rest.len(),
        {
            let ghost before = rest@;
            let m = rest.remove(0);
            assert(rest@ =~= before.drop_first());
            self.apply(m);
        }
        if self.enabled {
            Tick::Poll
        } else {
            Tick::Idle
        }
    }
}

} // verus!
