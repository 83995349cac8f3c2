use crossbeam::channel::{Receiver, Sender};
use vstd::prelude::*;

use crate::mailbox::Mailbox;
use crate::types::{IoFailure, PollInterval, Timestamp, Update};
use crate::worker::{EntryState, Message, WatchedEntry};
use crate::WatcherError;

verus! {

#[verifier::external_type_specification]
#[verifier::external_body]
#[verifier::reject_recursive_types(T)]
pub struct ExSender<T>(Sender<T>);

#[verifier::external_type_specification]
#[verifier::external_body]
#[verifier::reject_recursive_types(T)]
pub struct ExReceiver<T>(Receiver<T>);

/// Relies on `crossbeam::channel::unbounded`: a fresh channel whose sender
/// never blocks.
#[verifier::external_body]
fn open_channel() -> (r: (Sender<Message>, Receiver<Message>)) {
    crossbeam::channel::unbounded()
}

/// Relies on `Sender::send`: true when the message was enqueued, false when
/// the receiving end is gone. Which of the two comes depends on the worker's
/// thread, so nothing is stated of it.
#[verifier::external_body]
fn send_message(s: &Sender<Message>, m: Message) -> (r: bool) {
    s.send(m).is_ok()
}

/// The result of a control request, given whether the channel took it.
pub open spec fn outcome_of(delivered: bool) -> Result<(), WatcherError> {
    if delivered {
        Ok(())
    } else {
        Err(WatcherError::DeadWatcher)
    }
}

/// Maps whether the channel took a message to the result the caller gets.
pub fn send_outcome(delivered: bool) -> (r: Result<(), WatcherError>)
    ensures
        r == outcome_of(delivered),
{
    if delivered {
        Ok(())
    } else {
        Err(WatcherError::DeadWatcher)
    }
}

/// What a control request may return: the dead-watcher error on a manager
/// that was shut down; on a live one, success or that error, as the channel
/// decides.
pub open spec fn control_result(live: bool, r: Result<(), WatcherError>) -> bool {
    if live {
        exists|d: bool| r == outcome_of(d)
    } else {
        r == Err::<(), WatcherError>(WatcherError::DeadWatcher)
    }
}

/// The consumer's end of one registered file: its path and the reading end
/// of its mailbox.
pub struct ResourceHandle {
    path: String,
    updates: Mailbox,
}

impl View for ResourceHandle {
    type V = Seq<char>;

    closed spec fn view(&self) -> Seq<char> {
        self.path@
    }
}

impl ResourceHandle {
    /// The mailbox the handle reads.
    pub closed spec fn mailbox(&self) -> Mailbox {
        self.updates
    }

    /// Takes the pending update of the file, if the worker left one.
    pub fn update(&self) -> (r: Option<Update>) {
        self.updates.pop()
    }

    pub fn path(&self) -> (r: &String)
        ensures
            r@ == self@,
    {
        &self.path
    }
}

/// The one place that routes control traffic to the worker: it owns the
/// sending end of the control channel until it is shut down.
pub struct ResourceManager {
    sender: Option<Sender<Message>>,
    sent: Ghost<Seq<Message>>,
}

/// `after` is the record `before` with `m` added when the request succeeded,
/// and `before` unchanged when it failed.
pub open spec fn recorded(
    before: Seq<Message>,
    after: Seq<Message>,
    r: Result<(), WatcherError>,
    m: Message,
) -> bool {
    if r is Ok {
        after == before.push(m)
    } else {
        after == before
    }
}

/// The entry that a registration of `path`, first read at time `tm`, hands to
/// the worker: it has published nothing and writes into `mailbox`, an empty
/// single-slot mailbox.
pub open spec fn registered_entry(m: Message, path: Seq<char>, tm: Timestamp, mailbox: Mailbox) -> bool {
    &&& m is Register
    &&& m->Register_0@ == (EntryState { path: path, tm: tm.nanos as int, published: Seq::empty() })
    &&& m->Register_0.mailbox() == mailbox
    &&& mailbox.capacity() == 1
}

impl ResourceManager {
    /// Whether the manager still holds the sending end of its channel.
    pub closed spec fn is_live(&self) -> bool {
        self.sender is Some
    }

    /// Every message the channel has taken from this manager, oldest first.
    pub closed spec fn sent(&self) -> Seq<Message> {
        self.sent@
    }

    /// A live manager, and the receiving end that the worker is to drain.
    pub fn new() -> (r: (ResourceManager, Receiver<Message>))
        ensures
            r.0.is_live(),
            r.0.sent() == Seq::<Message>::empty(),
    {
        let (tx, rx) = open_channel();
        (ResourceManager { sender: Some(tx), sent: Ghost(Seq::empty()) }, rx)
    }

    pub fn is_running(&self) -> (r: bool)
        ensures
            r == self.is_live(),
    {
        self.sender.is_some()
    }

    /// Drops the sending end: the worker sees its channel closed and ends,
    /// and every later request fails with the dead-watcher error.
    pub fn shut_down(&mut self)
        ensures
            !final(self).is_live(),
            final(self).sent() == old(self).sent(),
    {
        self.sender = None;
    }

    fn send(&mut self, m: Message) -> (r: Result<(), WatcherError>)
        ensures
            control_result(old(self).is_live(), r),
            final(self).is_live() == old(self).is_live(),
            recorded(old(self).sent(), final(self).sent(), r, m),
    {
        let ghost g = m;
        let delivered = match &self.sender {
            None => false,
            Some(sender) => send_message(sender, m),
        };
        if delivered {
            self.sent = Ghost(self.sent@.push(g));
        }
        if self.sender.is_none() {
            Err(WatcherError::DeadWatcher)
        } else {
            send_outcome(delivered)
        }
    }

    /// Asks the worker to pause watching.
    pub fn stop(&mut self) -> (r: Result<(), WatcherError>)
        ensures
            control_result(old(self).is_live(), r),
            final(self).is_live() == old(self).is_live(),
            recorded(old(self).sent(), final(self).sent(), r, Message::Stop),
    {
        self.send(Message::Stop)
    }

    /// Asks the worker to resume watching.
    pub fn start(&mut self) -> (r: Result<(), WatcherError>)
        ensures
            control_result(old(self).is_live(), r),
            final(self).is_live() == old(self).is_live(),
            recorded(old(self).sent(), final(self).sent(), r, Message::Start),
    {
        self.send(Message::Start)
    }

    /// Asks the worker to poll at interval `every` from now on.
    pub fn interval(&mut self, every: PollInterval) -> (r: Result<(), WatcherError>)
        ensures
            control_result(old(self).is_live(), r),
            final(self).is_live() == old(self).is_live(),
            recorded(old(self).sent(), final(self).sent(), r, Message::Interval(every)),
    {
        self.send(Message::Interval(every))
    }

    /// Registers the file at `path`, given the outcome of its first read
    /// (its text and modification time). A failed read is returned as an I/O
    /// error and nothing goes to the worker; otherwise a new entry goes to the
    /// worker and the caller gets the text and a handle on the entry's
    /// mailbox.
    pub fn register(&mut self, path: String, initial: Result<(String, Timestamp), IoFailure>) -> (r:
        Result<(String, ResourceHandle), WatcherError>)
        ensures
            initial is Err ==> r == Err::<(String, ResourceHandle), WatcherError>(
                WatcherError::Io(initial->Err_0),
            ),
            initial is Ok && !old(self).is_live() ==> r is Err && r->Err_0 == WatcherError::DeadWatcher,
            initial is Ok && old(self).is_live() ==> match r {
                Ok(p) => p.0 == initial->Ok_0.0 && p.1@ == path@,
                Err(e) => e == WatcherError::DeadWatcher,
            },
            final(self).is_live() == old(self).is_live(),
            r is Err ==> final(self).sent() == old(self).sent(),
            r is Ok ==> {
                &&& final(self).sent().drop_last() == old(self).sent()
                &&& final(self).sent().len() == old(self).sent().len() + 1
                &&& registered_entry(
                    final(self).sent().last(),
                    path@,
                    initial->Ok_0.1,
                    r->Ok_0.1.mailbox(),
                )
            },
    {
        let (text, tm) = match initial {
            Err(f) => {
                return Err(WatcherError::Io(f));
            },
            Ok(p) => p,
        };
        match &self.sender {
            None => Err(WatcherError::DeadWatcher),
            Some(sender) => {
                let mailbox = Mailbox::new();
                let handle = ResourceHandle { path: path.clone(), updates: mailbox.share() };
                let entry = WatchedEntry::new(path, tm, mailbox);
                let ghost g = Message::Register(entry);
                if send_message(sender, Message::Register(entry)) {
                    self.sent = Ghost(self.sent@.push(g));
                    assert(self.sent@.drop_last() =~= old(self).sent@);
                    Ok((text, handle))
                } else {
                    Err(WatcherError::DeadWatcher)
                }
            },
        }
    }
}

} // verus!
