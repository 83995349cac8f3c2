//! Live-updating in-memory views of text files.
//!
//! A background worker polls the modification time of every registered file,
//! re-reads the files that changed and leaves the outcome in a single-slot
//! mailbox of each file; a [`TextFile`] drains its mailbox lazily on read.
mod laws;
mod mailbox;
mod manager;
mod types;
mod worker;

pub use laws::{
    lemma_change_is_observed, lemma_entries_are_kept, lemma_failure_is_reported_once,
    lemma_pause_and_resume, lemma_shut_down_manager_refuses, lemma_unmodified_file_is_stable,
};
pub use mailbox::Mailbox;
pub use manager::{
    control_result, outcome_of, recorded, registered_entry, send_outcome, ResourceHandle,
    ResourceManager,
};
pub use types::{IoFailure, PollInterval, Timestamp, Update};
pub use worker::{
    applied, applied_all, checked_once, entry_replaced, initial_state, is_newer, observed, polled, received, tick_for,
    with_published, EntryState, Message, Received, Tick, WatchedEntry, Worker, WorkerState,
};

use vstd::prelude::*;

verus! {

/// Why a request to the watcher failed.
#[derive(Debug)]
pub enum WatcherError {
    /// The control channel is closed: the worker has ended for good.
    DeadWatcher,
    /// Reading or inspecting a file failed.
    Io(IoFailure),
}

/// Asks the worker behind `manager` to pause watching.
pub fn stop_watch(manager: &mut ResourceManager) -> (r: Result<(), WatcherError>)
    ensures
        control_result(old(manager).is_live(), r),
        final(manager).is_live() == old(manager).is_live(),
        recorded(old(manager).sent(), final(manager).sent(), r, Message::Stop),
{
    manager.stop()
}

/// Asks the worker behind `manager` to resume watching.
pub fn start_watch(manager: &mut ResourceManager) -> (r: Result<(), WatcherError>)
    ensures
        control_result(old(manager).is_live(), r),
        final(manager).is_live() == old(manager).is_live(),
        recorded(old(manager).sent(), final(manager).sent(), r, Message::Start),
{
    manager.start()
}

/// Asks the worker behind `manager` to poll at interval `every`.
pub fn watch_interval(manager: &mut ResourceManager, every: PollInterval) -> (r: Result<
    (),
    WatcherError,
>)
    ensures
        control_result(old(manager).is_live(), r),
        final(manager).is_live() == old(manager).is_live(),
        recorded(old(manager).sent(), final(manager).sent(), r, Message::Interval(every)),
{
    manager.interval(every)
}

/// The model of a [`TextFile`]: the cached text, the failure of the latest
/// applied update if it failed and was not yet reported by a strict read, and
/// the file's path.
pub struct TextFileState {
    pub text: Seq<char>,
    pub failure: Option<IoFailure>,
    pub path: Seq<char>,
}

/// The state after one pending update was applied: new text clears the
/// failure; a failure is recorded and keeps the text; nothing pending changes
/// nothing.
pub open spec fn refreshed(s: TextFileState, u: Option<Update>) -> TextFileState {
    match u {
        None => s,
        Some(Ok(t)) => TextFileState { text: t@, failure: None, path: s.path },
        Some(Err(f)) => TextFileState { text: s.text, failure: Some(f), path: s.path },
    }
}

/// What a strict read returns in state `s`.
pub open spec fn strict_result(s: TextFileState) -> Result<Seq<char>, WatcherError> {
    match s.failure {
        None => Ok(s.text),
        Some(f) => Err(WatcherError::Io(f)),
    }
}

/// The result of a strict read, with the text as a sequence of characters.
pub open spec fn strict_view(r: Result<&String, WatcherError>) -> Result<Seq<char>, WatcherError> {
    match r {
        Ok(t) => Ok(t@),
        Err(e) => Err(e),
    }
}

/// The state after a strict read in state `s`: a reported failure is consumed.
pub open spec fn after_strict(s: TextFileState) -> TextFileState {
    TextFileState { text: s.text, failure: None, path: s.path }
}

/// A registered text file as its caller sees it: the text last read, the
/// failure of the latest refresh if there is one, and the handle on the
/// file's mailbox.
pub struct TextFile {
    text: String,
    last_status: Result<(), IoFailure>,
    updates: ResourceHandle,
}

impl View for TextFile {
    type V = TextFileState;

    closed spec fn view(&self) -> TextFileState {
        TextFileState {
            text: self.text@,
            failure: match self.last_status {
                Ok(()) => None,
                Err(f) => Some(f),
            },
            path: self.updates@,
        }
    }
}

impl TextFile {
    /// The mailbox the file reads its updates from.
    pub closed spec fn mailbox(&self) -> Mailbox {
        self.updates.mailbox()
    }

    /// Registers the file at `path` with `manager`, given the outcome of its
    /// first read (its text and modification time).
    pub fn register(
        manager: &mut ResourceManager,
        path: String,
        initial: Result<(String, Timestamp), IoFailure>,
    ) -> (r: Result<TextFile, WatcherError>)
        ensures
            initial is Err ==> r == Err::<TextFile, WatcherError>(WatcherError::Io(initial->Err_0)),
            initial is Ok && !old(manager).is_live() ==> r is Err && r->Err_0
                == WatcherError::DeadWatcher,
            initial is Ok && old(manager).is_live() ==> match r {
                Ok(f) => f@ == (TextFileState {
                    text: initial->Ok_0.0@,
                    failure: None,
                    path: path@,
                }),
                Err(e) => e == WatcherError::DeadWatcher,
            },
            final(manager).is_live() == old(manager).is_live(),
            r is Err ==> final(manager).sent() == old(manager).sent(),
            r is Ok ==> {
                &&& final(manager).sent().drop_last() == old(manager).sent()
                &&& final(manager).sent().len() == old(manager).sent().len() + 1
                &&& registered_entry(
                    final(manager).sent().last(),
                    path@,
                    initial->Ok_0.1,
                    r->Ok_0.mailbox(),
                )
            },
    {
        match manager.register(path, initial) {
            Ok((text, updates)) => Ok(TextFile { text, last_status: Ok(()), updates }),
            Err(e) => Err(e),
        }
    }

    pub fn path(&self) -> (r: &String)
        ensures
            r@ == self@.path,
    {
        self.updates.path()
    }

    /// The cached text, without a refresh.
    pub fn text(&self) -> (r: &String)
        ensures
            r@ == self@.text,
    {
        &self.text
    }

    /// The failure that the next strict read would report, if any.
    pub fn last_failure(&self) -> (r: Option<&IoFailure>)
        ensures
            match self@.failure {
                None => r is None,
                Some(f) => r == Some(&f),
            },
    {
        match &self.last_status {
            Ok(()) => None,
            Err(f) => Some(f),
        }
    }

    /// Applies an update taken from the mailbox.
    pub fn apply_update(&mut self, u: Option<Update>)
        ensures
            final(self)@ == refreshed(old(self)@, u),
    {
        match u {
            None => {},
            Some(Ok(t)) => {
                self.text = t;
                self.last_status = Ok(());
            },
            Some(Err(f)) => {
                self.last_status = Err(f);
            },
        }
    }

    /// Takes the pending update from the mailbox, if any, and applies it.
    fn update(&mut self)
        ensures
            exists|u: Option<Update>| final(self)@ == refreshed(old(self)@, u),
    {
        let u = self.updates.update();
        self.apply_update(u);
    }

    /// Refreshes, then returns the cached text, whether or not the refresh
    /// failed.
    pub fn get(&mut self) -> (r: &String)
        ensures
            exists|u: Option<Update>| final(self)@ == refreshed(old(self)@, u),
            r@ == final(self)@.text,
    {
        self.update();
        &self.text
    }

    /// Refreshes, then returns the cached text, or the pending failure, which
    /// this consumes.
    pub fn strict_get(&mut self) -> (r: Result<&String, WatcherError>)
        ensures
            exists|u: Option<Update>|
                final(self)@ == after_strict(#[trigger] refreshed(old(self)@, u)) && strict_view(r)
                    == strict_result(refreshed(old(self)@, u)),
    {
        self.update();
        self.read_strict()
    }

    /// The strict read of the current state, without a refresh.
    pub fn read_strict(&mut self) -> (r: Result<&String, WatcherError>)
        ensures
            final(self)@ == after_strict(old(self)@),
            strict_view(r) == strict_result(old(self)@),
    {
        let mut status: Result<(), IoFailure> = Ok(());
        std::mem::swap(&mut self.last_status, &mut status);
        match status {
            Ok(()) => Ok(&self.text),
            Err(f) => Err(WatcherError::Io(f)),
        }
    }
}

} // verus!
