//! Properties that relate several operations of the library.
use vstd::prelude::*;

use crate::manager::{control_result, recorded, ResourceManager};
use crate::types::{IoFailure, Timestamp};
use crate::worker::{
    applied, applied_all, is_newer, observed, tick_for, with_published, EntryState, Message, Tick,
    WorkerState,
};
use crate::{after_strict, refreshed, strict_result, TextFileState, WatcherError};

verus! {

/// A file whose modification time has not advanced since the last check is
/// left alone by the worker: nothing is published and the stored time stays.
/// A consumer that finds its mailbox empty keeps its text and its error state,
/// so repeated reads return the same text and no new error.
pub proof fn lemma_unmodified_file_is_stable(e: EntryState, t: Timestamp, s: TextFileState)
    requires
        t.nanos <= e.tm,
    ensures
        !is_newer(e, Ok(t)),
        observed(e, Ok(t)) == e,
        refreshed(s, None) == s,
        refreshed(refreshed(s, None), None) == s,
{
}

/// A strictly newer modification time makes the worker record it and re-read
/// the file; the consumer that receives the new text shows it and reports no
/// error, and keeps showing it while nothing more arrives. A second check at
/// the same time asks for no re-read.
pub proof fn lemma_change_is_observed(e: EntryState, t: Timestamp, text: String, s: TextFileState)
    requires
        t.nanos > e.tm,
    ensures
        is_newer(e, Ok(t)),
        observed(e, Ok(t)).tm == t.nanos,
        observed(e, Ok(t)).published == e.published,
        with_published(observed(e, Ok(t)), Ok(text)).published.last() == Ok::<String, IoFailure>(text),
        !is_newer(observed(e, Ok(t)), Ok(t)),
        observed(observed(e, Ok(t)), Ok(t)) == observed(e, Ok(t)),
        refreshed(s, Some(Ok(text))).text == text@,
        refreshed(s, Some(Ok(text))).failure is None,
        refreshed(refreshed(s, Some(Ok(text))), None) == refreshed(s, Some(Ok(text))),
{
}

/// A failed stat is published and keeps the stored time. The strict read that
/// follows the failure reports it; the strict read after that succeeds with
/// the text cached before the failure, even though no new text arrived.
pub proof fn lemma_failure_is_reported_once(e: EntryState, f: IoFailure, s: TextFileState)
    ensures
        observed(e, Err(f)).tm == e.tm,
        observed(e, Err(f)).published == e.published.push(Err(f)),
        strict_result(refreshed(s, Some(Err(f)))) == Err::<Seq<char>, WatcherError>(
            WatcherError::Io(f),
        ),
        strict_result(refreshed(after_strict(refreshed(s, Some(Err(f)))), None)) == Ok::<
            Seq<char>,
            WatcherError,
        >(s.text),
{
}

/// Control messages only ever add entries: the entries present before stay,
/// in place and unchanged.
pub proof fn lemma_entries_are_kept(s: WorkerState, ms: Seq<Message>)
    ensures
        applied_all(s, ms).entries.len() >= s.entries.len(),
        applied_all(s, ms).entries.subrange(0, s.entries.len() as int) == s.entries,
    decreases ms.len(),
{
    if ms.len() > 0 {
        let s1 = applied(s, ms[0]);
        lemma_entries_are_kept(s1, ms.drop_first());
        assert(s1.entries.subrange(0, s.entries.len() as int) =~= s.entries);
        assert(applied_all(s, ms).entries.subrange(0, s.entries.len() as int) =~= s.entries);
    } else {
        assert(s.entries.subrange(0, s.entries.len() as int) =~= s.entries);
    }
}

/// The enabled flag after a run of messages in which `Start` and `Stop`
/// appear only as the given one allows: it stays as it was.
proof fn lemma_flag_kept(s: WorkerState, ms: Seq<Message>)
    requires
        forall|i: int| 0 <= i < ms.len() ==> !(#[trigger] ms[i] is Start) && !(ms[i] is Stop),
    ensures
        applied_all(s, ms).enabled == s.enabled,
    decreases ms.len(),
{
    if ms.len() > 0 {
        assert(!(ms[0] is Start) && !(ms[0] is Stop));
        lemma_flag_kept(applied(s, ms[0]), ms.drop_first());
    }
}

/// After `Stop`, and any later messages that neither start nor stop, the
/// worker checks no file and leaves every entry, with its stored time, as it
/// was. After a `Start` and any such messages it polls again, and a stat newer
/// than an entry's stored time, however many changes it stands for, is
/// detected at that poll.
pub proof fn lemma_pause_and_resume(
    s: WorkerState,
    paused: Seq<Message>,
    resumed: Seq<Message>,
    i: int,
    t: Timestamp,
)
    requires
        forall|k: int| 0 <= k < paused.len() ==> !(#[trigger] paused[k] is Start) && !(
        paused[k] is Stop),
        forall|k: int| 0 <= k < resumed.len() ==> !(#[trigger] resumed[k] is Start) && !(
        resumed[k] is Stop),
        0 <= i < s.entries.len(),
        t.nanos > s.entries[i]@.tm,
    ensures
        tick_for(applied_all(applied(s, Message::Stop), paused)) == Tick::Idle,
        tick_for(
            applied_all(applied(applied_all(applied(s, Message::Stop), paused), Message::Start), resumed),
        ) == Tick::Poll,
        applied_all(applied(applied_all(applied(s, Message::Stop), paused), Message::Start), resumed).entries[i]
            == s.entries[i],
        is_newer(
            applied_all(applied(applied_all(applied(s, Message::Stop), paused), Message::Start), resumed).entries[i]@,
            Ok(t),
        ),
{
    let s1 = applied(s, Message::Stop);
    let s2 = applied_all(s1, paused);
    let s3 = applied(s2, Message::Start);
    let s4 = applied_all(s3, resumed);
    lemma_flag_kept(s1, paused);
    lemma_flag_kept(s3, resumed);
    lemma_entries_are_kept(s1, paused);
    lemma_entries_are_kept(s3, resumed);
    assert(s2.entries.subrange(0, s1.entries.len() as int)[i] == s1.entries[i]);
    assert(s4.entries.subrange(0, s3.entries.len() as int)[i] == s3.entries[i]);
}

/// A manager that was shut down answers every control request with the
/// dead-watcher error and hands nothing to the channel: its record of sent
/// messages stays as it was.
pub proof fn lemma_shut_down_manager_refuses(
    m: ResourceManager,
    r: Result<(), WatcherError>,
    before: Seq<Message>,
    after: Seq<Message>,
    msg: Message,
)
    requires
        !m.is_live(),
        control_result(m.is_live(), r),
        recorded(before, after, r, msg),
    ensures
        r == Err::<(), WatcherError>(WatcherError::DeadWatcher),
        after == before,
{
}

} // verus!
