use text_watch::{
    send_outcome, start_watch, stop_watch, watch_interval, IoFailure, Mailbox, Message,
    PollInterval, Received, ResourceManager, TextFile, Tick, Timestamp, WatchedEntry,
    WatcherError, Worker,
};

fn failure(msg: &str) -> IoFailure {
    IoFailure { kind: "NotFound".to_string(), message: msg.to_string() }
}

fn at(nanos: i128) -> Timestamp {
    Timestamp { nanos }
}

/// Registers `path` with `text` read at `tm`, and hands the new entry to a
/// fresh worker.
fn registered(path: &str, text: &str, tm: i128) -> (ResourceManager, Worker, TextFile) {
    let (mut manager, rx) = ResourceManager::new();
    let file =
        TextFile::register(&mut manager, path.to_string(), Ok((text.to_string(), at(tm)))).unwrap();
    let first = rx.try_recv().unwrap();
    let mut worker = Worker::new();
    assert_eq!(worker.step(Received::Message(first), Vec::new()), Tick::Poll);
    assert_eq!(worker.entry_count(), 1);
    (manager, worker, file)
}

/// One poll of entry 0, given what a stat and a re-read of its file give.
fn poll(worker: &mut Worker, stat: Result<Timestamp, IoFailure>, read: Result<String, IoFailure>) {
    if worker.check_entry(0, stat) {
        worker.publish_entry(0, read);
    }
}

#[test]
fn main() {
    let (_manager, mut worker, mut file) = registered("a.txt", "v1", 100);
    assert_eq!(worker.entry_path(0), "a.txt");
    assert_eq!(file.get(), "v1");
    poll(&mut worker, Ok(at(200)), Ok("v2".to_string()));
    assert_eq!(file.get(), "v2");
    poll(&mut worker, Err(failure("gone")), Ok("unused".to_string()));
    match file.strict_get() {
        Err(WatcherError::Io(f)) => assert_eq!(f.message, "gone"),
        _ => panic!("the failure was not reported"),
    }
    assert_eq!(file.strict_get().unwrap(), "v2");
    poll(&mut worker, Ok(at(300)), Ok("v3".to_string()));
    assert_eq!(file.get(), "v3");
    assert!(file.last_failure().is_none());
}

#[test]
fn unmodified_file_reads_the_same() {
    let (_manager, mut worker, mut file) = registered("b.txt", "same", 100);
    for _ in 0..3 {
        poll(&mut worker, Ok(at(100)), Ok("never".to_string()));
        assert_eq!(file.get(), "same");
        assert!(file.last_failure().is_none());
        assert_eq!(file.strict_get().unwrap(), "same");
    }
}

#[test]
fn older_time_is_ignored() {
    let (_manager, mut worker, mut file) = registered("c.txt", "first", 100);
    assert!(!worker.check_entry(0, Ok(at(50))));
    assert!(worker.check_entry(0, Ok(at(150))));
    assert!(!worker.check_entry(0, Ok(at(150))));
    assert_eq!(file.get(), "first");
}

#[test]
fn change_is_seen_and_kept() {
    let (_manager, mut worker, mut file) = registered("d.txt", "old", 1);
    poll(&mut worker, Ok(at(2)), Ok("new".to_string()));
    assert_eq!(file.strict_get().unwrap(), "new");
    assert_eq!(file.get(), "new");
    assert_eq!(file.text(), "new");
}

#[test]
fn latest_of_two_changes_wins() {
    let (_manager, mut worker, mut file) = registered("e.txt", "v1", 1);
    poll(&mut worker, Ok(at(2)), Ok("v2".to_string()));
    poll(&mut worker, Ok(at(3)), Ok("v3".to_string()));
    assert_eq!(file.get(), "v3");
    assert_eq!(file.get(), "v3");
}

#[test]
fn mailbox_holds_only_the_latest() {
    let writer = Mailbox::new();
    let reader = writer.share();
    assert!(reader.pop().is_none());
    writer.push(Ok("a".to_string()));
    writer.push(Err(failure("x")));
    writer.push(Ok("b".to_string()));
    match reader.pop() {
        Some(Ok(t)) => assert_eq!(t, "b"),
        _ => panic!("expected the latest text"),
    }
    assert!(reader.pop().is_none());
}

#[test]
fn failure_keeps_text_for_get() {
    let (_manager, mut worker, mut file) = registered("f.txt", "kept", 1);
    poll(&mut worker, Err(failure("denied")), Ok("unused".to_string()));
    assert_eq!(file.get(), "kept");
    assert_eq!(file.last_failure().unwrap().message, "denied");
    assert!(matches!(file.strict_get(), Err(WatcherError::Io(_))));
    assert!(file.last_failure().is_none());
    assert_eq!(file.strict_get().unwrap(), "kept");
}

#[test]
fn failed_stat_keeps_the_stored_time() {
    let (_manager, mut worker, _file) = registered("g.txt", "t", 10);
    assert!(!worker.check_entry(0, Err(failure("busy"))));
    assert!(!worker.check_entry(0, Ok(at(10))));
    assert!(worker.check_entry(0, Ok(at(11))));
}

#[test]
fn failed_reread_is_reported() {
    let (_manager, mut worker, mut file) = registered("h.txt", "t", 10);
    poll(&mut worker, Ok(at(20)), Err(failure("unreadable")));
    match file.strict_get() {
        Err(WatcherError::Io(f)) => assert_eq!(f.message, "unreadable"),
        _ => panic!("the failure was not reported"),
    }
}

#[test]
fn stop_pauses_and_start_resumes() {
    let (_manager, mut worker, mut file) = registered("i.txt", "v1", 1);
    assert_eq!(worker.step(Received::Message(Message::Stop), Vec::new()), Tick::Idle);
    assert_eq!(worker.step(Received::Timeout, Vec::new()), Tick::Idle);
    assert_eq!(worker.step(Received::Timeout, Vec::new()), Tick::Idle);
    assert_eq!(file.get(), "v1");
    assert_eq!(worker.step(Received::Message(Message::Start), Vec::new()), Tick::Poll);
    poll(&mut worker, Ok(at(5)), Ok("v2".to_string()));
    assert_eq!(file.get(), "v2");
}

#[test]
fn burst_is_applied_in_order_before_polling() {
    let mut worker = Worker::new();
    let burst = vec![
        Message::Stop,
        Message::Interval(PollInterval { secs: 0, nanos: 250 }),
        Message::Register(WatchedEntry::new("x".to_string(), at(1), Mailbox::new())),
        Message::Start,
    ];
    assert_eq!(worker.step(Received::Timeout, burst), Tick::Poll);
    assert_eq!(worker.interval(), PollInterval { secs: 0, nanos: 250 });
    assert_eq!(worker.entry_count(), 1);
    assert_eq!(worker.step(Received::Timeout, vec![Message::Start, Message::Stop]), Tick::Idle);
    assert!(!worker.is_enabled());
}

#[test]
fn fresh_worker_runs_every_second() {
    let worker = Worker::new();
    assert_eq!(worker.interval(), PollInterval { secs: 1, nanos: 0 });
    assert_eq!(PollInterval::default_interval(), PollInterval { secs: 1, nanos: 0 });
    assert!(worker.is_enabled());
    assert_eq!(worker.entry_count(), 0);
}

#[test]
fn closed_channel_ends_the_worker() {
    let mut worker = Worker::new();
    assert_eq!(worker.step(Received::Disconnected, Vec::new()), Tick::Exit);
    assert!(worker.is_enabled());
}

#[test]
fn interval_message_changes_only_the_interval() {
    let mut worker = Worker::new();
    worker.apply(Message::Stop);
    worker.apply(Message::Interval(PollInterval { secs: 3, nanos: 0 }));
    assert_eq!(worker.interval(), PollInterval { secs: 3, nanos: 0 });
    assert!(!worker.is_enabled());
}

#[test]
fn control_requests_reach_the_worker() {
    let (mut manager, rx) = ResourceManager::new();
    assert!(manager.is_running());
    assert!(stop_watch(&mut manager).is_ok());
    assert!(start_watch(&mut manager).is_ok());
    assert!(watch_interval(&mut manager, PollInterval { secs: 2, nanos: 0 }).is_ok());
    let mut worker = Worker::new();
    let first = rx.try_recv().unwrap();
    let burst: Vec<Message> = rx.try_iter().collect();
    assert_eq!(burst.len(), 2);
    assert_eq!(worker.step(Received::Message(first), burst), Tick::Poll);
    assert_eq!(worker.interval(), PollInterval { secs: 2, nanos: 0 });
}

#[test]
fn shut_down_manager_is_dead() {
    let (mut manager, _rx) = ResourceManager::new();
    manager.shut_down();
    assert!(!manager.is_running());
    assert!(matches!(stop_watch(&mut manager), Err(WatcherError::DeadWatcher)));
    assert!(matches!(start_watch(&mut manager), Err(WatcherError::DeadWatcher)));
    assert!(matches!(
        watch_interval(&mut manager, PollInterval { secs: 1, nanos: 0 }),
        Err(WatcherError::DeadWatcher)
    ));
    let r = TextFile::register(&mut manager, "a.txt".to_string(), Ok(("v".to_string(), at(1))));
    assert!(matches!(r, Err(WatcherError::DeadWatcher)));
}

#[test]
fn gone_worker_means_dead_watcher() {
    let (mut manager, rx) = ResourceManager::new();
    drop(rx);
    assert!(matches!(manager.stop(), Err(WatcherError::DeadWatcher)));
    assert!(matches!(manager.start(), Err(WatcherError::DeadWatcher)));
    let r = TextFile::register(&mut manager, "a.txt".to_string(), Ok(("v".to_string(), at(1))));
    assert!(matches!(r, Err(WatcherError::DeadWatcher)));
}

#[test]
fn failed_first_read_is_an_io_error() {
    let (mut manager, rx) = ResourceManager::new();
    let r = TextFile::register(&mut manager, "missing.txt".to_string(), Err(failure("no such file")));
    match r {
        Err(WatcherError::Io(f)) => assert_eq!(f.message, "no such file"),
        _ => panic!("expected an I/O error"),
    }
    assert!(rx.try_recv().is_err());
}

#[test]
fn registered_file_keeps_its_path() {
    let (_manager, _worker, file) = registered("dir/notes.txt", "n", 1);
    assert_eq!(file.path(), "dir/notes.txt");
    assert_eq!(file.text(), "n");
}

#[test]
fn send_outcome_maps_delivery() {
    assert!(send_outcome(true).is_ok());
    assert!(matches!(send_outcome(false), Err(WatcherError::DeadWatcher)));
}

#[test]
fn apply_update_sets_text_or_failure() {
    let (_manager, _worker, mut file) = registered("j.txt", "a", 1);
    file.apply_update(None);
    assert_eq!(file.text(), "a");
    file.apply_update(Some(Err(failure("e"))));
    assert_eq!(file.text(), "a");
    assert!(file.last_failure().is_some());
    file.apply_update(Some(Ok("b".to_string())));
    assert_eq!(file.text(), "b");
    assert!(file.last_failure().is_none());
    assert_eq!(file.read_strict().unwrap(), "b");
}

#[test]
fn poll_checks_each_entry_once_in_order() {
    let mut worker = Worker::new();
    let first = Mailbox::new();
    let second = Mailbox::new();
    let first_reader = first.share();
    let second_reader = second.share();
    let burst = vec![
        Message::Register(WatchedEntry::new("one".to_string(), at(10), first)),
        Message::Register(WatchedEntry::new("two".to_string(), at(10), second)),
    ];
    assert_eq!(worker.step(Received::Timeout, burst), Tick::Poll);
    let stats = std::cell::RefCell::new(Vec::new());
    let reads = std::cell::RefCell::new(Vec::new());
    worker.poll(
        |p: &String| {
            stats.borrow_mut().push(p.clone());
            if p == "one" { Ok(at(20)) } else { Ok(at(10)) }
        },
        |p: &String| {
            reads.borrow_mut().push(p.clone());
            Ok(format!("{} changed", p))
        },
    );
    assert_eq!(*stats.borrow(), vec!["one".to_string(), "two".to_string()]);
    assert_eq!(*reads.borrow(), vec!["one".to_string()]);
    match first_reader.pop() {
        Some(Ok(t)) => assert_eq!(t, "one changed"),
        _ => panic!("the change of the first file was not published"),
    }
    assert!(second_reader.pop().is_none());
}

#[test]
fn poll_publishes_a_failed_stat() {
    let (_manager, mut worker, mut file) = registered("k.txt", "k", 1);
    worker.poll(|_p: &String| Err(failure("vanished")), |_p: &String| Ok("unused".to_string()));
    assert!(matches!(file.strict_get(), Err(WatcherError::Io(_))));
    assert_eq!(file.strict_get().unwrap(), "k");
}
