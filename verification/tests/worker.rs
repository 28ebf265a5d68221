use sync_worker::entry::Entry;
use sync_worker::errors::FsError;
use sync_worker::paths::FsPath;
use sync_worker::progress::ProgressMessage;
use sync_worker::progress::SyncOutcome;
use sync_worker::sync::SyncOptions;
use sync_worker::worker::Action;
use sync_worker::worker::Event;
use sync_worker::worker::SyncWorker;

fn path(parts: &[&str]) -> FsPath {
    FsPath { components: parts.iter().map(|p| p.as_bytes().to_vec()).collect() }
}

fn parts(p: &FsPath) -> Vec<Vec<u8>> {
    p.components.clone()
}

fn entry(desc: &str, p: &[&str]) -> Entry {
    Entry::new(desc.as_bytes().to_vec(), path(p))
}

fn worker() -> SyncWorker {
    SyncWorker::new(path(&["src"]), path(&["dst"]))
}

fn keep_permissions() -> SyncOptions {
    SyncOptions { preserve_permissions: true }
}

fn plain_options() -> SyncOptions {
    SyncOptions { preserve_permissions: false }
}

#[test]
fn single_entry_full_run() {
    // Source root /src, destination root /dst, one entry /src/a/b.txt: the
    // worker asks for /dst/a, transfers to /dst/a/b.txt, emits exactly one
    // progress message, and ends normally when the stream closes.
    let mut w = worker();
    let mut progress: Vec<ProgressMessage> = Vec::new();

    let a = w.step(Event::Received(entry("b.txt", &["src", "a", "b.txt"])), plain_options());
    let dir = match a {
        Action::CreateDirs(d) => d,
        _ => panic!("expected a directory request"),
    };
    assert_eq!(parts(&dir), parts(&path(&["dst", "a"])));

    let a = w.step(Event::DirsCreated(Ok(())), plain_options());
    match a {
        Action::Transfer { source, dest } => {
            assert_eq!(parts(&source.path), parts(&path(&["src", "a", "b.txt"])));
            assert_eq!(parts(&dest.path), parts(&path(&["dst", "a", "b.txt"])));
            assert_eq!(dest.description, b"a/b.txt".to_vec());
        }
        _ => panic!("expected a transfer request"),
    }

    let a = w.step(Event::Transferred(Ok(SyncOutcome { code: 7 })), plain_options());
    match a {
        Action::SendProgress(m) => progress.push(m),
        _ => panic!("expected a progress message"),
    }

    let a = w.step(Event::Sent, plain_options());
    assert!(matches!(a, Action::Receive));

    let a = w.step(Event::Closed, plain_options());
    assert!(matches!(a, Action::Stop(Ok(()))));

    assert_eq!(progress, vec![ProgressMessage::DoneSyncing(SyncOutcome { code: 7 })]);
}

#[test]
fn ancestor_directories_requested_before_transfer() {
    // For relative path a/b/c.txt the worker asks for /dst/a/b (which brings
    // /dst/a with it) before any transfer is requested.
    let mut w = worker();
    let a = w.step(Event::Received(entry("c.txt", &["src", "a", "b", "c.txt"])), plain_options());
    match a {
        Action::CreateDirs(d) => assert_eq!(parts(&d), parts(&path(&["dst", "a", "b"]))),
        _ => panic!("expected a directory request before anything else"),
    }
    let a = w.step(Event::DirsCreated(Ok(())), plain_options());
    match a {
        Action::Transfer { dest, .. } => {
            assert_eq!(parts(&dest.path), parts(&path(&["dst", "a", "b", "c.txt"])));
        }
        _ => panic!("expected the transfer only after the directories"),
    }
}

#[test]
fn materialization_request_is_repeatable() {
    // Two entries under the same parent ask for the same directory: the
    // request is deterministic, and repeating it adds nothing.
    let mut w1 = worker();
    let mut w2 = worker();
    let a1 = w1.step(Event::Received(entry("x", &["src", "a", "x"])), plain_options());
    let a2 = w2.step(Event::Received(entry("y", &["src", "a", "y"])), plain_options());
    match (a1, a2) {
        (Action::CreateDirs(d1), Action::CreateDirs(d2)) => {
            assert_eq!(parts(&d1), parts(&d2));
            assert_eq!(parts(&d1), parts(&path(&["dst", "a"])));
        }
        _ => panic!("expected two directory requests"),
    }
}

#[test]
fn no_permission_copy_when_disabled() {
    let mut w = worker();
    w.step(Event::Received(entry("b.txt", &["src", "a", "b.txt"])), plain_options());
    w.step(Event::DirsCreated(Ok(())), plain_options());
    let a = w.step(Event::Transferred(Ok(SyncOutcome { code: 1 })), plain_options());
    match a {
        Action::CopyPermissions { .. } => panic!("permissions must not be touched"),
        Action::SendProgress(m) => {
            assert_eq!(m, ProgressMessage::DoneSyncing(SyncOutcome { code: 1 }));
        }
        _ => panic!("expected the progress message straight away"),
    }
}

#[test]
fn permissions_copied_after_successful_transfer() {
    let mut w = worker();
    w.step(Event::Received(entry("b.txt", &["src", "a", "b.txt"])), keep_permissions());
    w.step(Event::DirsCreated(Ok(())), keep_permissions());
    let a = w.step(Event::Transferred(Ok(SyncOutcome { code: 2 })), keep_permissions());
    match a {
        Action::CopyPermissions { source, dest } => {
            assert_eq!(parts(&source.path), parts(&path(&["src", "a", "b.txt"])));
            assert_eq!(parts(&dest.path), parts(&path(&["dst", "a", "b.txt"])));
        }
        _ => panic!("expected the permission copy right after the transfer"),
    }
    let a = w.step(Event::PermissionsCopied(Ok(())), keep_permissions());
    match a {
        Action::SendProgress(m) => {
            assert_eq!(m, ProgressMessage::DoneSyncing(SyncOutcome { code: 2 }));
        }
        _ => panic!("expected the progress message after the permission copy"),
    }
}

#[test]
fn permission_failure_aborts_the_worker() {
    let mut w = worker();
    w.step(Event::Received(entry("b.txt", &["src", "a", "b.txt"])), keep_permissions());
    w.step(Event::DirsCreated(Ok(())), keep_permissions());
    w.step(Event::Transferred(Ok(SyncOutcome { code: 2 })), keep_permissions());
    let failure = FsError::Io {
        context: path(&["dst", "a", "b.txt"]),
        detail: b"operation not permitted".to_vec(),
    };
    let a = w.step(Event::PermissionsCopied(Err(failure)), keep_permissions());
    match a {
        Action::Stop(Err(FsError::Io { context, detail })) => {
            assert_eq!(parts(&context), parts(&path(&["dst", "a", "b.txt"])));
            assert_eq!(detail, b"operation not permitted".to_vec());
        }
        _ => panic!("expected the worker to stop with the failure"),
    }
    assert!(!w.accepts_event(&Event::Received(entry("c", &["src", "c"]))));
}

#[test]
fn resolution_failure_stops_before_any_work() {
    // The first action for a stray entry is already the stop: no directory
    // creation and no transfer was ever requested.
    let mut w = worker();
    let a = w.step(Event::Received(entry("x.txt", &["other", "x.txt"])), plain_options());
    match a {
        Action::Stop(Err(e)) => {
            assert!(e.is_path_error());
            match e {
                FsError::PathNotUnderRoot { path: p, root } => {
                    assert_eq!(parts(&p), parts(&path(&["other", "x.txt"])));
                    assert_eq!(parts(&root), parts(&path(&["src"])));
                }
                _ => panic!("expected the not-under-root error"),
            }
        }
        _ => panic!("expected an immediate stop with the path error"),
    }
    assert!(!w.accepts_event(&Event::Received(entry("y", &["src", "y"]))));
    assert!(!w.accepts_event(&Event::Closed));
}

#[test]
fn entry_naming_the_root_is_rejected() {
    let mut w = worker();
    let a = w.step(Event::Received(entry("src", &["src"])), plain_options());
    match a {
        Action::Stop(Err(FsError::PathNoParent { path: p })) => {
            assert_eq!(parts(&p), Vec::<Vec<u8>>::new());
        }
        _ => panic!("expected the no-parent error"),
    }
}

#[test]
fn directory_creation_failure_is_wrapped() {
    let mut w = worker();
    w.step(Event::Received(entry("b.txt", &["src", "a", "b.txt"])), plain_options());
    let a = w.step(Event::DirsCreated(Err(b"permission denied".to_vec())), plain_options());
    match a {
        Action::Stop(Err(FsError::Io { context, detail })) => {
            assert_eq!(parts(&context), parts(&path(&["dst", "a"])));
            assert_eq!(detail, b"permission denied".to_vec());
        }
        _ => panic!("expected the wrapped directory error"),
    }
}

#[test]
fn transfer_failure_halts_further_receives() {
    let mut w = worker();
    w.step(Event::Received(entry("b.txt", &["src", "a", "b.txt"])), plain_options());
    w.step(Event::DirsCreated(Ok(())), plain_options());
    let failure = FsError::Io {
        context: path(&["dst", "a", "b.txt"]),
        detail: b"read failed".to_vec(),
    };
    let a = w.step(Event::Transferred(Err(failure)), plain_options());
    assert!(matches!(a, Action::Stop(Err(FsError::Io { .. }))));
    assert!(!w.accepts_event(&Event::Received(entry("c", &["src", "c"]))));
    assert!(!w.accepts_event(&Event::Sent));
    assert!(!w.accepts_event(&Event::Closed));
}

#[test]
fn closed_stream_ends_normally() {
    let mut w = worker();
    let a = w.step(Event::Closed, plain_options());
    assert!(matches!(a, Action::Stop(Ok(()))));
    assert!(!w.accepts_event(&Event::Received(entry("a", &["src", "a"]))));
}

#[test]
fn two_entries_emit_two_progress_messages() {
    let mut w = worker();
    let mut sent: usize = 0;
    for name in ["one.txt", "two.txt"] {
        w.step(Event::Received(entry(name, &["src", "d", name])), plain_options());
        w.step(Event::DirsCreated(Ok(())), plain_options());
        let a = w.step(Event::Transferred(Ok(SyncOutcome { code: 0 })), plain_options());
        assert!(matches!(a, Action::SendProgress(_)));
        sent += 1;
        let a = w.step(Event::Sent, plain_options());
        assert!(matches!(a, Action::Receive));
    }
    assert!(matches!(w.step(Event::Closed, plain_options()), Action::Stop(Ok(()))));
    assert_eq!(sent, 2);
}
