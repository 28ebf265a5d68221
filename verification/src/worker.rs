//! The synchronization worker as a state machine.
//!
//! The worker owns no channel and touches no filesystem: each call of
//! [`SyncWorker::step`] consumes one event (an entry received, the stream
//! closed, the result of filesystem work done on the worker's behalf) and
//! answers with the next action for the surrounding shell to perform. The
//! shell loops: perform the action, hand the resulting event back. The
//! function [`spec_step`] is the mathematical model of one step, and the
//! public lemmas state the worker's guarantees over it: fail-fast abortion,
//! directory materialization before any transfer, and permission copying
//! exactly when it was asked for.

use vstd::prelude::*;
use crate::entry::Entry;
use crate::entry::EntryView;
use crate::errors::ErrorView;
use crate::errors::FsError;
use crate::paths::FsPath;
use crate::paths::is_under;
use crate::paths::joined_text;
use crate::paths::rel_of;
use crate::paths::with_created;
use crate::progress::ProgressMessage;
use crate::progress::SyncOutcome;
use crate::sync::SyncOptions;

verus! {

/// Where one worker stands between two events.
#[derive(Debug)]
pub enum WorkerState {
    /// Ready to take the next entry, or the end of the stream.
    Ready,
    /// Waiting for the ancestor directories of `dest_entry` to be created.
    CreatingDirs { source_entry: Entry, dest_entry: Entry, dir: FsPath },
    /// Waiting for the transfer delegate's outcome.
    Transferring { source_entry: Entry, dest_entry: Entry },
    /// Waiting for the permission bits to be copied.
    CopyingPermissions { outcome: SyncOutcome },
    /// Waiting for the progress message to be accepted by the sink.
    Sending,
    /// The stream was closed; the worker ended normally.
    Done,
    /// An unrecoverable error ended the worker.
    Failed(FsError),
}

/// The mathematical value of a worker state.
pub enum StateView {
    Ready,
    CreatingDirs { source_entry: EntryView, dest_entry: EntryView, dir: Seq<Seq<u8>> },
    Transferring { source_entry: EntryView, dest_entry: EntryView },
    CopyingPermissions { outcome: SyncOutcome },
    Sending,
    Done,
    Failed(ErrorView),
}

impl View for WorkerState {
    type V = StateView;

    open spec fn view(&self) -> StateView {
        match self {
            WorkerState::Ready => StateView::Ready,
            WorkerState::CreatingDirs { source_entry, dest_entry, dir } => {
                StateView::CreatingDirs {
                    source_entry: source_entry@,
                    dest_entry: dest_entry@,
                    dir: dir@,
                }
            },
            WorkerState::Transferring { source_entry, dest_entry } => StateView::Transferring {
                source_entry: source_entry@,
                dest_entry: dest_entry@,
            },
            WorkerState::CopyingPermissions { outcome } => StateView::CopyingPermissions {
                outcome: *outcome,
            },
            WorkerState::Sending => StateView::Sending,
            WorkerState::Done => StateView::Done,
            WorkerState::Failed(e) => StateView::Failed(e@),
        }
    }
}

/// One event handed to the worker by its surrounding shell.
#[derive(Debug)]
pub enum Event {
    /// The next entry arrived on the input stream.
    Received(Entry),
    /// The input stream was closed with no pending entry.
    Closed,
    /// Directory creation ended; an error carries the reported reason.
    DirsCreated(Result<(), Vec<u8>>),
    /// The transfer delegate ended with an outcome or an error.
    Transferred(Result<SyncOutcome, FsError>),
    /// Copying the permission bits ended.
    PermissionsCopied(Result<(), FsError>),
    /// The progress message was accepted by the sink.
    Sent,
}

/// The mathematical value of an event.
pub enum EventView {
    Received(EntryView),
    Closed,
    DirsCreated(Result<(), Seq<u8>>),
    Transferred(Result<SyncOutcome, ErrorView>),
    PermissionsCopied(Result<(), ErrorView>),
    Sent,
}

impl View for Event {
    type V = EventView;

    open spec fn view(&self) -> EventView {
        match self {
            Event::Received(e) => EventView::Received(e@),
            Event::Closed => EventView::Closed,
            Event::DirsCreated(r) => EventView::DirsCreated(
                match r {
                    Ok(_) => Ok(()),
                    Err(detail) => Err(detail@),
                },
            ),
            Event::Transferred(r) => EventView::Transferred(
                match r {
                    Ok(outcome) => Ok(*outcome),
                    Err(e) => Err(e@),
                },
            ),
            Event::PermissionsCopied(r) => EventView::PermissionsCopied(
                match r {
                    Ok(_) => Ok(()),
                    Err(e) => Err(e@),
                },
            ),
            Event::Sent => EventView::Sent,
        }
    }
}

/// The next piece of outside work that the shell performs for the worker.
#[derive(Debug)]
pub enum Action {
    /// Block on the input stream for the next entry.
    Receive,
    /// Create the named directory and all its missing ancestors.
    CreateDirs(FsPath),
    /// Let the transfer delegate reconcile `dest` with `source`.
    Transfer { source: Entry, dest: Entry },
    /// Copy `source`'s permission bits onto `dest`.
    CopyPermissions { source: Entry, dest: Entry },
    /// Hand the message to the progress sink.
    SendProgress(ProgressMessage),
    /// Stop the loop and return this result to the caller.
    Stop(Result<(), FsError>),
}

/// The mathematical value of an action.
pub enum ActionView {
    Receive,
    CreateDirs(Seq<Seq<u8>>),
    Transfer { source: EntryView, dest: EntryView },
    CopyPermissions { source: EntryView, dest: EntryView },
    SendProgress(ProgressMessage),
    Stop(Result<(), ErrorView>),
}

impl View for Action {
    type V = ActionView;

    open spec fn view(&self) -> ActionView {
        match self {
            Action::Receive => ActionView::Receive,
            Action::CreateDirs(dir) => ActionView::CreateDirs(dir@),
            Action::Transfer { source, dest } => ActionView::Transfer {
                source: source@,
                dest: dest@,
            },
            Action::CopyPermissions { source, dest } => ActionView::CopyPermissions {
                source: source@,
                dest: dest@,
            },
            Action::SendProgress(m) => ActionView::SendProgress(*m),
            Action::Stop(r) => ActionView::Stop(
                match r {
                    Ok(_) => Ok(()),
                    Err(e) => Err(e@),
                },
            ),
        }
    }
}

/// The mathematical value of a worker: the two roots and the current state.
pub struct WorkerView {
    pub source: Seq<Seq<u8>>,
    pub destination: Seq<Seq<u8>>,
    pub state: StateView,
}

/// Which events a worker in the given state takes. A finished or failed
/// worker takes none: nothing more is received after the stream closed or an
/// error aborted the loop.
pub open spec fn accepts(state: StateView, event: EventView) -> bool {
    match state {
        StateView::Ready => event is Received || event is Closed,
        StateView::CreatingDirs { .. } => event is DirsCreated,
        StateView::Transferring { .. } => event is Transferred,
        StateView::CopyingPermissions { .. } => event is PermissionsCopied,
        StateView::Sending => event is Sent,
        StateView::Done => false,
        StateView::Failed(_) => false,
    }
}

/// Internal consistency of a worker: while an entry is in flight, the stored
/// destination entry lies strictly under the destination root, and the
/// directory being created is its parent.
pub open spec fn state_wf(w: WorkerView) -> bool {
    match w.state {
        StateView::CreatingDirs { source_entry, dest_entry, dir } => {
            &&& dest_entry.path.len() > w.destination.len()
            &&& w.destination.is_prefix_of(dest_entry.path)
            &&& dir == dest_entry.path.drop_last()
        },
        StateView::Transferring { source_entry, dest_entry } => {
            &&& dest_entry.path.len() > w.destination.len()
            &&& w.destination.is_prefix_of(dest_entry.path)
        },
        _ => true,
    }
}

/// The step into the failed state: remember the error and stop with it.
pub open spec fn failed_step(w: WorkerView, e: ErrorView) -> (WorkerView, ActionView) {
    (
        WorkerView { state: StateView::Failed(e), ..w },
        ActionView::Stop(Err(e)),
    )
}

/// One received entry: resolve its path against the source root, reject a
/// path that does not lie under it or that resolves to the root itself, and
/// otherwise ask for the destination's ancestor directories.
pub open spec fn spec_step_entry(w: WorkerView, e: EntryView) -> (WorkerView, ActionView) {
    if !is_under(e.path, w.source) {
        failed_step(w, ErrorView::PathNotUnderRoot { path: e.path, root: w.source })
    } else {
        let rel = rel_of(e.path, w.source);
        if rel.len() == 0 {
            failed_step(w, ErrorView::PathNoParent { path: rel })
        } else {
            let dest_path = w.destination + rel;
            let dir = dest_path.drop_last();
            let dest = EntryView { description: joined_text(rel), path: dest_path };
            (
                WorkerView {
                    state: StateView::CreatingDirs { source_entry: e, dest_entry: dest, dir },
                    ..w
                },
                ActionView::CreateDirs(dir),
            )
        }
    }
}

/// One step of the worker: from the current state and one event to the next
/// state and the next action. Meaningful only when `accepts` holds of state
/// and event.
pub open spec fn spec_step(w: WorkerView, event: EventView, opts: SyncOptions) -> (
    WorkerView,
    ActionView,
) {
    match (w.state, event) {
        (StateView::Ready, EventView::Received(e)) => spec_step_entry(w, e),
        (StateView::Ready, EventView::Closed) => (
            WorkerView { state: StateView::Done, ..w },
            ActionView::Stop(Ok(())),
        ),
        (
            StateView::CreatingDirs { source_entry, dest_entry, dir },
            EventView::DirsCreated(res),
        ) => match res {
            Ok(_) => (
                WorkerView { state: StateView::Transferring { source_entry, dest_entry }, ..w },
                ActionView::Transfer { source: source_entry, dest: dest_entry },
            ),
            Err(detail) => failed_step(w, ErrorView::Io { context: dir, detail }),
        },
        (StateView::Transferring { source_entry, dest_entry }, EventView::Transferred(res)) => match res {
            Ok(outcome) => if opts.preserve_permissions {
                (
                    WorkerView { state: StateView::CopyingPermissions { outcome }, ..w },
                    ActionView::CopyPermissions { source: source_entry, dest: dest_entry },
                )
            } else {
                (
                    WorkerView { state: StateView::Sending, ..w },
                    ActionView::SendProgress(ProgressMessage::DoneSyncing(outcome)),
                )
            },
            Err(e) => failed_step(w, e),
        },
        (StateView::CopyingPermissions { outcome }, EventView::PermissionsCopied(res)) => match res {
            Ok(_) => (
                WorkerView { state: StateView::Sending, ..w },
                ActionView::SendProgress(ProgressMessage::DoneSyncing(outcome)),
            ),
            Err(e) => failed_step(w, e),
        },
        (StateView::Sending, EventView::Sent) => (
            WorkerView { state: StateView::Ready, ..w },
            ActionView::Receive,
        ),
        _ => (w, ActionView::Stop(Ok(()))),
    }
}

/// A step from a well-formed worker leaves a well-formed worker.
pub proof fn lemma_step_preserves_wf(w: WorkerView, event: EventView, opts: SyncOptions)
    requires
        state_wf(w),
        accepts(w.state, event),
    ensures
        state_wf(spec_step(w, event, opts).0),
{
    if w.state is Ready && event is Received {
        let e = event->Received_0;
        if is_under(e.path, w.source) {
            let rel = rel_of(e.path, w.source);
            if rel.len() > 0 {
                assert(w.destination =~= (w.destination + rel).subrange(
                    0,
                    w.destination.len() as int,
                ));
            }
        }
    }
}

/// With `preserve_permissions` off, no step ever asks for permission bits
/// to be copied: the destination's bits are never modified by this core.
pub proof fn lemma_no_permission_copy_without_option(
    w: WorkerView,
    event: EventView,
    opts: SyncOptions,
)
    requires
        !opts.preserve_permissions,
    ensures
        !(spec_step(w, event, opts).1 is CopyPermissions),
{
}

/// With `preserve_permissions` on, a successful transfer is answered by
/// exactly the request to copy the source entry's permission bits onto the
/// destination entry that was transferred.
pub proof fn lemma_permissions_follow_transfer(w: WorkerView, event: EventView, opts: SyncOptions)
    requires
        opts.preserve_permissions,
        w.state is Transferring,
        event matches EventView::Transferred(r) && r is Ok,
    ensures
        spec_step(w, event, opts).1 == (ActionView::CopyPermissions {
            source: w.state->Transferring_source_entry,
            dest: w.state->Transferring_dest_entry,
        }),
        spec_step(w, event, opts).0.state == (StateView::CopyingPermissions {
            outcome: event->Transferred_0->Ok_0,
        }),
{
}

/// With `preserve_permissions` on, the worker reports an entry synced only
/// once the permission copy for it has succeeded: a progress message is
/// emitted only in answer to a successful `PermissionsCopied`, carrying the
/// outcome of that entry's transfer.
pub proof fn lemma_progress_only_after_permissions(
    w: WorkerView,
    event: EventView,
    opts: SyncOptions,
)
    requires
        opts.preserve_permissions,
        accepts(w.state, event),
        spec_step(w, event, opts).1 is SendProgress,
    ensures
        w.state is CopyingPermissions,
        event matches EventView::PermissionsCopied(r) && r is Ok,
        spec_step(w, event, opts).1 == ActionView::SendProgress(
            ProgressMessage::DoneSyncing(w.state->outcome),
        ),
{
}

/// When an entry's path does not lie under the source root, the worker
/// stops with the path error at once: it asks for no directory creation, no
/// transfer and no permission copy, and afterwards accepts no further event.
pub proof fn lemma_resolution_failure_touches_nothing(
    w: WorkerView,
    entry: EntryView,
    opts: SyncOptions,
    later: EventView,
)
    requires
        w.state is Ready,
        !is_under(entry.path, w.source),
    ensures
        spec_step(w, EventView::Received(entry), opts).0.state == StateView::Failed(
            ErrorView::PathNotUnderRoot { path: entry.path, root: w.source },
        ),
        spec_step(w, EventView::Received(entry), opts).1 == ActionView::Stop(
            Err(ErrorView::PathNotUnderRoot { path: entry.path, root: w.source }),
        ),
        !accepts(spec_step(w, EventView::Received(entry), opts).0.state, later),
{
}

/// Fail-fast: the step on which an unrecoverable error surfaces answers
/// `Stop` with that error, and the failed worker accepts no further event —
/// in particular it never again asks to receive, so entries still queued
/// stay unconsumed.
pub proof fn lemma_fail_fast(w: WorkerView, event: EventView, opts: SyncOptions, later: EventView)
    requires
        accepts(w.state, event),
        spec_step(w, event, opts).0.state is Failed,
    ensures
        spec_step(w, event, opts).1 == ActionView::Stop(
            Err(spec_step(w, event, opts).0.state->Failed_0),
        ),
        !accepts(spec_step(w, event, opts).0.state, later),
{
}

/// The worker asks to stop exactly when it has finished or failed, and a
/// finished or failed worker accepts no further event.
pub proof fn lemma_stop_is_final(w: WorkerView, event: EventView, opts: SyncOptions, later: EventView)
    requires
        accepts(w.state, event),
    ensures
        spec_step(w, event, opts).1 is Stop <==> (spec_step(w, event, opts).0.state is Done
            || spec_step(w, event, opts).0.state is Failed),
        spec_step(w, event, opts).0.state is Done ==> !accepts(
            spec_step(w, event, opts).0.state,
            later,
        ),
        spec_step(w, event, opts).0.state is Failed ==> !accepts(
            spec_step(w, event, opts).0.state,
            later,
        ),
{
}

/// A transfer is requested only once the materialization of the destination
/// entry's parent directory has succeeded, and that materialization covers
/// every ancestor directory of the destination path: each one exists,
/// whatever existed before, when the transfer delegate is invoked.
pub proof fn lemma_transfer_follows_materialization(
    w: WorkerView,
    opts: SyncOptions,
    existing: Set<Seq<Seq<u8>>>,
)
    requires
        state_wf(w),
        w.state is CreatingDirs,
    ensures
        spec_step(w, EventView::DirsCreated(Ok(())), opts).1 == (ActionView::Transfer {
            source: w.state->CreatingDirs_source_entry,
            dest: w.state->CreatingDirs_dest_entry,
        }),
        forall|i: int|
            0 <= i < w.state->CreatingDirs_dest_entry.path.len() ==> with_created(
                existing,
                w.state->CreatingDirs_dir,
            ).contains(#[trigger] w.state->CreatingDirs_dest_entry.path.take(i)),
{
    let dir = w.state->CreatingDirs_dir;
    let dest_path = w.state->CreatingDirs_dest_entry.path;
    assert forall|i: int| 0 <= i < dest_path.len() implies with_created(existing, dir).contains(
        #[trigger] dest_path.take(i),
    ) by {
        assert(dest_path.take(i) =~= dir.take(i));
        crate::paths::lemma_ancestors_created(existing, dir, i);
    }
}

/// One synchronization worker: the two root paths and where it stands.
pub struct SyncWorker {
    /// The source root under which every entry's path must lie.
    pub source: FsPath,
    /// The destination root under which the tree is mirrored.
    pub destination: FsPath,
    /// Where the worker stands between two events.
    pub state: WorkerState,
}

impl View for SyncWorker {
    type V = WorkerView;

    open spec fn view(&self) -> WorkerView {
        WorkerView { source: self.source@, destination: self.destination@, state: self.state@ }
    }
}

impl SyncWorker {
    /// Well-formedness of this worker.
    pub open spec fn wf(self) -> bool {
        state_wf(self@)
    }

    /// A worker over the two given roots, ready for its first entry.
    pub fn new(source: FsPath, destination: FsPath) -> (w: SyncWorker)
        ensures
            w@ == (WorkerView { source: source@, destination: destination@, state: StateView::Ready }),
            w.wf(),
    {
        SyncWorker { source, destination, state: WorkerState::Ready }
    }

    /// Whether the worker takes this event in its current state.
    pub fn accepts_event(&self, event: &Event) -> (r: bool)
        ensures
            r == accepts(self@.state, event@),
    {
        match &self.state {
            WorkerState::Ready => match event {
                Event::Received(_) => true,
                Event::Closed => true,
                _ => false,
            },
            WorkerState::CreatingDirs { .. } => matches!(event, Event::DirsCreated(_)),
            WorkerState::Transferring { .. } => matches!(event, Event::Transferred(_)),
            WorkerState::CopyingPermissions { .. } => matches!(event, Event::PermissionsCopied(_)),
            WorkerState::Sending => matches!(event, Event::Sent),
            WorkerState::Done => false,
            WorkerState::Failed(_) => false,
        }
    }

    /// Handles one received entry; see `spec_step_entry`.
    fn step_entry(&self, entry: Entry) -> (r: (WorkerState, Action))
        ensures
            r.0@ == spec_step_entry(self@, entry@).0.state,
            r.1@ == spec_step_entry(self@, entry@).1,
    {
        match crate::paths::resolve_rel_path(&entry.path, &self.source) {
            Err(err) => {
                let err2 = err.clone_err();
                (WorkerState::Failed(err), Action::Stop(Err(err2)))
            },
            Ok(rel) => {
                if rel.components.len() == 0 {
                    let err = FsError::PathNoParent { path: rel };
                    let err2 = err.clone_err();
                    (WorkerState::Failed(err), Action::Stop(Err(err2)))
                } else {
                    let dest_path = self.destination.join(&rel);
                    let dir = dest_path.parent();
                    let dir2 = dir.clone_path();
                    let desc = rel.text();
                    let dest_entry = Entry::new(desc, dest_path);
                    let dest_entry2 = dest_entry.clone_entry();
                    (
                        WorkerState::CreatingDirs {
                            source_entry: entry,
                            dest_entry: dest_entry2,
                            dir,
                        },
                        Action::CreateDirs(dir2),
                    )
                }
            },
        }
    }

    /// One step of the worker: consumes one event, moves to the next state
    /// and answers the next action for the shell to perform. The model of
    /// the step is `spec_step`.
    pub fn step(&mut self, event: Event, opts: SyncOptions) -> (a: Action)
        requires
            old(self).wf(),
            accepts(old(self)@.state, event@),
        ensures
            final(self).wf(),
            final(self)@ == spec_step(old(self)@, event@, opts).0,
            a@ == spec_step(old(self)@, event@, opts).1,
    {
        proof {
            lemma_step_preserves_wf(old(self)@, event@, opts);
        }
        let (new_state, action): (WorkerState, Action) = match &self.state {
            WorkerState::Ready => match event {
                Event::Received(e) => self.step_entry(e),
                Event::Closed => (WorkerState::Done, Action::Stop(Ok(()))),
                _ => {
                    proof {
                        assert(false);
                    }
                    (WorkerState::Done, Action::Stop(Ok(())))
                },
            },
            WorkerState::CreatingDirs { source_entry, dest_entry, dir } => match event {
                Event::DirsCreated(Ok(_)) => (
                    WorkerState::Transferring {
                        source_entry: source_entry.clone_entry(),
                        dest_entry: dest_entry.clone_entry(),
                    },
                    Action::Transfer {
                        source: source_entry.clone_entry(),
                        dest: dest_entry.clone_entry(),
                    },
                ),
                Event::DirsCreated(Err(detail)) => {
                    let err = FsError::Io { context: dir.clone_path(), detail };
                    let err2 = err.clone_err();
                    (WorkerState::Failed(err), Action::Stop(Err(err2)))
                },
                _ => {
                    proof {
                        assert(false);
                    }
                    (WorkerState::Done, Action::Stop(Ok(())))
                },
            },
            WorkerState::Transferring { source_entry, dest_entry } => match event {
                Event::Transferred(Ok(outcome)) => {
                    if opts.preserve_permissions {
                        (
                            WorkerState::CopyingPermissions { outcome },
                            Action::CopyPermissions {
                                source: source_entry.clone_entry(),
                                dest: dest_entry.clone_entry(),
                            },
                        )
                    } else {
                        (
                            WorkerState::Sending,
                            Action::SendProgress(ProgressMessage::DoneSyncing(outcome)),
                        )
                    }
                },
                Event::Transferred(Err(err)) => {
                    let err2 = err.clone_err();
                    (WorkerState::Failed(err), Action::Stop(Err(err2)))
                },
                _ => {
                    proof {
                        assert(false);
                    }
                    (WorkerState::Done, Action::Stop(Ok(())))
                },
            },
            WorkerState::CopyingPermissions { outcome } => match event {
                Event::PermissionsCopied(Ok(_)) => (
                    WorkerState::Sending,
                    Action::SendProgress(ProgressMessage::DoneSyncing(*outcome)),
                ),
                Event::PermissionsCopied(Err(err)) => {
                    let err2 = err.clone_err();
                    (WorkerState::Failed(err), Action::Stop(Err(err2)))
                },
                _ => {
                    proof {
                        assert(false);
                    }
                    (WorkerState::Done, Action::Stop(Ok(())))
                },
            },
            WorkerState::Sending => match event {
                Event::Sent => (WorkerState::Ready, Action::Receive),
                _ => {
                    proof {
                        assert(false);
                    }
                    (WorkerState::Done, Action::Stop(Ok(())))
                },
            },
            WorkerState::Done => {
                proof {
                    assert(false);
                }
                (WorkerState::Done, Action::Stop(Ok(())))
            },
            WorkerState::Failed(_) => {
                proof {
                    assert(false);
                }
                (WorkerState::Done, Action::Stop(Ok(())))
            },
        };
        self.state = new_state;
        action
    }
}

} // verus!
