//! The playback session as a mathematical state machine.
//!
//! A `Session` is the view of a `Player`. Each call on the player is one
//! transition here: a function from the state and the call's arguments to the
//! next state and what is left for the driver to do. The session owns at most
//! one player process; a source is resolved to a playable file step by step,
//! each step waiting for one reply.

use vstd::prelude::*;
use crate::naming::{library_match, pending_title, remote_id, stream_file, watch_url};
use crate::protocol::{Liveness, OutcomeView, ReplyView, RequestView, Signal, Stage, StatusView};

verus! {

/// How often a stream file that is not there yet is looked for again before
/// the library is searched in its place: once per polling interval.
pub const POLL_LIMIT: u32 = 120;

/// The message of a source that is neither a file, nor a catalog identifier,
/// nor the name of a stream file.
pub open spec fn invalid_source() -> Seq<char> {
    "invalid source"@
}

/// The message of a stream file that never appeared and has no stand-in in
/// the library.
pub open spec fn timed_out() -> Seq<char> {
    "download timed out"@
}

/// The message of a downloader that exited with failure, saying `diagnostic`.
pub open spec fn download_failed(diagnostic: Seq<char>) -> Seq<char> {
    "download failed: "@ + diagnostic
}

/// The message of a downloader that exited with success and left no file.
pub open spec fn not_created() -> Seq<char> {
    "download failed: file not created"@
}

/// The message of a player process that could not be started.
pub open spec fn not_started() -> Seq<char> {
    "player did not start"@
}

/// The index of the first entry at or after `from` whose name is a library
/// file kept for `title`; `entries.len()` if there is none.
pub open spec fn first_match(
    entries: Seq<(Seq<char>, Seq<char>)>,
    title: Seq<char>,
    from: int,
) -> int
    decreases entries.len() - from,
{
    if from < 0 || from >= entries.len() {
        entries.len() as int
    } else if library_match(entries[from].0, title) {
        from
    } else {
        first_match(entries, title, from + 1)
    }
}

/// The path of the first entry whose name is a library file kept for
/// `title`.
pub open spec fn library_lookup(entries: Seq<(Seq<char>, Seq<char>)>, title: Seq<char>) -> Option<
    Seq<char>,
> {
    let i = first_match(entries, title, 0);
    if i < entries.len() {
        Some(entries[i].1)
    } else {
        None
    }
}

/// `first_match` lies between `from` and the end, names a match when it is
/// not the end, and passes no match on its way.
pub proof fn lemma_first_match(entries: Seq<(Seq<char>, Seq<char>)>, title: Seq<char>, from: int)
    requires
        0 <= from <= entries.len(),
    ensures
        from <= first_match(entries, title, from) <= entries.len(),
        first_match(entries, title, from) < entries.len() ==> library_match(
            entries[first_match(entries, title, from)].0,
            title,
        ),
        forall|k: int|
            from <= k < first_match(entries, title, from) ==> !library_match(
                (#[trigger] entries[k]).0,
                title,
            ),
    decreases entries.len() - from,
{
    if from < entries.len() && !library_match(entries[from].0, title) {
        lemma_first_match(entries, title, from + 1);
    }
}

/// The lookup finds the first match: the path it gives is that of an entry
/// whose name matches, before which no name matches; it gives none only if
/// no name matches at all.
pub proof fn law_lookup_finds_first(entries: Seq<(Seq<char>, Seq<char>)>, title: Seq<char>)
    ensures
        match library_lookup(entries, title) {
            Some(path) => exists|i: int|
                {
                    &&& 0 <= i < entries.len()
                    &&& library_match(#[trigger] entries[i].0, title)
                    &&& entries[i].1 == path
                    &&& forall|j: int| 0 <= j < i ==> !library_match((#[trigger] entries[j]).0, title)
                },
            None => forall|i: int|
                0 <= i < entries.len() ==> !library_match((#[trigger] entries[i]).0, title),
        },
{
    lemma_first_match(entries, title, 0);
}

/// What a download gave: the file to play, or the message of its failure.
/// It succeeded only if the downloader exited with success and the file is
/// there with nonzero length.
pub open spec fn fetched(path: Seq<char>, succeeded: bool, present: bool, diagnostic: Seq<char>)
    -> Result<Seq<char>, Seq<char>> {
    if !succeeded {
        Err(download_failed(diagnostic))
    } else if !present {
        Err(not_created())
    } else {
        Ok(path)
    }
}

/// What the reclaimer removes when it is handed `path`: the file itself if
/// it follows the transient naming convention, and nothing otherwise. Files
/// of the library and any other files are never removed.
pub open spec fn reclaimed(path: Seq<char>) -> Option<Seq<char>> {
    if stream_file(path) {
        Some(path)
    } else {
        None
    }
}

/// The signal that terminates `process`, if there is one.
pub open spec fn kill_of(process: Option<u32>) -> Option<Signal> {
    match process {
        Some(id) => Some(Signal::Kill(id)),
        None => None,
    }
}

/// A track on its way to the player.
pub struct TaskView {
    pub title: Seq<char>,
    pub source: Seq<char>,
    pub stage: Stage,
}

/// A detached download, as the view of a `Stream`.
pub struct StreamView {
    pub url: Seq<char>,
    pub path: Seq<char>,
    pub watch: bool,
}

/// One call on the session, with its arguments.
pub enum Call {
    Play { source: Seq<char>, title: Seq<char> },
    Enqueue { source: Seq<char>, title: Seq<char> },
    ResolveRemoteAsync { title: Seq<char>, id: Seq<char>, path: Seq<char> },
    Pause,
    Resume,
    Toggle,
    Stop,
    Skip,
    Quit,
    Poll(Liveness),
    Reply(ReplyView),
}

/// The state of the playback session.
pub struct Session {
    /// The identifier of the owned player process.
    pub process: Option<u32>,
    /// The title of the track that plays.
    pub title: Option<Seq<char>>,
    pub status: StatusView,
    /// The tracks that wait, each a title and a source, first in first out.
    pub queue: Seq<(Seq<char>, Seq<char>)>,
    /// The stream file of the current track, to be reclaimed after it.
    pub pending_temp_file: Option<Seq<char>>,
    /// The track whose source is being resolved.
    pub task: Option<TaskView>,
}

impl Session {
    /// The session before anything was played.
    pub open spec fn fresh() -> Session {
        Session {
            process: None,
            title: None,
            status: StatusView::Stopped,
            queue: Seq::empty(),
            pending_temp_file: None,
            task: None,
        }
    }

    /// A track plays or is on its way to the player.
    pub open spec fn busy(self) -> bool {
        self.process is Some || self.task is Some
    }

    /// The invariant of the session. A process is owned only while playing or
    /// paused, and then no other track is on its way; without a process the
    /// status is one of stopped, downloading and error. The title is that of
    /// the owned process. Only a stream file is ever pending. The status
    /// follows the stage of the resolution.
    pub open spec fn wf(self) -> bool {
        &&& self.process is Some ==> {
            &&& self.status is Playing || self.status is Paused
            &&& self.task is None
        }
        &&& self.process is None ==> {
            ||| self.status is Stopped
            ||| self.status is Downloading
            ||| self.status is Error
        }
        &&& self.title is Some <==> self.process is Some
        &&& self.pending_temp_file matches Some(path) ==> stream_file(path)
        &&& self.status is Downloading ==> self.task is Some
        &&& self.task matches Some(task) ==> match task.stage {
            Stage::Probing => self.status is Stopped,
            Stage::Fetching => self.status is Downloading,
            Stage::Awaiting(left) => self.status is Downloading && 1 <= left <= POLL_LIMIT,
            Stage::Searching => self.status is Downloading,
            Stage::Starting => self.status is Stopped || self.status is Downloading,
        }
    }

    /// What the reclaimer removes of the pending stream file.
    pub open spec fn reclaimable(self) -> Option<Seq<char>> {
        match self.pending_temp_file {
            Some(path) => reclaimed(path),
            None => None,
        }
    }

    /// The session unchanged, with nothing to do.
    pub open spec fn quiet(self) -> (Session, OutcomeView) {
        (self, OutcomeView::nothing())
    }

    /// The resolution ends in an error: no track is on its way any more.
    pub open spec fn fail(self, message: Seq<char>) -> (Session, OutcomeView) {
        (Session { status: StatusView::Error(message), task: None, ..self }, OutcomeView::nothing())
    }

    /// The source of `task` is resolved to `path`: the player is asked for.
    /// A path of a stream file is recorded for reclaiming if `transient`.
    pub open spec fn launch(self, task: TaskView, path: Seq<char>, transient: bool) -> (
        Session,
        OutcomeView,
    ) {
        (
            Session {
                pending_temp_file: if transient && stream_file(path) {
                    Some(path)
                } else {
                    None
                },
                task: Some(TaskView { stage: Stage::Starting, ..task }),
                ..self
            },
            OutcomeView::asking(RequestView::Launch { path }),
        )
    }

    /// The outgoing stream file is reclaimed, and the resolution of `source`
    /// begins with the question whether it is a playable file.
    pub open spec fn begin(self, title: Seq<char>, source: Seq<char>) -> (Session, OutcomeView) {
        (
            Session {
                process: None,
                title: None,
                status: StatusView::Stopped,
                queue: self.queue,
                pending_temp_file: None,
                task: Some(TaskView { title, source, stage: Stage::Probing }),
            },
            OutcomeView {
                signal: None,
                remove: self.reclaimable(),
                request: RequestView::Probe { path: source },
            },
        )
    }

    /// The head of the queue leaves it and its resolution begins.
    pub open spec fn advance(self) -> (Session, OutcomeView)
        recommends
            self.queue.len() > 0,
    {
        Session { queue: self.queue.drop_first(), ..self }.begin(self.queue[0].0, self.queue[0].1)
    }

    /// A request to play: queued behind what plays or is on its way, else
    /// begun at once.
    pub open spec fn play(self, source: Seq<char>, title: Seq<char>) -> (Session, OutcomeView) {
        if self.busy() {
            (Session { queue: self.queue.push((title, source)), ..self }, OutcomeView::nothing())
        } else {
            self.begin(title, source)
        }
    }

    /// A catalog entry whose download runs detached: queued under its pending
    /// title with the stream file as its source. A watcher is wanted if no
    /// process is owned.
    pub open spec fn resolve_remote_async(self, title: Seq<char>, id: Seq<char>, path: Seq<char>) -> (
        Session,
        StreamView,
    ) {
        (
            Session { queue: self.queue.push((pending_title(title), path)), ..self },
            StreamView { url: watch_url(id), path, watch: self.process is None },
        )
    }

    /// The owned process is suspended.
    pub open spec fn pause(self) -> (Session, OutcomeView) {
        match self.process {
            Some(id) => (
                Session { status: StatusView::Paused, ..self },
                OutcomeView {
                    signal: Some(Signal::Suspend(id)),
                    remove: None,
                    request: RequestView::Nothing,
                },
            ),
            None => self.quiet(),
        }
    }

    /// The owned process continues.
    pub open spec fn resume(self) -> (Session, OutcomeView) {
        match self.process {
            Some(id) => (
                Session { status: StatusView::Playing, ..self },
                OutcomeView {
                    signal: Some(Signal::Continue(id)),
                    remove: None,
                    request: RequestView::Nothing,
                },
            ),
            None => self.quiet(),
        }
    }

    /// Pause while playing, resume while paused, else nothing.
    pub open spec fn toggle(self) -> (Session, OutcomeView) {
        if self.status is Playing {
            self.pause()
        } else if self.status is Paused {
            self.resume()
        } else {
            self.quiet()
        }
    }

    /// The owned process is terminated and a resolution under way is given
    /// up. The queue and the pending stream file stay.
    pub open spec fn stop(self) -> (Session, OutcomeView) {
        (
            Session {
                process: None,
                title: None,
                status: StatusView::Stopped,
                task: None,
                ..self
            },
            OutcomeView { signal: kill_of(self.process), remove: None, request: RequestView::Nothing },
        )
    }

    /// Stop, and go on with the head of the queue if there is one.
    pub open spec fn skip(self) -> (Session, OutcomeView) {
        let (stopped, killed) = self.stop();
        if stopped.queue.len() > 0 {
            let (next, outcome) = stopped.advance();
            (next, OutcomeView { signal: killed.signal, ..outcome })
        } else {
            (stopped, killed)
        }
    }

    /// Stop, and forget the queue.
    pub open spec fn quit(self) -> (Session, OutcomeView) {
        let (stopped, killed) = self.stop();
        (Session { queue: Seq::empty(), ..stopped }, killed)
    }

    /// One tick. Without a process, or with one that runs or could not be
    /// asked, nothing changes. After its exit the process is let go, the
    /// pending stream file is reclaimed, and the head of the queue follows.
    pub open spec fn poll(self, liveness: Liveness) -> (Session, OutcomeView) {
        if self.process is Some && liveness is Exited {
            let ended = Session {
                process: None,
                title: None,
                status: StatusView::Stopped,
                pending_temp_file: None,
                ..self
            };
            let remove = self.reclaimable();
            if ended.queue.len() > 0 {
                let (next, outcome) = ended.advance();
                (next, OutcomeView { remove, ..outcome })
            } else {
                (ended, OutcomeView { signal: None, remove, request: RequestView::Nothing })
            }
        } else {
            self.quiet()
        }
    }

    /// What one tick reports: that the process still runs, or that the next
    /// track was taken from the queue.
    pub open spec fn poll_reports(self, liveness: Liveness) -> bool {
        self.process is Some && (liveness is Running || (liveness is Exited && self.queue.len() > 0))
    }

    /// The answer to the question whether the source itself is a playable
    /// file. If it is, it is played. If not, a catalog identifier is
    /// downloaded, a stream file is waited for, and anything else is an
    /// invalid source.
    pub open spec fn probed(self, task: TaskView, found: bool) -> (Session, OutcomeView) {
        if found {
            self.launch(task, task.source, true)
        } else if remote_id(task.source) {
            (
                Session {
                    status: StatusView::Downloading,
                    task: Some(TaskView { stage: Stage::Fetching, ..task }),
                    ..self
                },
                OutcomeView::asking(RequestView::Fetch { url: watch_url(task.source) }),
            )
        } else if stream_file(task.source) {
            (
                Session {
                    status: StatusView::Downloading,
                    task: Some(TaskView { stage: Stage::Awaiting(POLL_LIMIT), ..task }),
                    ..self
                },
                OutcomeView::asking(RequestView::Await { path: task.source }),
            )
        } else {
            self.fail(invalid_source())
        }
    }

    /// The answer to one more look for the stream file, with `left` looks
    /// left before this one. Found, it is played; else it is looked for
    /// again, and after the last look the library is searched.
    pub open spec fn awaited(self, task: TaskView, left: u32, found: bool) -> (
        Session,
        OutcomeView,
    ) {
        if found {
            self.launch(task, task.source, true)
        } else if left > 1 {
            (
                Session {
                    status: StatusView::Downloading,
                    task: Some(TaskView { stage: Stage::Awaiting((left - 1) as u32), ..task }),
                    ..self
                },
                OutcomeView::asking(RequestView::Await { path: task.source }),
            )
        } else {
            (
                Session {
                    status: StatusView::Downloading,
                    task: Some(TaskView { stage: Stage::Searching, ..task }),
                    ..self
                },
                OutcomeView::asking(RequestView::List),
            )
        }
    }

    /// The driver's reply to the request that is open. A reply that answers
    /// no open request changes nothing; a process that was not asked for is
    /// terminated at once.
    pub open spec fn reply(self, reply: ReplyView) -> (Session, OutcomeView) {
        match self.task {
            Some(task) => match (task.stage, reply) {
                (Stage::Probing, ReplyView::Present(found)) => self.probed(task, found),
                (Stage::Awaiting(left), ReplyView::Present(found)) => self.awaited(
                    task,
                    left,
                    found,
                ),
                (Stage::Fetching, ReplyView::Fetched { path, succeeded, present, diagnostic }) => {
                    match fetched(path, succeeded, present, diagnostic) {
                        Ok(file) => self.launch(task, file, true),
                        Err(message) => self.fail(message),
                    }
                },
                (Stage::Searching, ReplyView::Listing(entries)) => {
                    match library_lookup(entries, task.title) {
                        Some(file) => self.launch(task, file, false),
                        None => self.fail(timed_out()),
                    }
                },
                (Stage::Starting, ReplyView::Launched(Some(id))) => (
                    Session {
                        process: Some(id),
                        title: Some(task.title),
                        status: StatusView::Playing,
                        task: None,
                        ..self
                    },
                    OutcomeView::nothing(),
                ),
                (Stage::Starting, ReplyView::Launched(None)) => self.fail(not_started()),
                (_, ReplyView::Launched(Some(id))) => self.unasked(id),
                _ => self.quiet(),
            },
            None => match reply {
                ReplyView::Launched(Some(id)) => self.unasked(id),
                _ => self.quiet(),
            },
        }
    }

    /// The transition of `call`: the next state and what is left to do.
    pub open spec fn step(self, call: Call) -> (Session, OutcomeView) {
        match call {
            Call::Play { source, title } => self.play(source, title),
            Call::Enqueue { source, title } => self.play(source, title),
            Call::ResolveRemoteAsync { title, id, path } => (
                self.resolve_remote_async(title, id, path).0,
                OutcomeView::nothing(),
            ),
            Call::Pause => self.pause(),
            Call::Resume => self.resume(),
            Call::Toggle => self.toggle(),
            Call::Stop => self.stop(),
            Call::Skip => self.skip(),
            Call::Quit => self.quit(),
            Call::Poll(liveness) => self.poll(liveness),
            Call::Reply(reply) => self.reply(reply),
        }
    }

    /// The state after the calls of `calls`, one after the other.
    pub open spec fn run(self, calls: Seq<Call>) -> Session
        decreases calls.len(),
    {
        if calls.len() == 0 {
            self
        } else {
            self.run(calls.drop_last()).step(calls.last()).0
        }
    }

    /// A process that was not asked for: the session stays as it is and the
    /// process is terminated.
    pub open spec fn unasked(self, id: u32) -> (Session, OutcomeView) {
        (
            self,
            OutcomeView { signal: Some(Signal::Kill(id)), remove: None, request: RequestView::Nothing },
        )
    }
}

} // verus!
