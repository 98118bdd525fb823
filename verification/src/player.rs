//! The executable playback session: a `Player` whose view is a `Session`
//! and whose every call is one transition of that state machine.
//!
//! The player does no outside work itself. A call returns an `Outcome`; the
//! driver sends its signal, removes its file, performs its request, and
//! hands the answer to `Player::reply`, until no request is left.

use vstd::prelude::*;
use crate::naming::{build_pending_title, build_watch_url, is_library_match, is_remote_id, is_stream_file};
use crate::protocol::{Liveness, Outcome, Reply, Request, Signal, Stage, Status};
use crate::session::{first_match, library_lookup, Session, StreamView, TaskView, POLL_LIMIT};
use crate::session;

verus! {

/// A track on its way to the player.
#[derive(Debug, Clone, PartialEq, Eq)]
pub struct Task {
    pub title: String,
    pub source: String,
    pub stage: Stage,
}

impl View for Task {
    type V = TaskView;

    open spec fn view(&self) -> TaskView {
        TaskView { title: self.title@, source: self.source@, stage: self.stage }
    }
}

/// A download for the driver to run detached: from `url` to `path`, with a
/// watcher on the file if `watch`.
#[derive(Debug, Clone, PartialEq, Eq)]
pub struct Stream {
    pub url: String,
    pub path: String,
    pub watch: bool,
}

impl View for Stream {
    type V = StreamView;

    open spec fn view(&self) -> StreamView {
        StreamView { url: self.url@, path: self.path@, watch: self.watch }
    }
}

/// The playback session.
#[derive(Debug, Clone, PartialEq, Eq)]
pub struct Player {
    /// The identifier of the owned player process.
    pub process: Option<u32>,
    /// The title of the track that plays.
    pub title: Option<String>,
    pub status: Status,
    /// The tracks that wait, each a title and a source, first in first out.
    pub queue: Vec<(String, String)>,
    /// The stream file of the current track, to be reclaimed after it.
    pub pending_temp_file: Option<String>,
    /// The track whose source is being resolved.
    pub task: Option<Task>,
}

impl View for Player {
    type V = Session;

    open spec fn view(&self) -> Session {
        Session {
            process: self.process,
            title: self.title.deep_view(),
            status: self.status@,
            queue: self.queue.deep_view(),
            pending_temp_file: self.pending_temp_file.deep_view(),
            task: match self.task {
                Some(task) => Some(task@),
                None => None,
            },
        }
    }
}

/// What a download gave: the file to play, or the message of its failure.
pub fn resolve_remote(path: String, succeeded: bool, present: bool, diagnostic: &str) -> (r: Result<
    String,
    String,
>)
    ensures
        match r {
            Ok(file) => session::fetched(path@, succeeded, present, diagnostic@) == Ok::<
                Seq<char>,
                Seq<char>,
            >(file@),
            Err(message) => session::fetched(path@, succeeded, present, diagnostic@) == Err::<
                Seq<char>,
                Seq<char>,
            >(message@),
        },
{
    if !succeeded {
        let mut message = String::from_str("download failed: ");
        message.append(diagnostic);
        Err(message)
    } else if !present {
        Err(String::from_str("download failed: file not created"))
    } else {
        Ok(path)
    }
}

/// The reclaimer: hands `path` back for removal if it follows the transient
/// naming convention, and nothing otherwise.
pub fn reclaim(path: String) -> (r: Option<String>)
    ensures
        r.deep_view() == session::reclaimed(path@),
{
    if is_stream_file(path.as_str()) {
        Some(path)
    } else {
        None
    }
}

impl Player {
    /// A session that owns nothing and waits for nothing.
    pub fn new() -> (r: Player)
        ensures
            r@ == Session::fresh(),
            r@.wf(),
    {
        let r = Player {
            process: None,
            title: None,
            status: Status::Stopped,
            queue: Vec::new(),
            pending_temp_file: None,
            task: None,
        };
        assert(r.queue.deep_view() =~= Seq::empty());
        r
    }

    /// Takes the pending stream file out of the session and hands it on if
    /// it may be removed.
    fn take_reclaimable(&mut self) -> (r: Option<String>)
        ensures
            r.deep_view() == old(self)@.reclaimable(),
            final(self)@ == (Session { pending_temp_file: None, ..old(self)@ }),
    {
        match self.pending_temp_file.take() {
            Some(path) => reclaim(path),
            None => None,
        }
    }

    fn begin(&mut self, title: String, source: String) -> (outcome: Outcome)
        ensures
            (final(self)@, outcome@) == old(self)@.begin(title@, source@),
    {
        let remove = self.take_reclaimable();
        let request = Request::Probe { path: source.clone() };
        self.process = None;
        self.title = None;
        self.status = Status::Stopped;
        self.task = Some(Task { title, source, stage: Stage::Probing });
        Outcome { signal: None, remove, request }
    }

    fn advance(&mut self) -> (outcome: Outcome)
        requires
            old(self).queue.len() > 0,
        ensures
            (final(self)@, outcome@) == old(self)@.advance(),
    {
        let (title, source) = self.queue.remove(0);
        assert(self.queue.deep_view() =~= old(self).queue.deep_view().drop_first());
        self.begin(title, source)
    }

    fn fail(&mut self, message: String) -> (outcome: Outcome)
        ensures
            (final(self)@, outcome@) == old(self)@.fail(message@),
    {
        self.status = Status::Error(message);
        self.task = None;
        Outcome::nothing()
    }

    fn launch(&mut self, task: Task, path: String, transient: bool) -> (outcome: Outcome)
        ensures
            (final(self)@, outcome@) == old(self)@.launch(task@, path@, transient),
    {
        if transient && is_stream_file(path.as_str()) {
            self.pending_temp_file = Some(path.clone());
        } else {
            self.pending_temp_file = None;
        }
        self.task = Some(Task { title: task.title, source: task.source, stage: Stage::Starting });
        Outcome::asking(Request::Launch { path })
    }

    /// Plays `source` under `title`. While a track plays or is on its way,
    /// the request is queued and nothing else happens. Otherwise the
    /// outgoing stream file is handed out for removal and the resolution of
    /// `source` begins: the outcome asks whether it is a playable file.
    pub fn play(&mut self, source: &str, title: &str) -> (outcome: Outcome)
        ensures
            (final(self)@, outcome@) == old(self)@.play(source@, title@),
            old(self)@.wf() ==> final(self)@.wf(),
    {
        if self.process.is_some() || self.task.is_some() {
            self.queue.push((String::from_str(title), String::from_str(source)));
            assert(self.queue.deep_view() =~= old(self).queue.deep_view().push((title@, source@)));
            Outcome::nothing()
        } else {
            self.begin(String::from_str(title), String::from_str(source))
        }
    }

    /// Puts `source` in line under `title`: the same as `play`, which starts
    /// at once what need not wait.
    pub fn enqueue(&mut self, source: &str, title: &str) -> (outcome: Outcome)
        ensures
            (final(self)@, outcome@) == old(self)@.play(source@, title@),
            old(self)@.wf() ==> final(self)@.wf(),
    {
        self.play(source, title)
    }

    /// Queues the catalog entry `id` under the pending title of `title`,
    /// with the stream file `path` as its source, and hands out the download
    /// for the driver to run detached.
    pub fn resolve_remote_async(&mut self, title: &str, id: &str, path: &str) -> (stream: Stream)
        ensures
            (final(self)@, stream@) == old(self)@.resolve_remote_async(title@, id@, path@),
            old(self)@.wf() ==> final(self)@.wf(),
    {
        let shown = build_pending_title(title);
        self.queue.push((shown, String::from_str(path)));
        assert(self.queue.deep_view() =~= old(self).queue.deep_view().push(
            (crate::naming::pending_title(title@), path@),
        ));
        Stream { url: build_watch_url(id), path: String::from_str(path), watch: self.process.is_none() }
    }

    /// Suspends the owned process; nothing without one.
    pub fn pause(&mut self) -> (outcome: Outcome)
        ensures
            (final(self)@, outcome@) == old(self)@.pause(),
            old(self)@.wf() ==> final(self)@.wf(),
    {
        match self.process {
            Some(id) => {
                self.status = Status::Paused;
                Outcome { signal: Some(Signal::Suspend(id)), remove: None, request: Request::Nothing }
            },
            None => Outcome::nothing(),
        }
    }

    /// Lets the owned process continue; nothing without one.
    pub fn resume(&mut self) -> (outcome: Outcome)
        ensures
            (final(self)@, outcome@) == old(self)@.resume(),
            old(self)@.wf() ==> final(self)@.wf(),
    {
        match self.process {
            Some(id) => {
                self.status = Status::Playing;
                Outcome { signal: Some(Signal::Continue(id)), remove: None, request: Request::Nothing }
            },
            None => Outcome::nothing(),
        }
    }

    /// Pauses while playing and resumes while paused.
    pub fn toggle(&mut self) -> (outcome: Outcome)
        ensures
            (final(self)@, outcome@) == old(self)@.toggle(),
            old(self)@.wf() ==> final(self)@.wf(),
    {
        match self.status {
            Status::Playing => self.pause(),
            Status::Paused => self.resume(),
            _ => Outcome::nothing(),
        }
    }

    /// Terminates the owned process, if any, and gives up a resolution under
    /// way. The queue stays as it is.
    pub fn stop(&mut self) -> (outcome: Outcome)
        ensures
            (final(self)@, outcome@) == old(self)@.stop(),
            old(self)@.wf() ==> final(self)@.wf(),
    {
        let signal = match self.process {
            Some(id) => Some(Signal::Kill(id)),
            None => None,
        };
        self.process = None;
        self.title = None;
        self.status = Status::Stopped;
        self.task = None;
        Outcome { signal, remove: None, request: Request::Nothing }
    }

    /// Stops, and goes on with the head of the queue if there is one.
    pub fn skip(&mut self) -> (outcome: Outcome)
        ensures
            (final(self)@, outcome@) == old(self)@.skip(),
            old(self)@.wf() ==> final(self)@.wf(),
    {
        let killed = self.stop();
        if self.queue.len() > 0 {
            let outcome = self.advance();
            Outcome { signal: killed.signal, remove: outcome.remove, request: outcome.request }
        } else {
            killed
        }
    }

    /// Stops, and forgets the queue.
    pub fn quit(&mut self) -> (outcome: Outcome)
        ensures
            (final(self)@, outcome@) == old(self)@.quit(),
            old(self)@.wf() ==> final(self)@.wf(),
    {
        let killed = self.stop();
        self.queue.clear();
        assert(self.queue.deep_view() =~= Seq::empty());
        killed
    }

    /// One tick, with what the driver found of the owned process (any value
    /// will do while none is owned). Reports whether the process still runs
    /// or the next track was taken from the queue.
    pub fn is_playing(&mut self, liveness: Liveness) -> (r: (bool, Outcome))
        ensures
            (final(self)@, r.1@) == old(self)@.poll(liveness),
            r.0 == old(self)@.poll_reports(liveness),
            old(self)@.wf() ==> final(self)@.wf(),
    {
        if self.process.is_none() {
            return (false, Outcome::nothing());
        }
        match liveness {
            Liveness::Running => (true, Outcome::nothing()),
            Liveness::Unknown => (false, Outcome::nothing()),
            Liveness::Exited => {
                let remove = self.take_reclaimable();
                self.process = None;
                self.title = None;
                self.status = Status::Stopped;
                if self.queue.len() > 0 {
                    let outcome = self.advance();
                    (true, Outcome { signal: outcome.signal, remove, request: outcome.request })
                } else {
                    (false, Outcome { signal: None, remove, request: Request::Nothing })
                }
            },
        }
    }

    /// The answer to the question whether the source of `task` is a
    /// playable file.
    fn probed(&mut self, task: Task, found: bool) -> (outcome: Outcome)
        ensures
            (final(self)@, outcome@) == old(self)@.probed(task@, found),
    {
        if found {
            let path = task.source.clone();
            self.launch(task, path, true)
        } else if is_remote_id(task.source.as_str()) {
            let url = build_watch_url(task.source.as_str());
            self.status = Status::Downloading;
            self.task = Some(Task { title: task.title, source: task.source, stage: Stage::Fetching });
            Outcome::asking(Request::Fetch { url })
        } else if is_stream_file(task.source.as_str()) {
            let path = task.source.clone();
            self.status = Status::Downloading;
            self.task = Some(
                Task { title: task.title, source: task.source, stage: Stage::Awaiting(POLL_LIMIT) },
            );
            Outcome::asking(Request::Await { path })
        } else {
            self.fail(String::from_str("invalid source"))
        }
    }

    /// The answer to one more look for the stream file of `task`.
    fn awaited(&mut self, task: Task, left: u32, found: bool) -> (outcome: Outcome)
        ensures
            (final(self)@, outcome@) == old(self)@.awaited(task@, left, found),
    {
        let path = task.source.clone();
        if found {
            self.launch(task, path, true)
        } else if left > 1 {
            self.status = Status::Downloading;
            self.task = Some(
                Task { title: task.title, source: task.source, stage: Stage::Awaiting(left - 1) },
            );
            Outcome::asking(Request::Await { path })
        } else {
            self.status = Status::Downloading;
            self.task = Some(Task { title: task.title, source: task.source, stage: Stage::Searching });
            Outcome::asking(Request::List)
        }
    }

    /// Takes the driver's reply to the open request and says what is to be
    /// done next. A reply that answers no open request changes nothing; a
    /// process that was not asked for is handed back to be terminated.
    pub fn reply(&mut self, reply: Reply) -> (outcome: Outcome)
        ensures
            (final(self)@, outcome@) == old(self)@.reply(reply@),
            old(self)@.wf() ==> final(self)@.wf(),
    {
        match self.task.take() {
            None => match reply {
                Reply::Launched(Some(id)) => Outcome {
                    signal: Some(Signal::Kill(id)),
                    remove: None,
                    request: Request::Nothing,
                },
                _ => Outcome::nothing(),
            },
            Some(task) => match (task.stage, reply) {
                (Stage::Probing, Reply::Present(found)) => self.probed(task, found),
                (Stage::Awaiting(left), Reply::Present(found)) => self.awaited(task, left, found),
                (Stage::Fetching, Reply::Fetched { path, succeeded, present, diagnostic }) => {
                    match resolve_remote(path, succeeded, present, diagnostic.as_str()) {
                        Ok(file) => self.launch(task, file, true),
                        Err(message) => self.fail(message),
                    }
                },
                (Stage::Searching, Reply::Listing(entries)) => {
                    match self.find_library_file(task.title.as_str(), &entries) {
                        Some(file) => self.launch(task, file, false),
                        None => self.fail(String::from_str("download timed out")),
                    }
                },
                (Stage::Starting, Reply::Launched(Some(id))) => {
                    self.process = Some(id);
                    self.title = Some(task.title);
                    self.status = Status::Playing;
                    Outcome::nothing()
                },
                (Stage::Starting, Reply::Launched(None)) => self.fail(
                    String::from_str("player did not start"),
                ),
                (_, Reply::Launched(Some(id))) => {
                    self.task = Some(task);
                    Outcome { signal: Some(Signal::Kill(id)), remove: None, request: Request::Nothing }
                },
                _ => {
                    self.task = Some(task);
                    Outcome::nothing()
                },
            },
        }
    }

    /// The path of the first of `entries`, each a file name and its path,
    /// whose name is that of a library file kept for `title`.
    pub fn find_library_file(&self, title: &str, entries: &Vec<(String, String)>) -> (r: Option<
        String,
    >)
        ensures
            r.deep_view() == library_lookup(entries.deep_view(), title@),
    {
        let mut i: usize = 0;
        while i < entries.len()
            invariant
                i <= entries.len(),
                first_match(entries.deep_view(), title@, 0) == first_match(
                    entries.deep_view(),
                    title@,
                    i as int,
                ),
            decreases entries.len() - i,
        {
            if is_library_match(entries[i].0.as_str(), title) {
                return Some(entries[i].1.clone());
            }
            i += 1;
        }
        None
    }
}

} // verus!
