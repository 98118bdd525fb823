//! What holds of the session whatever is asked of it: the laws of the state
//! machine, proved over its transitions.

use vstd::prelude::*;
use crate::naming::{pending_title, stream_file};
use crate::protocol::{Liveness, OutcomeView, ReplyView, RequestView, Signal, Stage, StatusView};
use crate::session::{fetched, Call, Session, TaskView};

verus! {

/// Every transition keeps the invariant of the session.
pub proof fn law_step_keeps_invariant(s: Session, call: Call)
    requires
        s.wf(),
    ensures
        s.step(call).0.wf(),
{
}

/// The invariant of the session holds after any calls, if it held before
/// them.
pub proof fn law_run_keeps_invariant(s: Session, calls: Seq<Call>)
    requires
        s.wf(),
    ensures
        s.run(calls).wf(),
    decreases calls.len(),
{
    if calls.len() > 0 {
        law_run_keeps_invariant(s, calls.drop_last());
        law_step_keeps_invariant(s.run(calls.drop_last()), calls.last());
    }
}

/// A session that began fresh satisfies its invariant after any calls.
pub proof fn law_invariant_always(calls: Seq<Call>)
    ensures
        Session::fresh().run(calls).wf(),
{
    law_run_keeps_invariant(Session::fresh(), calls);
}

/// The session and the player processes that are alive: those that the
/// driver has started and that have neither exited nor been terminated.
pub struct World {
    pub session: Session,
    pub live: Set<u32>,
}

impl World {
    /// The processes that the session owns: one or none.
    pub open spec fn owned(self) -> Set<u32> {
        match self.session.process {
            Some(id) => set![id],
            None => Set::empty(),
        }
    }

    /// The processes alive are exactly those that the session owns.
    pub open spec fn consistent(self) -> bool {
        self.session.wf() && self.live == self.owned()
    }

    /// A process reported as started is a new one: no process alive has its
    /// identifier.
    pub open spec fn truthful(self, call: Call) -> bool {
        match call {
            Call::Reply(ReplyView::Launched(Some(id))) => !self.live.contains(id),
            _ => true,
        }
    }

    /// The world after `call`: a process reported as started is alive, the
    /// owned process reported as exited is not, and neither is one that the
    /// outcome terminates.
    pub open spec fn step(self, call: Call) -> World {
        let (session, outcome) = self.session.step(call);
        let started = match call {
            Call::Reply(ReplyView::Launched(Some(id))) => self.live.insert(id),
            _ => self.live,
        };
        let exited = match (call, self.session.process) {
            (Call::Poll(Liveness::Exited), Some(id)) => started.remove(id),
            _ => started,
        };
        let killed = match outcome.signal {
            Some(Signal::Kill(id)) => exited.remove(id),
            _ => exited,
        };
        World { session, live: killed }
    }

    /// Every call of `calls` is truthful in the world in which it is made.
    pub open spec fn truthful_run(self, calls: Seq<Call>) -> bool
        decreases calls.len(),
    {
        calls.len() > 0 ==> {
            &&& self.truthful_run(calls.drop_last())
            &&& self.run(calls.drop_last()).truthful(calls.last())
        }
    }

    /// The world after the calls of `calls`, one after the other.
    pub open spec fn run(self, calls: Seq<Call>) -> World
        decreases calls.len(),
    {
        if calls.len() == 0 {
            self
        } else {
            self.run(calls.drop_last()).step(calls.last())
        }
    }
}

/// The session never owns a second process: after any call, the processes
/// alive are still exactly those that the session owns, so at most one. A
/// process that the session lets go of without its having exited is
/// terminated, and so is a started process that the session does not adopt.
pub proof fn law_one_process_step(w: World, call: Call)
    requires
        w.consistent(),
        w.truthful(call),
    ensures
        w.step(call).consistent(),
        w.step(call).live.len() <= 1,
{
    law_step_keeps_invariant(w.session, call);
    assert(w.step(call).live =~= w.step(call).owned());
}

/// At most one process is alive at any time, whatever calls are made.
pub proof fn law_one_process(w: World, calls: Seq<Call>)
    requires
        w.consistent(),
        w.truthful_run(calls),
    ensures
        w.run(calls).consistent(),
        w.run(calls).live.len() <= 1,
    decreases calls.len(),
{
    if calls.len() > 0 {
        law_one_process(w, calls.drop_last());
        law_one_process_step(w.run(calls.drop_last()), calls.last());
    }
}

/// The player is asked for only while no process is owned, and a process is
/// adopted only in answer to that request.
pub proof fn law_launch_only_when_free(s: Session, call: Call)
    requires
        s.wf(),
    ensures
        s.step(call).1.request is Launch ==> s.step(call).0.process is None,
        s.step(call).0.process is Some && s.step(call).0.process != s.process ==> {
            &&& s.process is None
            &&& s.task matches Some(task) && task.stage is Starting
            &&& call == Call::Reply(ReplyView::Launched(s.step(call).0.process))
        },
{
}

/// To enqueue is to play. With nothing playing and nothing on its way the
/// track is not queued: its resolution begins at once, and if its source is a
/// playable file the player is asked for in the next step.
pub proof fn law_enqueue_idle_plays(s: Session, source: Seq<char>, title: Seq<char>)
    ensures
        s.step(Call::Enqueue { source, title }) == s.step(Call::Play { source, title }),
        !s.busy() ==> {
            let (next, outcome) = s.step(Call::Enqueue { source, title });
            &&& next.queue == s.queue
            &&& next.task == Some(TaskView { title, source, stage: Stage::Probing })
            &&& outcome.request == RequestView::Probe { path: source }
            &&& next.reply(ReplyView::Present(true)).1.request == RequestView::Launch {
                path: source,
            }
        },
{
}

/// The queue is first in, first out. A call changes it in one of three ways
/// only: a request made while busy joins at the back; after the exit of the
/// process, or on a skip, the head leaves and is what the session resolves
/// next; a quit empties it.
pub proof fn law_queue_discipline(s: Session, call: Call)
    ensures
        ({
            let (next, outcome) = s.step(call);
            match call {
                Call::Play { source, title } | Call::Enqueue { source, title } => if s.busy() {
                    next == (Session { queue: s.queue.push((title, source)), ..s })
                } else {
                    next.queue == s.queue
                },
                Call::ResolveRemoteAsync { title, id, path } => next.queue.len() == s.queue.len() + 1
                    && next.queue.drop_last() == s.queue && next.queue.last().1 == path,
                Call::Poll(_) | Call::Skip => next.queue == s.queue || {
                    &&& s.queue.len() > 0
                    &&& next.queue == s.queue.drop_first()
                    &&& next.task == Some(
                        TaskView { title: s.queue[0].0, source: s.queue[0].1, stage: Stage::Probing },
                    )
                    &&& outcome.request == RequestView::Probe { path: s.queue[0].1 }
                },
                Call::Quit => next.queue == Seq::<(Seq<char>, Seq<char>)>::empty(),
                _ => next.queue == s.queue,
            }
        }),
{
}

/// What `call` adds to the queue: the track of a request made while busy,
/// and the track of a detached download.
pub open spec fn joins(s: Session, call: Call) -> Seq<(Seq<char>, Seq<char>)> {
    match call {
        Call::Play { source, title } | Call::Enqueue { source, title } => if s.busy() {
            seq![(title, source)]
        } else {
            Seq::empty()
        },
        Call::ResolveRemoteAsync { title, id, path } => seq![(pending_title(title), path)],
        _ => Seq::empty(),
    }
}

/// The track that `call` takes up from the queue: the one whose resolution
/// begins with a tick or a skip.
pub open spec fn takes(s: Session, call: Call) -> Seq<(Seq<char>, Seq<char>)> {
    if call is Skip || (call is Poll && s.task is None) {
        match s.step(call).0.task {
            Some(task) => seq![(task.title, task.source)],
            None => Seq::empty(),
        }
    } else {
        Seq::empty()
    }
}

/// What the calls of `calls` add to the queue, in order.
pub open spec fn joins_over(s: Session, calls: Seq<Call>) -> Seq<(Seq<char>, Seq<char>)>
    decreases calls.len(),
{
    if calls.len() == 0 {
        Seq::empty()
    } else {
        joins_over(s, calls.drop_last()) + joins(s.run(calls.drop_last()), calls.last())
    }
}

/// The tracks that the calls of `calls` take up from the queue, in order.
pub open spec fn takes_over(s: Session, calls: Seq<Call>) -> Seq<(Seq<char>, Seq<char>)>
    decreases calls.len(),
{
    if calls.len() == 0 {
        Seq::empty()
    } else {
        takes_over(s, calls.drop_last()) + takes(s.run(calls.drop_last()), calls.last())
    }
}

/// One call keeps the order of the queue: what it takes up, followed by the
/// queue after it, is the queue before it followed by what it adds.
pub proof fn law_fifo_step(s: Session, call: Call)
    requires
        s.wf(),
        !(call is Quit),
    ensures
        takes(s, call) + s.step(call).0.queue == s.queue + joins(s, call),
{
}

/// Tracks are taken up in the order in which they joined the queue. Over any
/// calls but a quit, the tracks taken up, followed by those still waiting,
/// are those that waited at first followed by those that joined.
pub proof fn law_fifo_run(s: Session, calls: Seq<Call>)
    requires
        s.wf(),
        forall|i: int| 0 <= i < calls.len() ==> !(#[trigger] calls[i] is Quit),
    ensures
        takes_over(s, calls) + s.run(calls).queue == s.queue + joins_over(s, calls),
    decreases calls.len(),
{
    if calls.len() > 0 {
        let before = calls.drop_last();
        let mid = s.run(before);
        assert forall|i: int| 0 <= i < before.len() implies !(#[trigger] before[i] is Quit) by {
            assert(before[i] == calls[i]);
        }
        law_fifo_run(s, before);
        law_run_keeps_invariant(s, before);
        law_fifo_step(mid, calls.last());
        assert((s.queue + joins_over(s, before)) + joins(mid, calls.last()) =~= s.queue + (
            joins_over(s, before) + joins(mid, calls.last())));
    }
}

/// The state in which `title` plays as process `id`, reached from `s` by the
/// resolution of a source that is a playable file.
pub open spec fn played(s: Session, source: Seq<char>, title: Seq<char>, id: u32) -> Session {
    s.play(source, title).0.reply(ReplyView::Present(true)).0.reply(
        ReplyView::Launched(Some(id)),
    ).0
}

/// The state in which the head of the queue plays as process `id`, reached
/// from `s` by the exit of its process and the resolution of a source that
/// is a playable file.
pub open spec fn followed(s: Session, id: u32) -> Session {
    s.poll(Liveness::Exited).0.reply(ReplyView::Present(true)).0.reply(
        ReplyView::Launched(Some(id)),
    ).0
}

/// Tracks play in the order in which they were enqueued: `a`, `b` and `c`,
/// enqueued in this order on an idle session, each a playable file, play as
/// `a`, then `b`, then `c`, each after the exit of the one before, and the
/// queue is empty at the end.
pub proof fn law_fifo(
    s: Session,
    a: (Seq<char>, Seq<char>),
    b: (Seq<char>, Seq<char>),
    c: (Seq<char>, Seq<char>),
    ids: (u32, u32, u32),
)
    requires
        s.wf(),
        !s.busy(),
        s.queue.len() == 0,
    ensures
        ({
            let first = played(s, a.1, a.0, ids.0);
            let waiting = first.play(b.1, b.0).0.play(c.1, c.0).0;
            let second = followed(waiting, ids.1);
            let third = followed(second, ids.2);
            &&& first.title == Some(a.0) && first.process == Some(ids.0)
            &&& waiting.title == Some(a.0) && waiting.queue == seq![b, c]
            &&& second.title == Some(b.0) && second.process == Some(ids.1) && second.queue
                == seq![c]
            &&& third.title == Some(c.0) && third.process == Some(ids.2) && third.queue.len()
                == 0
        }),
{
}

/// A file is handed out for removal only when the session lets go of it: it
/// was the pending stream file, it follows the transient naming convention,
/// and after the call it is pending no more. No reply hands one out: while
/// the driver works on a resolution, nothing is removed.
pub proof fn law_removal_only_of_released(s: Session, call: Call)
    ensures
        s.step(call).1.remove matches Some(path) ==> {
            &&& s.pending_temp_file == Some(path)
            &&& stream_file(path)
            &&& s.step(call).0.pending_temp_file is None
        },
        call is Reply ==> s.step(call).1.remove is None,
{
}

/// To stop twice is to stop once: the second stop changes nothing and
/// leaves nothing to do, and the state is stopped, with no process and no
/// title.
pub proof fn law_stop_idempotent(s: Session)
    ensures
        s.stop().0.stop() == (s.stop().0, OutcomeView::nothing()),
        s.stop().0.status is Stopped,
        s.stop().0.process is None,
        s.stop().0.title is None,
{
}

/// A download counts only if the downloader exited with success and left a
/// file of nonzero length. Otherwise the resolution ends in an error: the
/// player is not asked for and no process is owned.
pub proof fn law_failed_download_never_plays(
    s: Session,
    path: Seq<char>,
    succeeded: bool,
    present: bool,
    diagnostic: Seq<char>,
)
    requires
        s.wf(),
        s.task matches Some(task) && task.stage is Fetching,
        !(succeeded && present),
    ensures
        ({
            let (next, outcome) = s.reply(
                ReplyView::Fetched { path, succeeded, present, diagnostic },
            );
            &&& fetched(path, succeeded, present, diagnostic) is Err
            &&& next.status is Error
            &&& next.process is None
            &&& next.task is None
            &&& outcome == OutcomeView::nothing()
        }),
{
}

/// The steps that the status may take: from stopped to downloading, playing
/// or error; from downloading to playing, error or stopped; between playing
/// and paused, and from either to stopped; from error to stopped only. Every
/// status may stay as it is.
pub open spec fn may_follow(from: StatusView, to: StatusView) -> bool {
    match from {
        StatusView::Stopped => !(to is Paused),
        StatusView::Downloading => !(to is Paused),
        StatusView::Playing => to is Playing || to is Paused || to is Stopped,
        StatusView::Paused => to is Paused || to is Playing || to is Stopped,
        StatusView::Error(_) => to is Error || to is Stopped,
    }
}

/// The status moves along the steps of `may_follow` and no others. An error
/// stays until the session is stopped or told to play, and then it is
/// stopped first.
pub proof fn law_status_steps(s: Session, call: Call)
    requires
        s.wf(),
    ensures
        may_follow(s.status, s.step(call).0.status),
        s.status is Error && s.step(call).0.status is Error ==> s.step(call).0.status == s.status,
{
}

/// A resolution ends in one of two ways: the track plays, under its title
/// and with a process owned, or the status is an error and nothing is owned.
pub proof fn law_resolution_ends(s: Session, reply: ReplyView)
    requires
        s.wf(),
        s.task is Some,
        s.reply(reply).0.task is None,
    ensures
        ({
            let next = s.reply(reply).0;
            ||| next.status is Playing && next.process is Some && next.title == Some(
                s.task->0.title,
            )
            ||| next.status is Error && next.process is None && next.title is None
        }),
{
}

} // verus!
