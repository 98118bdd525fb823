//! What passes between the session and the driver that does its outside
//! work: the session hands out signals, removals and requests; the driver
//! performs them and answers each request with a reply.

use vstd::prelude::*;

verus! {

/// What the session is doing.
#[derive(Debug, Clone, PartialEq, Eq)]
pub enum Status {
    Stopped,
    Playing,
    Paused,
    Downloading,
    Error(String),
}

/// A `Status` over mathematical text.
pub enum StatusView {
    Stopped,
    Playing,
    Paused,
    Downloading,
    Error(Seq<char>),
}

impl View for Status {
    type V = StatusView;

    open spec fn view(&self) -> StatusView {
        match self {
            Status::Stopped => StatusView::Stopped,
            Status::Playing => StatusView::Playing,
            Status::Paused => StatusView::Paused,
            Status::Downloading => StatusView::Downloading,
            Status::Error(message) => StatusView::Error(message@),
        }
    }
}

impl StatusView {
    /// The words shown for this status.
    pub open spec fn label(self) -> Seq<char> {
        match self {
            StatusView::Stopped => "Stopped"@,
            StatusView::Playing => "Playing"@,
            StatusView::Paused => "Paused"@,
            StatusView::Downloading => "Downloading"@,
            StatusView::Error(message) => message,
        }
    }
}

impl Status {
    /// The words shown for this status: its name, or the message of an error.
    pub fn label(&self) -> (r: String)
        ensures
            r@ == self@.label(),
    {
        match self {
            Status::Stopped => String::from_str("Stopped"),
            Status::Playing => String::from_str("Playing"),
            Status::Paused => String::from_str("Paused"),
            Status::Downloading => String::from_str("Downloading"),
            Status::Error(message) => message.clone(),
        }
    }
}

/// How far the resolution of a source has come.
#[derive(Debug, Clone, Copy, PartialEq, Eq)]
pub enum Stage {
    /// Asked whether the source itself is a playable file.
    Probing,
    /// Asked for the download of a catalog entry.
    Fetching,
    /// Waiting for a stream file to appear, with this many checks left.
    Awaiting(u32),
    /// Asked for the names in the library.
    Searching,
    /// Asked for the player process.
    Starting,
}

/// What the driver found of the owned process.
#[derive(Debug, Clone, Copy, PartialEq, Eq)]
pub enum Liveness {
    /// It has not exited.
    Running,
    /// It has exited.
    Exited,
    /// The query itself failed.
    Unknown,
}

/// A control signal for a process, named by its identifier.
#[derive(Debug, Clone, Copy, PartialEq, Eq)]
pub enum Signal {
    /// Terminate it by force.
    Kill(u32),
    /// Suspend it.
    Suspend(u32),
    /// Let it continue.
    Continue(u32),
}

/// Outside work that the session waits for.
#[derive(Debug, Clone, PartialEq, Eq)]
pub enum Request {
    /// None: the session waits for nothing.
    Nothing,
    /// Is `path` a file of nonzero length? Answered by `Reply::Present`.
    Probe { path: String },
    /// Download `url` to a fresh stream file and wait for the downloader to
    /// exit. Answered by `Reply::Fetched`.
    Fetch { url: String },
    /// Wait one polling interval, then say whether `path` is a file of
    /// nonzero length. Answered by `Reply::Present`.
    Await { path: String },
    /// Name the files in the library directory. Answered by
    /// `Reply::Listing`.
    List,
    /// Start the player on `path`, with no interactive input or output.
    /// Answered by `Reply::Launched`.
    Launch { path: String },
}

/// A `Request` over mathematical text.
pub enum RequestView {
    Nothing,
    Probe { path: Seq<char> },
    Fetch { url: Seq<char> },
    Await { path: Seq<char> },
    List,
    Launch { path: Seq<char> },
}

impl View for Request {
    type V = RequestView;

    open spec fn view(&self) -> RequestView {
        match self {
            Request::Nothing => RequestView::Nothing,
            Request::Probe { path } => RequestView::Probe { path: path@ },
            Request::Fetch { url } => RequestView::Fetch { url: url@ },
            Request::Await { path } => RequestView::Await { path: path@ },
            Request::List => RequestView::List,
            Request::Launch { path } => RequestView::Launch { path: path@ },
        }
    }
}

/// The driver's answer to a request.
#[derive(Debug, Clone, PartialEq, Eq)]
pub enum Reply {
    /// Whether the file asked about exists with nonzero length.
    Present(bool),
    /// The downloader has exited: where it was told to write, whether it
    /// exited with success, whether the file is there with nonzero length,
    /// and what it said on failing.
    Fetched { path: String, succeeded: bool, present: bool, diagnostic: String },
    /// The library directory: each file's name and its full path, in the
    /// order in which the directory gave them.
    Listing(Vec<(String, String)>),
    /// The identifier of the player process, or none if it did not start.
    Launched(Option<u32>),
}

/// A `Reply` over mathematical text.
pub enum ReplyView {
    Present(bool),
    Fetched { path: Seq<char>, succeeded: bool, present: bool, diagnostic: Seq<char> },
    Listing(Seq<(Seq<char>, Seq<char>)>),
    Launched(Option<u32>),
}

impl View for Reply {
    type V = ReplyView;

    open spec fn view(&self) -> ReplyView {
        match self {
            Reply::Present(found) => ReplyView::Present(*found),
            Reply::Fetched { path, succeeded, present, diagnostic } => ReplyView::Fetched {
                path: path@,
                succeeded: *succeeded,
                present: *present,
                diagnostic: diagnostic@,
            },
            Reply::Listing(entries) => ReplyView::Listing(entries.deep_view()),
            Reply::Launched(process) => ReplyView::Launched(*process),
        }
    }
}

/// What a call on the session leaves for the driver to do, in this order:
/// send the signal, remove the file, perform the request and reply to it.
#[derive(Debug, Clone, PartialEq, Eq)]
pub struct Outcome {
    pub signal: Option<Signal>,
    pub remove: Option<String>,
    pub request: Request,
}

/// An `Outcome` over mathematical text.
pub struct OutcomeView {
    pub signal: Option<Signal>,
    pub remove: Option<Seq<char>>,
    pub request: RequestView,
}

impl View for Outcome {
    type V = OutcomeView;

    open spec fn view(&self) -> OutcomeView {
        OutcomeView {
            signal: self.signal,
            remove: self.remove.deep_view(),
            request: self.request@,
        }
    }
}

impl OutcomeView {
    /// Nothing to do.
    pub open spec fn nothing() -> OutcomeView {
        OutcomeView { signal: None, remove: None, request: RequestView::Nothing }
    }

    /// Only the request `request`.
    pub open spec fn asking(request: RequestView) -> OutcomeView {
        OutcomeView { signal: None, remove: None, request }
    }
}

impl Outcome {
    /// Nothing to do.
    pub fn nothing() -> (r: Outcome)
        ensures
            r@ == OutcomeView::nothing(),
    {
        Outcome { signal: None, remove: None, request: Request::Nothing }
    }

    /// Only the request `request`.
    pub fn asking(request: Request) -> (r: Outcome)
        ensures
            r@ == OutcomeView::asking(request@),
    {
        Outcome { signal: None, remove: None, request }
    }
}

} // verus!
