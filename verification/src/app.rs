//! The state of the browser in front of the session: the search line, the
//! results, the library and the selection, and what each key means for them.

use vstd::prelude::*;
use crate::text::{same, trim, trimmed};

verus! {

/// A key, as far as the browser tells keys apart.
#[derive(Debug, Clone, Copy, PartialEq, Eq)]
pub enum Key {
    Char(char),
    Enter,
    Up,
    Down,
    Backspace,
    Esc,
    Other,
}

/// A key pressed: `plain` with no modifier held, `control` with the control
/// key among those held.
#[derive(Debug, Clone, Copy, PartialEq, Eq)]
pub struct Press {
    pub key: Key,
    pub plain: bool,
    pub control: bool,
}

/// What the browser shows: the catalog and the library, or the library
/// alone.
#[derive(Debug, Clone, Copy, PartialEq, Eq)]
pub enum Mode {
    Streaming,
    DownloadedOnly,
}

/// What a key on the opening screen leads to.
#[derive(Debug, Clone, Copy, PartialEq, Eq)]
pub enum Opening {
    /// The screen stays, with this mode selected.
    Select(Mode),
    /// The browser begins in this mode.
    Begin(Mode),
    /// The program ends.
    Quit,
}

/// What a key on the opening screen leads to, with `selected` the mode
/// selected so far: an arrow selects the other mode, the enter key begins,
/// `q` ends the program.
pub open spec fn opening(selected: Mode, key: Key) -> Opening {
    match key {
        Key::Up | Key::Down => Opening::Select(
            match selected {
                Mode::Streaming => Mode::DownloadedOnly,
                Mode::DownloadedOnly => Mode::Streaming,
            },
        ),
        Key::Enter => Opening::Begin(selected),
        Key::Char(c) => if c == 'q' {
            Opening::Quit
        } else {
            Opening::Select(selected)
        },
        _ => Opening::Select(selected),
    }
}

/// What a key on the opening screen leads to.
pub fn opening_press(selected: Mode, key: Key) -> (r: Opening)
    ensures
        r == opening(selected, key),
{
    match key {
        Key::Up | Key::Down => Opening::Select(
            match selected {
                Mode::Streaming => Mode::DownloadedOnly,
                Mode::DownloadedOnly => Mode::Streaming,
            },
        ),
        Key::Enter => Opening::Begin(selected),
        Key::Char(c) => if c == 'q' {
            Opening::Quit
        } else {
            Opening::Select(selected)
        },
        _ => Opening::Select(selected),
    }
}

/// What a key asks of the session and its driver.
#[derive(Debug, Clone, PartialEq, Eq)]
pub enum Intent {
    Nothing,
    /// Search the catalog for `query`.
    Search { query: String },
    /// Play the track of the library.
    Play { title: String, source: String },
    /// Put the catalog entry in line.
    Enqueue { title: String, source: String },
    /// Queue the catalog entry and download it detached.
    Stream { title: String, id: String },
    /// Download the catalog entry into the library.
    Like { title: String, id: String },
    Skip,
    TogglePause,
    Quit,
}

/// An `Intent` over mathematical text.
pub enum IntentView {
    Nothing,
    Search { query: Seq<char> },
    Play { title: Seq<char>, source: Seq<char> },
    Enqueue { title: Seq<char>, source: Seq<char> },
    Stream { title: Seq<char>, id: Seq<char> },
    Like { title: Seq<char>, id: Seq<char> },
    Skip,
    TogglePause,
    Quit,
}

impl View for Intent {
    type V = IntentView;

    open spec fn view(&self) -> IntentView {
        match self {
            Intent::Nothing => IntentView::Nothing,
            Intent::Search { query } => IntentView::Search { query: query@ },
            Intent::Play { title, source } => IntentView::Play { title: title@, source: source@ },
            Intent::Enqueue { title, source } => IntentView::Enqueue {
                title: title@,
                source: source@,
            },
            Intent::Stream { title, id } => IntentView::Stream { title: title@, id: id@ },
            Intent::Like { title, id } => IntentView::Like { title: title@, id: id@ },
            Intent::Skip => IntentView::Skip,
            Intent::TogglePause => IntentView::TogglePause,
            Intent::Quit => IntentView::Quit,
        }
    }
}

/// The state of the browser.
#[derive(Debug, Clone, PartialEq, Eq)]
pub struct App {
    /// The search line.
    pub input: String,
    /// What the last search found, each a title and an identifier; or the
    /// library, while it stands in for the results.
    pub results: Vec<(String, String)>,
    /// The index of the selected entry.
    pub selected: usize,
    /// A search is running.
    pub searching: bool,
    /// The message of the last search that failed.
    pub error: Option<String>,
    /// The permanent downloads, each a title and a path.
    pub library: Vec<(String, String)>,
    /// The selection moves in the library, not in the results.
    pub show_library: bool,
}

/// An `App` over mathematical text.
pub struct AppView {
    pub input: Seq<char>,
    pub results: Seq<(Seq<char>, Seq<char>)>,
    pub selected: usize,
    pub searching: bool,
    pub error: Option<Seq<char>>,
    pub library: Seq<(Seq<char>, Seq<char>)>,
    pub show_library: bool,
}

impl View for App {
    type V = AppView;

    open spec fn view(&self) -> AppView {
        AppView {
            input: self.input@,
            results: self.results.deep_view(),
            selected: self.selected,
            searching: self.searching,
            error: self.error.deep_view(),
            library: self.library.deep_view(),
            show_library: self.show_library,
        }
    }
}

/// The word that, typed into the search line, shows the library.
pub open spec fn library_word() -> Seq<char> {
    ":library"@
}

/// The selection one entry further down in a list of `len` entries: it
/// stops at the last.
pub open spec fn below(selected: usize, len: nat) -> usize {
    if len == 0 {
        selected
    } else if selected + 1 < len {
        (selected + 1) as usize
    } else {
        (len - 1) as usize
    }
}

/// The selection one entry further up: it stops at the first.
pub open spec fn above(selected: usize, len: nat) -> usize {
    if len > 0 && selected > 0 {
        (selected - 1) as usize
    } else {
        selected
    }
}

impl AppView {
    /// The browser at its start, with `library` loaded.
    pub open spec fn fresh(library: Seq<(Seq<char>, Seq<char>)>) -> AppView {
        AppView {
            input: Seq::empty(),
            results: Seq::empty(),
            selected: 0,
            searching: false,
            error: None,
            library,
            show_library: false,
        }
    }

    /// The library stands in for the results, and the search line is empty.
    pub open spec fn browse_library(self) -> AppView {
        AppView { results: self.library, input: Seq::empty(), show_library: false, ..self }
    }

    /// The list in which the selection moves.
    pub open spec fn listed(self) -> Seq<(Seq<char>, Seq<char>)> {
        if self.show_library {
            self.library
        } else {
            self.results
        }
    }

    /// The selected entry of the list in which the selection moves.
    pub open spec fn chosen(self) -> Option<(Seq<char>, Seq<char>)> {
        if self.selected < self.listed().len() {
            Some(self.listed()[self.selected as int])
        } else {
            None
        }
    }

    /// The search line may be edited: no search runs and no results are
    /// shown.
    pub open spec fn editing(self) -> bool {
        !self.searching && self.results.len() == 0
    }

    /// A character typed into the search line. The word for the library
    /// shows the library in place of results.
    pub open spec fn typed(self, c: char) -> AppView {
        if !self.editing() {
            self
        } else if self.input.push(c) == library_word() {
            AppView {
                results: self.library,
                selected: 0,
                show_library: false,
                input: Seq::empty(),
                ..self
            }
        } else {
            AppView { input: self.input.push(c), ..self }
        }
    }

    /// The last character of the search line erased.
    pub open spec fn erased(self) -> AppView {
        if self.editing() && self.input.len() > 0 {
            AppView { input: self.input.drop_last(), ..self }
        } else {
            self
        }
    }

    /// The results dismissed, for a new search.
    pub open spec fn escaped(self) -> AppView {
        if self.results.len() > 0 {
            AppView { results: Seq::empty(), input: Seq::empty(), selected: 0, ..self }
        } else {
            self
        }
    }

    /// The selection moved down.
    pub open spec fn lowered(self) -> AppView {
        AppView { selected: below(self.selected, self.listed().len()), ..self }
    }

    /// The selection moved up.
    pub open spec fn raised(self) -> AppView {
        AppView { selected: above(self.selected, self.listed().len()), ..self }
    }

    /// A search is due: the search line holds more than white space, no
    /// results are shown and no search runs.
    pub open spec fn search_due(self) -> bool {
        self.editing() && trimmed(self.input).len() > 0
    }

    /// The enter key while the catalog is browsed: it starts the search that
    /// is due, else it plays the selected track of the library or streams
    /// the selected result.
    pub open spec fn entered(self) -> (AppView, IntentView) {
        if self.search_due() {
            (AppView { searching: true, ..self }, IntentView::Search { query: trimmed(self.input) })
        } else {
            match self.chosen() {
                Some(entry) => if self.show_library {
                    (self, IntentView::Play { title: entry.0, source: entry.1 })
                } else {
                    (self, IntentView::Stream { title: entry.0, id: entry.1 })
                },
                None => (self, IntentView::Nothing),
            }
        }
    }

    /// The key that adds the selected entry to the queue: a track of the
    /// library is played or queued, a result is put in line.
    pub open spec fn added(self) -> IntentView {
        match self.chosen() {
            Some(entry) => if self.show_library {
                IntentView::Play { title: entry.0, source: entry.1 }
            } else {
                IntentView::Enqueue { title: entry.0, source: entry.1 }
            },
            None => IntentView::Nothing,
        }
    }

    /// The key that downloads the selected result into the library.
    pub open spec fn liked(self) -> IntentView {
        if self.selected < self.results.len() {
            IntentView::Like {
                title: self.results[self.selected as int].0,
                id: self.results[self.selected as int].1,
            }
        } else {
            IntentView::Nothing
        }
    }

    /// The selected entry of the results as a track of the library to play.
    pub open spec fn picked(self) -> IntentView {
        if self.selected < self.results.len() {
            IntentView::Play {
                title: self.results[self.selected as int].0,
                source: self.results[self.selected as int].1,
            }
        } else {
            IntentView::Nothing
        }
    }

    /// What a key with the control key held asks for.
    pub open spec fn commanded(self, c: char, mode: Mode) -> IntentView {
        if c == 'n' {
            IntentView::Skip
        } else if c == 'q' {
            IntentView::Quit
        } else if c == 'p' {
            IntentView::TogglePause
        } else if c == 'a' {
            match mode {
                Mode::Streaming => self.added(),
                Mode::DownloadedOnly => self.picked(),
            }
        } else if c == 'l' && mode is Streaming {
            self.liked()
        } else {
            IntentView::Nothing
        }
    }

    /// A key pressed: the next state of the browser and what is asked of
    /// the session. Keys for the browser itself count only with no modifier
    /// held; commands to the session are letters with the control key.
    pub open spec fn press(self, press: Press, mode: Mode) -> (AppView, IntentView) {
        match press.key {
            Key::Char(c) => if press.plain {
                match mode {
                    Mode::Streaming => (self.typed(c), IntentView::Nothing),
                    Mode::DownloadedOnly => (self, IntentView::Nothing),
                }
            } else if press.control {
                (self, self.commanded(c, mode))
            } else {
                (self, IntentView::Nothing)
            },
            Key::Enter => if !press.plain {
                (self, IntentView::Nothing)
            } else {
                match mode {
                    Mode::Streaming => self.entered(),
                    Mode::DownloadedOnly => (self, self.picked()),
                }
            },
            Key::Down => if press.plain {
                (self.lowered(), IntentView::Nothing)
            } else {
                (self, IntentView::Nothing)
            },
            Key::Up => if press.plain {
                (self.raised(), IntentView::Nothing)
            } else {
                (self, IntentView::Nothing)
            },
            Key::Backspace => if press.plain && mode is Streaming {
                (self.erased(), IntentView::Nothing)
            } else {
                (self, IntentView::Nothing)
            },
            Key::Esc => if press.plain && mode is Streaming {
                (self.escaped(), IntentView::Nothing)
            } else {
                (self, IntentView::Nothing)
            },
            Key::Other => (self, IntentView::Nothing),
        }
    }

    /// The search has ended: its results are shown with the first selected,
    /// or its message is kept.
    pub open spec fn found(self, outcome: Result<Seq<(Seq<char>, Seq<char>)>, Seq<char>>) -> AppView {
        match outcome {
            Ok(results) => AppView { results, selected: 0, error: None, searching: false, ..self },
            Err(message) => AppView { error: Some(message), searching: false, ..self },
        }
    }

    /// A track has joined the library.
    pub open spec fn kept(self, title: Seq<char>, path: Seq<char>) -> AppView {
        AppView { library: self.library.push((title, path)), ..self }
    }
}

/// A copy of `tracks`.
pub fn copy_tracks(tracks: &Vec<(String, String)>) -> (r: Vec<(String, String)>)
    ensures
        r.deep_view() == tracks.deep_view(),
{
    let mut r: Vec<(String, String)> = Vec::new();
    let mut i: usize = 0;
    while i < tracks.len()
        invariant
            i <= tracks.len(),
            r.deep_view() == tracks.deep_view().take(i as int),
        decreases tracks.len() - i,
    {
        let ghost before = r.deep_view();
        let track = (tracks[i].0.clone(), tracks[i].1.clone());
        r.push(track);
        i += 1;
        assert(before.push((track.0@, track.1@)) =~= tracks.deep_view().take(i as int));
    }
    r
}

impl App {
    /// The browser at its start, with `library` loaded.
    pub fn new(library: Vec<(String, String)>) -> (r: App)
        ensures
            r@ == AppView::fresh(library.deep_view()),
    {
        let r = App {
            input: String::new(),
            results: Vec::new(),
            selected: 0,
            searching: false,
            error: None,
            library,
            show_library: false,
        };
        assert(r.results.deep_view() =~= Seq::empty());
        r
    }

    /// Lets the library stand in for the results and empties the search
    /// line.
    pub fn browse_library(&mut self)
        ensures
            final(self)@ == old(self)@.browse_library(),
    {
        self.results = copy_tracks(&self.library);
        self.input = String::new();
        self.show_library = false;
    }

    /// Turns the selection from the results to the library and back.
    pub fn toggle_library(&mut self)
        ensures
            final(self)@ == (AppView { show_library: !old(self)@.show_library, ..old(self)@ }),
    {
        self.show_library = !self.show_library;
    }

    /// The selected entry of the list in which the selection moves.
    fn chosen(&self) -> (r: Option<(String, String)>)
        ensures
            r.deep_view() == self@.chosen(),
    {
        if self.show_library {
            if self.selected < self.library.len() {
                let entry = &self.library[self.selected];
                Some((entry.0.clone(), entry.1.clone()))
            } else {
                None
            }
        } else {
            if self.selected < self.results.len() {
                let entry = &self.results[self.selected];
                Some((entry.0.clone(), entry.1.clone()))
            } else {
                None
            }
        }
    }

    fn typed(&mut self, c: char)
        ensures
            final(self)@ == old(self)@.typed(c),
    {
        if !self.searching && self.results.len() == 0 {
            self.input.push(c);
            if same(self.input.as_str(), ":library") {
                self.results = copy_tracks(&self.library);
                self.selected = 0;
                self.show_library = false;
                self.input = String::new();
            }
        }
    }

    fn erased(&mut self)
        ensures
            final(self)@ == old(self)@.erased(),
    {
        if !self.searching && self.results.len() == 0 {
            let _ = self.input.pop();
        }
    }

    fn escaped(&mut self)
        ensures
            final(self)@ == old(self)@.escaped(),
    {
        if self.results.len() > 0 {
            self.results = Vec::new();
            self.input = String::new();
            self.selected = 0;
            assert(self.results.deep_view() =~= Seq::empty());
        }
    }

    fn lowered(&mut self)
        ensures
            final(self)@ == old(self)@.lowered(),
    {
        let len = if self.show_library {
            self.library.len()
        } else {
            self.results.len()
        };
        if len > 0 {
            if self.selected < len - 1 {
                self.selected = self.selected + 1;
            } else {
                self.selected = len - 1;
            }
        }
    }

    fn raised(&mut self)
        ensures
            final(self)@ == old(self)@.raised(),
    {
        let len = if self.show_library {
            self.library.len()
        } else {
            self.results.len()
        };
        if len > 0 && self.selected > 0 {
            self.selected = self.selected - 1;
        }
    }

    fn entered(&mut self) -> (r: Intent)
        ensures
            (final(self)@, r@) == old(self)@.entered(),
    {
        if !self.searching && self.results.len() == 0 {
            let query = trim(self.input.as_str());
            if query.as_str().unicode_len() > 0 {
                self.searching = true;
                return Intent::Search { query };
            }
        }
        match self.chosen() {
            Some(entry) => {
                if self.show_library {
                    Intent::Play { title: entry.0, source: entry.1 }
                } else {
                    Intent::Stream { title: entry.0, id: entry.1 }
                }
            },
            None => Intent::Nothing,
        }
    }

    fn added(&self) -> (r: Intent)
        ensures
            r@ == self@.added(),
    {
        match self.chosen() {
            Some(entry) => {
                if self.show_library {
                    Intent::Play { title: entry.0, source: entry.1 }
                } else {
                    Intent::Enqueue { title: entry.0, source: entry.1 }
                }
            },
            None => Intent::Nothing,
        }
    }

    fn liked(&self) -> (r: Intent)
        ensures
            r@ == self@.liked(),
    {
        if self.selected < self.results.len() {
            let entry = &self.results[self.selected];
            Intent::Like { title: entry.0.clone(), id: entry.1.clone() }
        } else {
            Intent::Nothing
        }
    }

    fn picked(&self) -> (r: Intent)
        ensures
            r@ == self@.picked(),
    {
        if self.selected < self.results.len() {
            let entry = &self.results[self.selected];
            Intent::Play { title: entry.0.clone(), source: entry.1.clone() }
        } else {
            Intent::Nothing
        }
    }

    fn commanded(&self, c: char, mode: Mode) -> (r: Intent)
        ensures
            r@ == self@.commanded(c, mode),
    {
        if c == 'n' {
            Intent::Skip
        } else if c == 'q' {
            Intent::Quit
        } else if c == 'p' {
            Intent::TogglePause
        } else if c == 'a' {
            match mode {
                Mode::Streaming => self.added(),
                Mode::DownloadedOnly => self.picked(),
            }
        } else if c == 'l' {
            match mode {
                Mode::Streaming => self.liked(),
                Mode::DownloadedOnly => Intent::Nothing,
            }
        } else {
            Intent::Nothing
        }
    }

    /// Takes a key and says what it asks of the session.
    pub fn press(&mut self, press: Press, mode: Mode) -> (r: Intent)
        ensures
            (final(self)@, r@) == old(self)@.press(press, mode),
    {
        match press.key {
            Key::Char(c) => {
                if press.plain {
                    match mode {
                        Mode::Streaming => {
                            self.typed(c);
                        },
                        Mode::DownloadedOnly => {},
                    }
                    Intent::Nothing
                } else if press.control {
                    self.commanded(c, mode)
                } else {
                    Intent::Nothing
                }
            },
            Key::Enter => {
                if !press.plain {
                    Intent::Nothing
                } else {
                    match mode {
                        Mode::Streaming => self.entered(),
                        Mode::DownloadedOnly => self.picked(),
                    }
                }
            },
            Key::Down => {
                if press.plain {
                    self.lowered();
                }
                Intent::Nothing
            },
            Key::Up => {
                if press.plain {
                    self.raised();
                }
                Intent::Nothing
            },
            Key::Backspace => {
                match mode {
                    Mode::Streaming => {
                        if press.plain {
                            self.erased();
                        }
                    },
                    Mode::DownloadedOnly => {},
                }
                Intent::Nothing
            },
            Key::Esc => {
                match mode {
                    Mode::Streaming => {
                        if press.plain {
                            self.escaped();
                        }
                    },
                    Mode::DownloadedOnly => {},
                }
                Intent::Nothing
            },
            Key::Other => Intent::Nothing,
        }
    }

    /// Takes the outcome of the search that was running.
    pub fn found(&mut self, outcome: Result<Vec<(String, String)>, String>)
        ensures
            final(self)@ == old(self)@.found(
                match outcome {
                    Ok(results) => Ok(results.deep_view()),
                    Err(message) => Err(message@),
                },
            ),
    {
        match outcome {
            Ok(results) => {
                self.results = results;
                self.selected = 0;
                self.error = None;
            },
            Err(message) => {
                self.error = Some(message);
            },
        }
        self.searching = false;
    }

    /// Adds the track `title`, downloaded to `path`, to the library.
    pub fn keep(&mut self, title: &str, path: &str)
        ensures
            final(self)@ == old(self)@.kept(title@, path@),
    {
        self.library.push((String::from_str(title), String::from_str(path)));
        assert(self.library.deep_view() =~= old(self).library.deep_view().push((title@, path@)));
    }
}

} // verus!
