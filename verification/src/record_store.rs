//! The durable record store: one document, kept in one file.
//!
//! The store never touches the disk itself. Opening is a short exchange: the
//! caller reports an event, the store answers with the next step to perform,
//! until the step is `Opened` or `Failed`. The store records its path only
//! once the document was read or freshly created, so a failed attempt leaves
//! it closed.

use vstd::prelude::*;
use vstd::string::*;
use crate::text::{owned_text, wrap_text};

verus! {

/// What the caller reports while a store is being opened.
pub enum FileEvent {
    /// Nothing was done yet.
    Begin,
    /// The file was read; this is its text.
    ReadOk(String),
    /// The file could not be read, for this reason.
    ReadFailed(String),
    /// An empty file was created at the path.
    Created,
    /// The file could neither be read nor created.
    CreateFailed { read_error: String, create_error: String },
}

/// What the store asks for, or how the opening ended.
pub enum FileStep {
    /// Read the file at this path.
    Read(String),
    /// Create an empty file at this path.
    Create(String),
    /// The store is open; this is the document's text.
    Opened(String),
    /// The store stays as it was; this is the reason.
    Failed(String),
}

/// A `FileStep` with its strings as character sequences.
pub enum FileStepView {
    Read(Seq<char>),
    Create(Seq<char>),
    Opened(Seq<char>),
    Failed(Seq<char>),
}

impl View for FileStep {
    type V = FileStepView;

    open spec fn view(&self) -> FileStepView {
        match self {
            FileStep::Read(p) => FileStepView::Read(p@),
            FileStep::Create(p) => FileStepView::Create(p@),
            FileStep::Opened(t) => FileStepView::Opened(t@),
            FileStep::Failed(e) => FileStepView::Failed(e@),
        }
    }
}

/// What `save` asks the caller to do.
pub enum SaveStep {
    /// The store is closed: nothing is to be written.
    Nothing,
    /// Replace the file at `path` by `contents`.
    Write { path: String, contents: String },
}

/// A `SaveStep` with its strings as character sequences.
pub enum SaveStepView {
    Nothing,
    Write { path: Seq<char>, contents: Seq<char> },
}

impl View for SaveStep {
    type V = SaveStepView;

    open spec fn view(&self) -> SaveStepView {
        match self {
            SaveStep::Nothing => SaveStepView::Nothing,
            SaveStep::Write { path, contents } => SaveStepView::Write {
                path: path@,
                contents: contents@,
            },
        }
    }
}

/// The text of the error for opening a store that is open at `current`.
pub open spec fn already_open_text(current: Seq<char>) -> Seq<char> {
    "file already opened, at path '"@ + current + "'"@
}

/// The text of the error for a file that could be neither read nor created.
pub open spec fn unreachable_text(read_error: Seq<char>, create_error: Seq<char>) -> Seq<char> {
    "failed to open because '"@ + read_error + "' and failed to create because '"@ + create_error
        + "'"@
}

/// The step that answers `event` for a store whose recorded path is `current`,
/// when `path` is to be opened.
pub open spec fn open_step(current: Option<Seq<char>>, path: Seq<char>, event: FileEvent)
    -> FileStepView {
    match current {
        Some(p) => FileStepView::Failed(already_open_text(p)),
        None => match event {
            FileEvent::Begin => FileStepView::Read(path),
            FileEvent::ReadOk(text) => FileStepView::Opened(text@),
            FileEvent::ReadFailed(_) => FileStepView::Create(path),
            FileEvent::Created => FileStepView::Opened(Seq::empty()),
            FileEvent::CreateFailed { read_error, create_error } => FileStepView::Failed(
                unreachable_text(read_error@, create_error@),
            ),
        },
    }
}

/// The recorded path after `event` was answered.
pub open spec fn open_location(current: Option<Seq<char>>, path: Seq<char>, event: FileEvent)
    -> Option<Seq<char>> {
    if current is None && (event is ReadOk || event is Created) {
        Some(path)
    } else {
        current
    }
}

/// The step that answers `event` when `path` is to be opened by a store whose
/// recorded path is `current`.
pub fn next_step(current: Option<&str>, path: &str, event: FileEvent) -> (step: FileStep)
    ensures
        step@ == open_step(
            match current {
                Some(p) => Some(p@),
                None => None,
            },
            path@,
            event,
        ),
{
    match current {
        Some(p) => {
            return FileStep::Failed(wrap_text("file already opened, at path '", p, "'"));
        },
        None => {},
    }
    match event {
        FileEvent::Begin => FileStep::Read(owned_text(path)),
        FileEvent::ReadOk(text) => FileStep::Opened(text),
        FileEvent::ReadFailed(_) => FileStep::Create(owned_text(path)),
        FileEvent::Created => FileStep::Opened(String::new()),
        FileEvent::CreateFailed { read_error, create_error } => {
            let mut reason = wrap_text(
                "failed to open because '",
                read_error.as_str(),
                "' and failed to create because '",
            );
            reason.append(create_error.as_str());
            reason.append("'");
            FileStep::Failed(reason)
        },
    }
}

/// Handle on one persisted document.
pub struct JsonFile {
    path: Option<String>,
}

impl JsonFile {
    /// The path at which the store is open, if it is.
    pub closed spec fn location(&self) -> Option<Seq<char>> {
        match self.path {
            Some(p) => Some(p@),
            None => None,
        }
    }

    /// A closed store.
    pub fn new() -> (f: JsonFile)
        ensures
            f.location() is None,
    {
        JsonFile { path: None }
    }

    /// Whether the store is open.
    pub fn is_open(&self) -> (r: bool)
        ensures
            r == (self.location() is Some),
    {
        self.path.is_some()
    }

    /// The path at which the store is open.
    pub fn path(&self) -> (r: Option<&str>)
        ensures
            (r is Some) == (self.location() is Some),
            r matches Some(p) ==> self.location() == Some(p@),
    {
        match &self.path {
            Some(p) => Some(p.as_str()),
            None => None,
        }
    }

    /// One exchange of the opening of `path`.
    ///
    /// An open store refuses every event and names the path it holds. A closed
    /// store asks for the file to be read, asks for it to be created when it
    /// could not be read, and becomes open at `path` once the text is there:
    /// the text read, or no text for a file just created.
    pub fn open(&mut self, path: &str, event: FileEvent) -> (step: FileStep)
        ensures
            step@ == open_step(old(self).location(), path@, event),
            final(self).location() == open_location(old(self).location(), path@, event),
    {
        let step = next_step(self.path(), path, event);
        if let FileStep::Opened(_) = &step {
            self.path = Some(owned_text(path));
        }
        step
    }

    /// Records `path` as the place of the document.
    pub(crate) fn attach(&mut self, path: &str)
        ensures
            final(self).location() == Some(path@),
    {
        self.path = Some(owned_text(path));
    }

    /// What is to be written for `contents`: nothing while the store is
    /// closed, else the whole text at the recorded path.
    pub fn save(&self, contents: &str) -> (step: SaveStep)
        ensures
            step@ == match self.location() {
                None => SaveStepView::Nothing,
                Some(p) => SaveStepView::Write { path: p, contents: contents@ },
            },
    {
        match &self.path {
            None => SaveStep::Nothing,
            Some(p) => SaveStep::Write { path: p.clone(), contents: owned_text(contents) },
        }
    }

    /// Forgets the path: the store is closed.
    pub fn close(&mut self)
        ensures
            final(self).location() is None,
    {
        self.path = None;
    }
}

impl Default for JsonFile {
    fn default() -> (f: JsonFile)
        ensures
            f.location() is None,
    {
        JsonFile::new()
    }
}

/// What the caller reports while a store of records is being loaded.
pub enum LoadEvent<T> {
    /// Progress on the file itself.
    File(FileEvent),
    /// The document was decoded into these records.
    Parsed(Vec<T>),
    /// The document could not be decoded, for this reason.
    ParseFailed(String),
}

/// What a store of records asks for, or how its loading ended.
pub enum LoadStep {
    /// Read the file at this path.
    Read(String),
    /// Create an empty file at this path.
    Create(String),
    /// Decode this document into records.
    Parse(String),
    /// The store is open and holds the records.
    Loaded,
    /// The store stays as it was; this is the reason.
    Failed(String),
}

/// A `LoadStep` with its strings as character sequences.
pub enum LoadStepView {
    Read(Seq<char>),
    Create(Seq<char>),
    Parse(Seq<char>),
    Loaded,
    Failed(Seq<char>),
}

impl View for LoadStep {
    type V = LoadStepView;

    open spec fn view(&self) -> LoadStepView {
        match self {
            LoadStep::Read(p) => LoadStepView::Read(p@),
            LoadStep::Create(p) => LoadStepView::Create(p@),
            LoadStep::Parse(t) => LoadStepView::Parse(t@),
            LoadStep::Loaded => LoadStepView::Loaded,
            LoadStep::Failed(e) => LoadStepView::Failed(e@),
        }
    }
}

/// The text of the error of the user directory for a document that could
/// not be decoded.
pub open spec fn parse_error_text(reason: Seq<char>) -> Seq<char> {
    "parsing error '"@ + reason + "'"@
}

/// The step of a store of records that follows a step on its file: a
/// document that was read or created is to be decoded next.
pub open spec fn load_step_of(step: FileStepView) -> LoadStepView {
    match step {
        FileStepView::Read(p) => LoadStepView::Read(p),
        FileStepView::Create(p) => LoadStepView::Create(p),
        FileStepView::Opened(t) => LoadStepView::Parse(t),
        FileStepView::Failed(e) => LoadStepView::Failed(e),
    }
}

/// Turns a step on the file into the step of a store of records.
pub fn continue_load(step: FileStep) -> (next: LoadStep)
    ensures
        next@ == load_step_of(step@),
{
    match step {
        FileStep::Read(p) => LoadStep::Read(p),
        FileStep::Create(p) => LoadStep::Create(p),
        FileStep::Opened(t) => LoadStep::Parse(t),
        FileStep::Failed(e) => LoadStep::Failed(e),
    }
}

/// What a store of records asks the caller to persist.
pub enum SaveRequest<T> {
    /// The store is closed: nothing is to be written.
    Nothing,
    /// Encode `records` and replace the file at `path` by the result.
    Write { path: String, records: Vec<T> },
}

} // verus!
