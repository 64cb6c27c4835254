//! The user directory: credential records and their validation.

use vstd::prelude::*;
use vstd::string::*;
use crate::record_store::{
    continue_load, load_step_of, next_step, open_step, parse_error_text,
    FileEvent, FileStep, FileStepView, JsonFile, LoadEvent, LoadStep, LoadStepView, SaveRequest,
};
use crate::search::{first_place, is_first, lemma_first_found, lemma_first_missing};
use crate::text::{owned_text, same_text, wrap_text};

verus! {

/// A user's name and password.
pub struct Credentials {
    username: String,
    password: String,
}

/// A `Credentials` with its strings as character sequences.
pub struct CredentialsView {
    pub username: Seq<char>,
    pub password: Seq<char>,
}

impl View for Credentials {
    type V = CredentialsView;

    closed spec fn view(&self) -> CredentialsView {
        CredentialsView { username: self.username@, password: self.password@ }
    }
}

impl PartialEq for Credentials {
    fn eq(&self, other: &Self) -> (r: bool) {
        self.username == other.username && self.password == other.password
    }
}

impl vstd::std_specs::cmp::PartialEqSpecImpl for Credentials {
    open spec fn obeys_eq_spec() -> bool {
        true
    }

    open spec fn eq_spec(&self, other: &Self) -> bool {
        self@ == other@
    }
}

impl Clone for Credentials {
    fn clone(&self) -> (r: Self)
        ensures
            r@ == self@,
    {
        Credentials { username: self.username.clone(), password: self.password.clone() }
    }
}

impl Credentials {
    /// The record of `username` with `password`.
    pub fn new(username: String, password: String) -> (c: Credentials)
        ensures
            c@ == (CredentialsView { username: username@, password: password@ }),
    {
        Credentials { username, password }
    }

    /// The record of `username` with `password`, from borrowed text.
    pub fn from(username: &str, password: &str) -> (c: Credentials)
        ensures
            c@ == (CredentialsView { username: username@, password: password@ }),
    {
        Credentials { username: owned_text(username), password: owned_text(password) }
    }

    /// The user that stands for anyone.
    pub fn any_user() -> (c: Credentials)
        ensures
            c@ == (CredentialsView { username: "any"@, password: "any"@ }),
    {
        Credentials::from("any", "any")
    }

    pub fn username(&self) -> (r: &str)
        ensures
            r@ == self@.username,
    {
        self.username.as_str()
    }

    pub fn password(&self) -> (r: &str)
        ensures
            r@ == self@.password,
    {
        self.password.as_str()
    }
}

/// The records of a list, each by its view.
pub open spec fn records_of(users: Seq<Credentials>) -> Seq<CredentialsView> {
    users.map_values(|c: Credentials| c@)
}

/// No record has an empty field, and no two records are the same.
pub open spec fn valid_records(s: Seq<CredentialsView>) -> bool {
    &&& forall|i: int|
        0 <= i < s.len() ==> (#[trigger] s[i]).username.len() > 0 && s[i].password.len() > 0
    &&& forall|i: int, j: int| 0 <= i < j < s.len() ==> #[trigger] s[i] != #[trigger] s[j]
}

/// The property of being a record of the user `name`.
pub open spec fn of_user(name: Seq<char>) -> spec_fn(CredentialsView) -> bool {
    |c: CredentialsView| c.username == name
}

/// The first record of `s` whose user is `name`.
pub open spec fn lookup(s: Seq<CredentialsView>, name: Seq<char>) -> Option<CredentialsView> {
    match first_place(s, of_user(name)) {
        Some(i) => Some(s[i]),
        None => None,
    }
}

/// Whether no record of `users` has an empty field and no two are the same.
pub fn valid_list(users: &Vec<Credentials>) -> (r: bool)
    ensures
        r == valid_records(records_of(users@)),
{
    let ghost s = records_of(users@);
    let mut i: usize = 0;
    while i < users.len()
        invariant
            i <= users.len(),
            s == records_of(users@),
            s.len() == users.len(),
            forall|k: int|
                0 <= k < i ==> (#[trigger] s[k]).username.len() > 0 && s[k].password.len() > 0,
            forall|k: int, l: int| 0 <= k < l < s.len() && k < i ==> #[trigger] s[k] != #[trigger] s[l],
        decreases users.len() - i,
    {
        let cred = &users[i];
        assert(s[i as int] == cred@);
        if cred.username.as_str().is_empty() || cred.password.as_str().is_empty() {
            return false;
        }
        let mut j: usize = i + 1;
        while j < users.len()
            invariant
                i < j <= users.len(),
                s == records_of(users@),
                s.len() == users.len(),
                cred == &users[i as int],
                forall|l: int| i < l < j ==> s[i as int] != #[trigger] s[l],
            decreases users.len() - j,
        {
            assert(s[j as int] == users[j as int]@);
            assert(s[i as int] == users[i as int]@);
            if *cred == users[j] {
                return false;
            }
            j += 1;
        }
        i += 1;
    }
    true
}

/// The document that stands for an empty list of users.
pub open spec fn empty_document() -> Seq<char> {
    "[ ]"@
}

/// The text of the error for a list that breaks the rules of the directory.
pub open spec fn invalid_records_text() -> Seq<char> {
    "Duplicate or empty records found"@
}

/// The text of the error for opening a directory that is open at `current`.
pub open spec fn directory_open_text(current: Seq<char>) -> Seq<char> {
    "already open at path '"@ + current + "'"@
}

/// The text of the error for a document that could be neither read nor
/// created.
pub open spec fn directory_unreachable_text(read_error: Seq<char>, create_error: Seq<char>)
    -> Seq<char> {
    "unable to open because '"@ + read_error + "' and unable to create because '"@
        + create_error + "'"@
}

/// Whether `event` opens a closed directory: it brings a list of records
/// that is valid.
pub open spec fn brings_valid_records(event: LoadEvent<Credentials>) -> bool {
    event matches LoadEvent::Parsed(users) && valid_records(records_of(users@))
}

/// The step by which a directory whose recorded path is `current` answers
/// `event`, when `path` is to be opened.
pub open spec fn directory_step(
    current: Option<Seq<char>>,
    path: Seq<char>,
    event: LoadEvent<Credentials>,
) -> LoadStepView {
    match current {
        Some(p) => LoadStepView::Failed(directory_open_text(p)),
        None => match event {
            LoadEvent::File(FileEvent::CreateFailed { read_error, create_error }) =>
                LoadStepView::Failed(directory_unreachable_text(read_error@, create_error@)),
            LoadEvent::File(ev) => match open_step(None, path, ev) {
                FileStepView::Opened(text) => LoadStepView::Parse(
                    if text.len() == 0 {
                        empty_document()
                    } else {
                        text
                    },
                ),
                other => load_step_of(other),
            },
            LoadEvent::Parsed(users) => if valid_records(records_of(users@)) {
                LoadStepView::Loaded
            } else {
                LoadStepView::Failed(invalid_records_text())
            },
            LoadEvent::ParseFailed(reason) => LoadStepView::Failed(parse_error_text(reason@)),
        },
    }
}

/// A list in which one record stands at two places is not valid, so a closed
/// directory answers it with a failure, stays closed, and finds no user.
pub proof fn lemma_duplicate_records_rejected(
    db: UserDatabase,
    users: Vec<Credentials>,
    path: Seq<char>,
    i: int,
    j: int,
    name: Seq<char>,
)
    requires
        db.location() is None,
        0 <= i < j < users@.len(),
        users@[i]@ == users@[j]@,
    ensures
        !brings_valid_records(LoadEvent::Parsed(users)),
        directory_step(db.location(), path, LoadEvent::Parsed(users)) == LoadStepView::Failed(
            invalid_records_text(),
        ),
        db.user(name) is None,
{
    let s = records_of(users@);
    assert(s[i] == s[j]);
}

/// The users known to the server.
///
/// The directory is not synchronized. A server that serves several
/// connections at once keeps it behind one lock, so that no two of them
/// change it at the same time.
pub struct UserDatabase {
    file: JsonFile,
    users: Vec<Credentials>,
}

impl UserDatabase {
    /// The path at which the directory is open, if it is.
    pub closed spec fn location(&self) -> Option<Seq<char>> {
        self.file.location()
    }

    /// The records held, in the order of the document.
    pub closed spec fn records(&self) -> Seq<CredentialsView> {
        records_of(self.users@)
    }

    /// The record that a lookup of `name` finds: none while the directory is
    /// closed, else the first record of that user.
    pub open spec fn user(&self, name: Seq<char>) -> Option<CredentialsView> {
        if self.location() is None {
            None
        } else {
            lookup(self.records(), name)
        }
    }

    /// A closed directory without records.
    pub fn new() -> (db: UserDatabase)
        ensures
            db.location() is None,
            db.records().len() == 0,
    {
        UserDatabase { file: JsonFile::new(), users: Vec::new() }
    }

    /// Whether the directory is open.
    pub fn is_open(&self) -> (r: bool)
        ensures
            r == (self.location() is Some),
    {
        self.file.is_open()
    }

    /// One exchange of the opening of `path`.
    ///
    /// An open directory refuses every event and names the path it holds,
    /// in its own words. A closed one has the file read, or created when it
    /// cannot be read, and the text decoded, an empty text as an empty list. It becomes open, with
    /// the decoded records, only if none of them has an empty field and no two
    /// are the same; any other event leaves it closed and unchanged.
    pub fn open(&mut self, path: &str, event: LoadEvent<Credentials>) -> (step: LoadStep)
        ensures
            step@ == directory_step(old(self).location(), path@, event),
            old(self).location() is None && brings_valid_records(event) ==> {
                &&& final(self).location() == Some(path@)
                &&& final(self).records() == records_of(event->Parsed_0@)
            },
            !(old(self).location() is None && brings_valid_records(event)) ==> {
                &&& final(self).location() == old(self).location()
                &&& final(self).records() == old(self).records()
            },
    {
        match self.file.path() {
            Some(current) => {
                return LoadStep::Failed(wrap_text("already open at path '", current, "'"));
            },
            None => {},
        }
        match event {
            LoadEvent::File(FileEvent::CreateFailed { read_error, create_error }) => {
                let mut text = wrap_text(
                    "unable to open because '",
                    read_error.as_str(),
                    "' and unable to create because '",
                );
                text.append(create_error.as_str());
                text.append("'");
                LoadStep::Failed(text)
            },
            LoadEvent::File(ev) => {
                match next_step(None, path, ev) {
                    FileStep::Opened(text) => {
                        if text.as_str().is_empty() {
                            LoadStep::Parse(owned_text("[ ]"))
                        } else {
                            LoadStep::Parse(text)
                        }
                    },
                    other => continue_load(other),
                }
            },
            LoadEvent::Parsed(users) => {
                if valid_list(&users) {
                    self.file.attach(path);
                    self.users = users;
                    LoadStep::Loaded
                } else {
                    LoadStep::Failed(owned_text("Duplicate or empty records found"))
                }
            },
            LoadEvent::ParseFailed(reason) => {
                let mut text = owned_text("parsing error '");
                text.append(reason.as_str());
                text.append("'");
                LoadStep::Failed(text)
            },
        }
    }

    /// What is to be persisted: nothing while the directory is closed, else
    /// all records, for the recorded path.
    pub fn save(&self) -> (request: SaveRequest<Credentials>)
        ensures
            match request {
                SaveRequest::Nothing => self.location() is None,
                SaveRequest::Write { path, records } => {
                    &&& self.location() == Some(path@)
                    &&& records_of(records@) == self.records()
                },
            },
    {
        match self.file.path() {
            None => SaveRequest::Nothing,
            Some(p) => {
                let mut records: Vec<Credentials> = Vec::new();
                let mut i: usize = 0;
                while i < self.users.len()
                    invariant
                        i <= self.users.len(),
                        records.len() == i,
                        forall|k: int| 0 <= k < i ==> (#[trigger] records[k])@ == self.users[k]@,
                    decreases self.users.len() - i,
                {
                    records.push(self.users[i].clone());
                    i += 1;
                }
                assert(records_of(records@) =~= records_of(self.users@));
                SaveRequest::Write { path: owned_text(p), records }
            },
        }
    }

    /// Forgets the records and the path: the directory is closed.
    pub fn close(&mut self)
        ensures
            final(self).location() is None,
            final(self).records().len() == 0,
    {
        self.users.clear();
        self.file.close();
    }

    /// Whether the directory is open and its records keep the rules: no empty
    /// field, no record twice.
    pub fn validate(&self) -> (r: bool)
        ensures
            r == (self.location() is Some && valid_records(self.records())),
    {
        self.file.is_open() && valid_list(&self.users)
    }

    /// The first record of user `username`; none while the directory is closed.
    pub fn get_user(&self, username: &str) -> (r: Option<&Credentials>)
        ensures
            match r {
                Some(c) => self.user(username@) == Some(c@),
                None => self.user(username@) is None,
            },
    {
        if !self.file.is_open() {
            return None;
        }
        let ghost s = self.records();
        let mut i: usize = 0;
        while i < self.users.len()
            invariant
                i <= self.users.len(),
                self.location() is Some,
                s == self.records(),
                s == records_of(self.users@),
                forall|j: int| 0 <= j < i ==> !of_user(username@)(#[trigger] s[j]),
            decreases self.users.len() - i,
        {
            assert(s[i as int] == self.users[i as int]@);
            if same_text(self.users[i].username(), username) {
                proof {
                    lemma_first_found(s, of_user(username@), i as int);
                }
                return Some(&self.users[i]);
            }
            i += 1;
        }
        proof {
            lemma_first_missing(s, of_user(username@));
        }
        None
    }

    /// The first record of user `username`, to be changed in place; none
    /// while the directory is closed. What the caller writes through the
    /// reference takes that record's place and nothing else changes.
    pub fn get_user_mut(&mut self, username: &str) -> (r: Option<&mut Credentials>)
        ensures
            final(self).location() == old(self).location(),
            match r {
                Some(c) => exists|i: int|
                    {
                        &&& old(self).location() is Some
                        &&& #[trigger] is_first(old(self).records(), of_user(username@), i)
                        &&& (*c)@ == old(self).records()[i]
                        &&& final(self).records() == old(self).records().update(
                            i,
                            (*final(c))@,
                        )
                    },
                None => {
                    &&& old(self).user(username@) is None
                    &&& final(self).records() == old(self).records()
                },
            },
    {
        if !self.file.is_open() {
            return None;
        }
        let ghost s = self.records();
        let mut i: usize = 0;
        let mut found = false;
        while !found && i < self.users.len()
            invariant
                i <= self.users.len(),
                self.location() is Some,
                *self == *old(self),
                s == self.records(),
                s == records_of(self.users@),
                forall|j: int| 0 <= j < i ==> !of_user(username@)(#[trigger] s[j]),
                found ==> i < self.users.len() && of_user(username@)(s[i as int]),
            decreases self.users.len() - i + if found { 0int } else { 1int },
        {
            assert(s[i as int] == self.users[i as int]@);
            if same_text(self.users[i].username(), username) {
                found = true;
            } else {
                i += 1;
            }
        }
        if found {
            assert(s[i as int] == self.users[i as int]@);
            assert(is_first(s, of_user(username@), i as int));
            let found = &mut self.users[i];
            proof {
                assert(records_of(old(self).users@.update(i as int, *final(found))) =~= s.update(
                    i as int,
                    (*final(found))@,
                ));
            }
            Some(found)
        } else {
            proof {
                lemma_first_missing(s, of_user(username@));
            }
            None
        }
    }

    /// Whether `password` is the password of user `username`: `None` where
    /// the directory is closed or knows no such user, else whether the
    /// password of the first record of that user is `password`.
    pub fn validate_user(&self, username: &str, password: &str) -> (r: Option<bool>)
        ensures
            r == match self.user(username@) {
                Some(c) => Some(c.password == password@),
                None => None,
            },
    {
        match self.get_user(username) {
            Some(c) => Some(same_text(c.password(), password)),
            None => None,
        }
    }
}

impl Default for UserDatabase {
    fn default() -> (db: UserDatabase)
        ensures
            db.location() is None,
            db.records().len() == 0,
    {
        UserDatabase::new()
    }
}

} // verus!
