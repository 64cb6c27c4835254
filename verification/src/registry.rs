//! The file registry: which files the server knows, under which id, and who
//! owns each.
//!
//! Ids are handed out by a counter that never falls, so an id is never given
//! twice by one registry. A new id is one above the counter and above every
//! id that the registry holds. Loading a document raises the counter to the
//! highest id found in it, and closing the registry keeps the counter.

use vstd::prelude::*;
use vstd::string::*;
use crate::credentials::{Credentials, CredentialsView};
use crate::file_io::FileType;
use crate::paths::path_exists;
use crate::record_store::{
    already_open_text, continue_load, load_step_of, next_step, open_step,
    FileEvent, JsonFile, LoadEvent, LoadStep, LoadStepView, SaveRequest,
};
use crate::search::{first_place, lemma_first_found, lemma_first_missing, lemma_first_place};
use crate::text::{decimal, decimal_text, owned_text, same_text, wrap_text};

verus! {

/// One file known to the server.
pub struct ServerFile {
    id: u32,
    path: String,
    kind: FileType,
    owner: Option<Credentials>,
}

/// A `ServerFile` as plain values. No owner means that the file is anyone's.
pub struct ServerFileView {
    pub id: u32,
    pub path: Seq<char>,
    pub kind: FileType,
    pub owner: Option<CredentialsView>,
}

/// The view of an owner, if there is one.
pub open spec fn owner_view(owner: Option<Credentials>) -> Option<CredentialsView> {
    match owner {
        Some(c) => Some(c@),
        None => None,
    }
}

impl View for ServerFile {
    type V = ServerFileView;

    closed spec fn view(&self) -> ServerFileView {
        ServerFileView {
            id: self.id,
            path: self.path@,
            kind: self.kind,
            owner: owner_view(self.owner),
        }
    }
}

/// Two records are the same file where their ids are equal.
impl PartialEq for ServerFile {
    fn eq(&self, other: &Self) -> (r: bool) {
        self.id == other.id
    }
}

impl vstd::std_specs::cmp::PartialEqSpecImpl for ServerFile {
    open spec fn obeys_eq_spec() -> bool {
        true
    }

    open spec fn eq_spec(&self, other: &Self) -> bool {
        self@.id == other@.id
    }
}

/// A record equals a user where that user owns the file.
impl PartialEq<Credentials> for ServerFile {
    fn eq(&self, other: &Credentials) -> (r: bool) {
        match &self.owner {
            Some(c) => *c == *other,
            None => false,
        }
    }
}

impl vstd::std_specs::cmp::PartialEqSpecImpl<Credentials> for ServerFile {
    open spec fn obeys_eq_spec() -> bool {
        true
    }

    open spec fn eq_spec(&self, other: &Credentials) -> bool {
        self@.owner == Some(other@)
    }
}

impl Clone for ServerFile {
    fn clone(&self) -> (r: Self)
        ensures
            r@ == self@,
    {
        let owner = match &self.owner {
            Some(c) => Some(c.clone()),
            None => None,
        };
        ServerFile { id: self.id, path: self.path.clone(), kind: self.kind, owner }
    }
}

impl ServerFile {
    /// The record with these values, as a persisted document holds it.
    pub fn restore(id: u32, path: String, kind: FileType, owner: Option<Credentials>) -> (f:
        ServerFile)
        ensures
            f@ == (ServerFileView { id, path: path@, kind, owner: owner_view(owner) }),
    {
        ServerFile { id, path, kind, owner }
    }

    pub fn id(&self) -> (r: u32)
        ensures
            r == self@.id,
    {
        self.id
    }

    pub fn path(&self) -> (r: &str)
        ensures
            r@ == self@.path,
    {
        self.path.as_str()
    }

    pub fn owner(&self) -> (r: Option<&Credentials>)
        ensures
            match r {
                Some(c) => self@.owner == Some(c@),
                None => self@.owner is None,
            },
    {
        self.owner.as_ref()
    }

    /// Hands the file to `cred`, or to anyone.
    pub fn set_owner(&mut self, cred: Option<Credentials>)
        ensures
            final(self)@ == (ServerFileView { owner: owner_view(cred), ..old(self)@ }),
    {
        self.owner = cred;
    }

    pub fn file_type(&self) -> (r: FileType)
        ensures
            r == self@.kind,
    {
        self.kind
    }

    /// Whether `user` owns the file: the owner's name and password are
    /// those of `user`. A file that is anyone's is owned by no user.
    pub fn is_owned_by(&self, user: &Credentials) -> (r: bool)
        ensures
            r == (self@.owner == Some(user@)),
    {
        *self == *user
    }
}

/// The records of a list, each by its view.
pub open spec fn file_records(files: Seq<ServerFile>) -> Seq<ServerFileView> {
    files.map_values(|f: ServerFile| f@)
}

/// The property of being the record with id `id`.
pub open spec fn has_id(id: u32) -> spec_fn(ServerFileView) -> bool {
    |f: ServerFileView| f.id == id
}

/// The property of being the record of the file at `path`.
pub open spec fn is_at(path: Seq<char>) -> spec_fn(ServerFileView) -> bool {
    |f: ServerFileView| f.path == path
}

/// The highest id among `s`, and 0 where `s` is empty.
pub open spec fn highest_id(s: Seq<ServerFileView>) -> u32
    decreases s.len(),
{
    if s.len() == 0 {
        0
    } else {
        let rest = highest_id(s.drop_last());
        if s.last().id > rest {
            s.last().id
        } else {
            rest
        }
    }
}

/// No id among `s` is above `counter`.
pub open spec fn ids_bounded(s: Seq<ServerFileView>, counter: u32) -> bool {
    forall|i: int| 0 <= i < s.len() ==> (#[trigger] s[i]).id <= counter
}

/// The highest id that a registry with `records` and `counter` has handed
/// out or holds: the next id is the one after it.
pub open spec fn high_water(records: Seq<ServerFileView>, counter: u32) -> u32 {
    if counter >= highest_id(records) {
        counter
    } else {
        highest_id(records)
    }
}

/// Whether a registration takes an id: the path is held by no record and is
/// on the disk.
pub open spec fn takes_id(records: Seq<ServerFileView>, path: Seq<char>, on_disk: bool) -> bool {
    first_place(records, is_at(path)) is None && on_disk
}

/// No two records of `s` are of the same path.
pub open spec fn paths_distinct(s: Seq<ServerFileView>) -> bool {
    forall|i: int, j: int| 0 <= i < j < s.len() ==> (#[trigger] s[i]).path != (#[trigger] s[j]).path
}

/// The name under which the owner of `f` is reported.
pub open spec fn owner_name(f: ServerFileView) -> Seq<char> {
    match f.owner {
        Some(c) => c.username,
        None => "any"@,
    }
}

/// The text of the error for a path that is registered already.
pub open spec fn taken_text(owner: Seq<char>) -> Seq<char> {
    "path previously contained by owner '"@ + owner + "'"@
}

/// The text of the error for a path that is not on the disk.
pub open spec fn missing_path_text() -> Seq<char> {
    "path provided does not exist"@
}

/// The text of the error for an id that no record has.
pub open spec fn unknown_file_text(id: u32) -> Seq<char> {
    "file not found with id "@ + decimal_text(id as nat)
}

/// The highest id bounds every id, and is the id of some record unless
/// there is none.
pub proof fn lemma_highest_id(s: Seq<ServerFileView>)
    ensures
        ids_bounded(s, highest_id(s)),
        s.len() == 0 ==> highest_id(s) == 0,
        s.len() > 0 ==> exists|i: int| 0 <= i < s.len() && (#[trigger] s[i]).id == highest_id(s),
    decreases s.len(),
{
    if s.len() > 0 {
        let front = s.drop_last();
        lemma_highest_id(front);
        assert forall|i: int| 0 <= i < s.len() implies (#[trigger] s[i]).id <= highest_id(s) by {
            if i < front.len() {
                assert(front[i] == s[i]);
            }
        }
        if s.last().id > highest_id(front) {
            assert(s[s.len() - 1].id == highest_id(s));
        } else {
            if front.len() == 0 {
                assert(s[s.len() - 1].id == highest_id(s));
            } else {
                let i = choose|i: int| 0 <= i < front.len() && (#[trigger] front[i]).id == highest_id(front);
                assert(s[i] == front[i]);
            }
        }
    }
}

/// The registry of files.
///
/// The registry is not synchronized. A server that serves several
/// connections at once keeps it behind one lock, so that the test for a path
/// and the registration of it are one step.
pub struct FileDatabase {
    file: JsonFile,
    data: Vec<ServerFile>,
    curr_id: u32,
}

/// What a registration does to a registry with `records` and `counter`:
/// the answer, the records after it and the counter after it.
pub struct Registration {
    pub answer: Result<u32, Seq<char>>,
    pub records: Seq<ServerFileView>,
    pub counter: u32,
}

/// Registering the file at `path` for `owner`, where `on_disk` tells whether
/// the path exists.
///
/// A path that a record holds already is refused, with the name of that
/// record's owner; so is a path that is not on the disk. Both leave records
/// and counter as they were. Any other path gets the id after the counter
/// and after every id held, and a new record at the end; the counter becomes
/// that id.
pub open spec fn registration(
    records: Seq<ServerFileView>,
    counter: u32,
    path: Seq<char>,
    owner: Option<CredentialsView>,
    kind: FileType,
    on_disk: bool,
) -> Registration {
    match first_place(records, is_at(path)) {
        Some(i) => Registration {
            answer: Err(taken_text(owner_name(records[i]))),
            records,
            counter,
        },
        None => if on_disk {
            let id = (high_water(records, counter) + 1) as u32;
            Registration {
                answer: Ok(id),
                records: records.push(ServerFileView { id, path, kind, owner }),
                counter: id,
            }
        } else {
            Registration { answer: Err(missing_path_text()), records, counter }
        },
    }
}

/// An answer with its error as a character sequence.
pub open spec fn answer_view(r: Result<u32, String>) -> Result<u32, Seq<char>> {
    match r {
        Ok(id) => Ok(id),
        Err(e) => Err(e@),
    }
}

/// A path that some record holds is refused, whoever asks and whether or not
/// it is on the disk, and the registry keeps its records and its counter.
pub proof fn lemma_registered_path_refused(
    records: Seq<ServerFileView>,
    counter: u32,
    path: Seq<char>,
    owner: Option<CredentialsView>,
    kind: FileType,
    on_disk: bool,
    i: int,
)
    requires
        0 <= i < records.len(),
        records[i].path == path,
    ensures
        registration(records, counter, path, owner, kind, on_disk).answer is Err,
        registration(records, counter, path, owner, kind, on_disk).records == records,
        registration(records, counter, path, owner, kind, on_disk).counter == counter,
{
    assert(is_at(path)(records[i]));
    lemma_first_place(records, is_at(path));
}

/// An id that a registration hands out is above the counter and above the id
/// of every record: the registry never handed it out before and does not
/// hold it. After the registration no id is above the counter. A refusal
/// changes nothing. Where no two records share a path, that stays so.
pub proof fn lemma_registration_gives_fresh_id(
    records: Seq<ServerFileView>,
    counter: u32,
    path: Seq<char>,
    owner: Option<CredentialsView>,
    kind: FileType,
    on_disk: bool,
)
    requires
        takes_id(records, path, on_disk) ==> high_water(records, counter) < u32::MAX,
    ensures
        ({
            let after = registration(records, counter, path, owner, kind, on_disk);
            &&& after.counter >= counter
            &&& paths_distinct(records) ==> paths_distinct(after.records)
            &&& after.answer is Ok == takes_id(records, path, on_disk)
            &&& after.answer matches Ok(id) ==> {
                &&& id == high_water(records, counter) + 1
                &&& id > counter
                &&& forall|k: int| 0 <= k < records.len() ==> (#[trigger] records[k]).id < id
                &&& after.counter == id
                &&& after.records == records.push(ServerFileView { id, path, kind, owner })
                &&& ids_bounded(after.records, after.counter)
            }
            &&& after.answer is Err ==> after.records == records && after.counter == counter
        }),
{
    let after = registration(records, counter, path, owner, kind, on_disk);
    lemma_first_place(records, is_at(path));
    lemma_highest_id(records);
    if after.answer is Ok {
        assert forall|i: int, j: int| 0 <= i < j < after.records.len() && paths_distinct(
            records,
        ) implies (#[trigger] after.records[i]).path != (#[trigger] after.records[j]).path by {
            if j == records.len() {
                assert(!is_at(path)(records[i]));
            }
        }
    }
}

/// Of two registrations made one after the other, the second id is the
/// higher one.
pub proof fn lemma_ids_increase(
    records: Seq<ServerFileView>,
    counter: u32,
    first_path: Seq<char>,
    first_owner: Option<CredentialsView>,
    first_kind: FileType,
    first_on_disk: bool,
    second_path: Seq<char>,
    second_owner: Option<CredentialsView>,
    second_kind: FileType,
    second_on_disk: bool,
)
    requires
        high_water(records, counter) < u32::MAX - 1,
    ensures
        ({
            let one = registration(
                records,
                counter,
                first_path,
                first_owner,
                first_kind,
                first_on_disk,
            );
            let two = registration(
                one.records,
                one.counter,
                second_path,
                second_owner,
                second_kind,
                second_on_disk,
            );
            one.answer matches Ok(a) ==> (two.answer matches Ok(b) ==> a < b)
        }),
{
    let one = registration(records, counter, first_path, first_owner, first_kind, first_on_disk);
    lemma_registration_gives_fresh_id(
        records,
        counter,
        first_path,
        first_owner,
        first_kind,
        first_on_disk,
    );
    if one.answer is Ok {
        lemma_highest_id(one.records);
        assert(high_water(one.records, one.counter) == one.counter);
        lemma_registration_gives_fresh_id(
            one.records,
            one.counter,
            second_path,
            second_owner,
            second_kind,
            second_on_disk,
        );
    }
}

/// The counter of a registry whose counter was `counter` and that was loaded
/// with `loaded`: it is raised to the highest id of the document and never
/// lowered.
pub open spec fn counter_after_load(counter: u32, loaded: Seq<ServerFileView>) -> u32 {
    high_water(loaded, counter)
}

/// A registry that hands out an id and is then loaded from a document,
/// whatever the document holds, hands out only higher ids afterwards: above
/// the id it gave before the reload, though that record be gone from the
/// document, and above every id of the document.
pub proof fn lemma_ids_after_reload(
    counter: u32,
    loaded: Seq<ServerFileView>,
    path: Seq<char>,
    owner: Option<CredentialsView>,
    kind: FileType,
    on_disk: bool,
)
    requires
        high_water(loaded, counter) < u32::MAX,
    ensures
        counter_after_load(counter, loaded) >= counter,
        ids_bounded(loaded, counter_after_load(counter, loaded)),
        registration(
            loaded,
            counter_after_load(counter, loaded),
            path,
            owner,
            kind,
            on_disk,
        ).answer matches Ok(id) ==> id > counter && forall|k: int|
            0 <= k < loaded.len() ==> (#[trigger] loaded[k]).id < id,
{
    lemma_highest_id(loaded);
    lemma_registration_gives_fresh_id(
        loaded,
        counter_after_load(counter, loaded),
        path,
        owner,
        kind,
        on_disk,
    );
}

/// The higher of `floor` and the highest id among `files`.
fn highest_of(files: &Vec<ServerFile>, floor: u32) -> (top: u32)
    ensures
        top == high_water(file_records(files@), floor),
{
    let ghost s = file_records(files@);
    let mut top: u32 = 0;
    let mut i: usize = 0;
    while i < files.len()
        invariant
            i <= files.len(),
            s == file_records(files@),
            top == highest_id(s.take(i as int)),
        decreases files.len() - i,
    {
        assert(s.take(i + 1).drop_last() == s.take(i as int));
        assert(s.take(i + 1).last() == files[i as int]@);
        if files[i].id > top {
            top = files[i].id;
        }
        i += 1;
    }
    assert(s.take(i as int) == s);
    if floor >= top {
        floor
    } else {
        top
    }
}

impl FileDatabase {
    /// The path at which the registry is open, if it is.
    pub closed spec fn location(&self) -> Option<Seq<char>> {
        self.file.location()
    }

    /// The records held, oldest first.
    pub closed spec fn records(&self) -> Seq<ServerFileView> {
        file_records(self.data@)
    }

    /// The last id that was handed out, or the highest id that was loaded.
    pub closed spec fn counter(&self) -> u32 {
        self.curr_id
    }

    /// A closed registry without records, whose first id will be 1.
    pub fn new() -> (db: FileDatabase)
        ensures
            db.location() is None,
            db.records().len() == 0,
            db.counter() == 0,
    {
        FileDatabase { file: JsonFile::new(), data: Vec::new(), curr_id: 0 }
    }

    /// Whether the registry is open.
    pub fn is_open(&self) -> (r: bool)
        ensures
            r == (self.location() is Some),
    {
        self.file.is_open()
    }

    /// The highest id that the registry has handed out or holds.
    fn high_water_mark(&self) -> (top: u32)
        ensures
            top == high_water(self.records(), self.counter()),
    {
        highest_of(&self.data, self.curr_id)
    }

    /// Whether an id is left to hand out.
    pub fn has_free_id(&self) -> (r: bool)
        ensures
            r == (high_water(self.records(), self.counter()) < u32::MAX),
    {
        self.high_water_mark() < u32::MAX
    }

    /// The place of the first record with id `id`.
    fn place_of_id(&self, id: u32) -> (r: Option<usize>)
        ensures
            match r {
                Some(i) => first_place(self.records(), has_id(id)) == Some(i as int) && i
                    < self.data.len(),
                None => first_place(self.records(), has_id(id)) is None,
            },
    {
        let ghost s = self.records();
        let mut i: usize = 0;
        while i < self.data.len()
            invariant
                i <= self.data.len(),
                s == file_records(self.data@),
                forall|j: int| 0 <= j < i ==> !has_id(id)(#[trigger] s[j]),
            decreases self.data.len() - i,
        {
            assert(s[i as int] == self.data[i as int]@);
            if self.data[i].id == id {
                proof {
                    lemma_first_found(s, has_id(id), i as int);
                }
                return Some(i);
            }
            i += 1;
        }
        proof {
            lemma_first_missing(s, has_id(id));
        }
        None
    }

    /// The place of the first record of the file at `path`.
    fn place_of_path(&self, path: &str) -> (r: Option<usize>)
        ensures
            match r {
                Some(i) => first_place(self.records(), is_at(path@)) == Some(i as int) && i
                    < self.data.len(),
                None => first_place(self.records(), is_at(path@)) is None,
            },
    {
        let ghost s = self.records();
        let mut i: usize = 0;
        while i < self.data.len()
            invariant
                i <= self.data.len(),
                s == file_records(self.data@),
                forall|j: int| 0 <= j < i ==> !is_at(path@)(#[trigger] s[j]),
            decreases self.data.len() - i,
        {
            assert(s[i as int] == self.data[i as int]@);
            if same_text(self.data[i].path.as_str(), path) {
                proof {
                    lemma_first_found(s, is_at(path@), i as int);
                }
                return Some(i);
            }
            i += 1;
        }
        proof {
            lemma_first_missing(s, is_at(path@));
        }
        None
    }

    /// The step by which a registry whose recorded path is `current` answers
    /// `event`, when `path` is to be opened: a document that was read or
    /// created is to be decoded, any decoded list is taken, and a document
    /// that does not decode fails with the decoder's own words.
    pub open spec fn load_step(
        current: Option<Seq<char>>,
        path: Seq<char>,
        event: LoadEvent<ServerFile>,
    ) -> LoadStepView {
        match current {
            Some(p) => LoadStepView::Failed(already_open_text(p)),
            None => match event {
                LoadEvent::File(ev) => load_step_of(open_step(None, path, ev)),
                LoadEvent::Parsed(_) => LoadStepView::Loaded,
                LoadEvent::ParseFailed(reason) => LoadStepView::Failed(reason@),
            },
        }
    }

    /// One exchange of the opening of `path`.
    ///
    /// An open registry refuses every event and names the path it holds. A
    /// closed one has the file read, or created when it cannot be read, and
    /// the text decoded. With the decoded list it becomes open: it holds
    /// that list, and its counter is raised to the highest id in it, never
    /// lowered. So the next id is above every id of the document and above
    /// every id that this registry handed out before. Any other event leaves
    /// it as it was.
    pub fn open(&mut self, path: &str, event: LoadEvent<ServerFile>) -> (step: LoadStep)
        ensures
            step@ == FileDatabase::load_step(old(self).location(), path@, event),
            old(self).location() is None && event is Parsed ==> {
                &&& final(self).location() == Some(path@)
                &&& final(self).records() == file_records(event->Parsed_0@)
                &&& final(self).counter() == counter_after_load(
                    old(self).counter(),
                    final(self).records(),
                )
                &&& ids_bounded(final(self).records(), final(self).counter())
            },
            !(old(self).location() is None && event is Parsed) ==> {
                &&& final(self).location() == old(self).location()
                &&& final(self).records() == old(self).records()
                &&& final(self).counter() == old(self).counter()
            },
            final(self).counter() >= old(self).counter(),
    {
        if self.file.is_open() {
            return continue_load(next_step(self.file.path(), path, FileEvent::Begin));
        }
        match event {
            LoadEvent::File(ev) => continue_load(next_step(None, path, ev)),
            LoadEvent::Parsed(files) => {
                let top = highest_of(&files, self.curr_id);
                proof {
                    lemma_highest_id(file_records(files@));
                }
                self.file.attach(path);
                self.data = files;
                self.curr_id = top;
                LoadStep::Loaded
            },
            LoadEvent::ParseFailed(reason) => LoadStep::Failed(reason),
        }
    }

    /// What is to be persisted: nothing while the registry is closed, else
    /// all records, for the recorded path.
    pub fn save(&self) -> (request: SaveRequest<ServerFile>)
        ensures
            match request {
                SaveRequest::Nothing => self.location() is None,
                SaveRequest::Write { path, records } => {
                    &&& self.location() == Some(path@)
                    &&& file_records(records@) == self.records()
                },
            },
    {
        match self.file.path() {
            None => SaveRequest::Nothing,
            Some(p) => {
                let mut records: Vec<ServerFile> = Vec::new();
                let mut i: usize = 0;
                while i < self.data.len()
                    invariant
                        i <= self.data.len(),
                        records.len() == i,
                        forall|k: int| 0 <= k < i ==> (#[trigger] records[k])@ == self.data[k]@,
                    decreases self.data.len() - i,
                {
                    records.push(self.data[i].clone());
                    i += 1;
                }
                assert(file_records(records@) =~= file_records(self.data@));
                SaveRequest::Write { path: owned_text(p), records }
            },
        }
    }

    /// Forgets the records and the path: the registry is closed, and looks
    /// up nothing until it is opened again. The counter is the one thing it
    /// keeps, so that this registry hands out no id a second time: the first
    /// id after a close is the one after the last id before it, not 1.
    pub fn close(&mut self)
        ensures
            final(self).location() is None,
            final(self).records().len() == 0,
            final(self).counter() == old(self).counter(),
    {
        self.data.clear();
        self.file.close();
    }

    /// The first record with id `id`, to be changed in place. What the
    /// caller writes through the reference takes that record's place and
    /// nothing else changes.
    pub fn get_file_mut(&mut self, id: u32) -> (r: Option<&mut ServerFile>)
        ensures
            final(self).location() == old(self).location(),
            final(self).counter() == old(self).counter(),
            match r {
                Some(f) => first_place(old(self).records(), has_id(id)) matches Some(i) && (*f)@
                    == old(self).records()[i] && final(self).records() == old(self).records().update(i, (*final(f))@),
                None => first_place(old(self).records(), has_id(id)) is None && final(self).records() == old(self).records(),
            },
    {
        match self.place_of_id(id) {
            Some(i) => {
                let ghost s = self.records();
                assert(s[i as int] == self.data[i as int]@);
                let found = &mut self.data[i];
                proof {
                    assert(file_records(old(self).data@.update(i as int, *final(found))) =~= s.update(
                        i as int,
                        (*final(found))@,
                    ));
                }
                Some(found)
            },
            None => None,
        }
    }

    /// Hands the file with id `id` to `user`. An id that no record has is
    /// refused and changes nothing; else the first record with that id gets
    /// the new owner and keeps everything else.
    pub fn set_file_owner(&mut self, id: u32, user: Credentials) -> (r: Result<(), String>)
        ensures
            final(self).location() == old(self).location(),
            final(self).counter() == old(self).counter(),
            match first_place(old(self).records(), has_id(id)) {
                Some(i) => r is Ok && final(self).records() == old(self).records().update(
                    i,
                    ServerFileView { owner: Some(user@), ..old(self).records()[i] },
                ),
                None => r matches Err(e) && e@ == unknown_file_text(id) && final(self).records() == old(self).records(),
            },
    {
        match self.get_file_mut(id) {
            Some(file) => {
                file.set_owner(Some(user));
                Ok(())
            },
            None => {
                let mut text = owned_text("file not found with id ");
                let number = decimal(id);
                text.append(number.as_str());
                Err(text)
            },
        }
    }

    /// Registers the file at `path`, told by `on_disk` whether the path
    /// exists: see `registration`. An id must be left where one is taken; a
    /// path that is refused needs none.
    pub fn register_checked(
        &mut self,
        path: String,
        owner: Option<Credentials>,
        kind: FileType,
        on_disk: bool,
    ) -> (r: Result<u32, String>)
        requires
            takes_id(old(self).records(), path@, on_disk) ==> high_water(
                old(self).records(),
                old(self).counter(),
            ) < u32::MAX,
        ensures
            final(self).location() == old(self).location(),
            (Registration {
                answer: answer_view(r),
                records: final(self).records(),
                counter: final(self).counter(),
            }) == registration(
                old(self).records(),
                old(self).counter(),
                path@,
                owner_view(owner),
                kind,
                on_disk,
            ),
            (r is Ok) == takes_id(old(self).records(), path@, on_disk),
            r matches Ok(id) ==> {
                &&& id > old(self).counter()
                &&& forall|k: int|
                    0 <= k < old(self).records().len() ==> (#[trigger] old(self).records()[k]).id
                        < id
                &&& ids_bounded(final(self).records(), final(self).counter())
            },
            final(self).counter() >= old(self).counter(),
    {
        proof {
            lemma_registration_gives_fresh_id(
                self.records(),
                self.counter(),
                path@,
                owner_view(owner),
                kind,
                on_disk,
            );
        }
        match self.place_of_path(path.as_str()) {
            Some(i) => {
                assert(self.records()[i as int] == self.data[i as int]@);
                let name = match self.data[i].owner() {
                    Some(u) => u.username(),
                    None => "any",
                };
                return Err(wrap_text("path previously contained by owner '", name, "'"));
            },
            None => {},
        }
        if !on_disk {
            return Err(owned_text("path provided does not exist"));
        }
        let id = self.high_water_mark() + 1;
        let ghost before = self.records();
        let file = ServerFile { id, path, kind, owner };
        self.data.push(file);
        self.curr_id = id;
        assert(self.records() =~= before.push(file@));
        Ok(id)
    }

    /// Registers the file at `path` for `owner`, or for anyone.
    ///
    /// Whether the path exists is asked of the file system, so the contract
    /// holds for one of the two answers: the registration is that of
    /// `register_checked` for the answer that came. A path that the registry
    /// holds is refused whatever the disk says, and needs no id; for any
    /// other path an id must be left, since the disk may say that it exists.
    pub fn register_file(&mut self, path: String, owner: Option<Credentials>, kind: FileType) -> (r:
        Result<u32, String>)
        requires
            first_place(old(self).records(), is_at(path@)) is None ==> high_water(
                old(self).records(),
                old(self).counter(),
            ) < u32::MAX,
        ensures
            final(self).location() == old(self).location(),
            exists|on_disk: bool|
                (Registration {
                    answer: answer_view(r),
                    records: final(self).records(),
                    counter: final(self).counter(),
                }) == #[trigger] registration(
                    old(self).records(),
                    old(self).counter(),
                    path@,
                    owner_view(owner),
                    kind,
                    on_disk,
                ),
            first_place(old(self).records(), is_at(path@)) is Some ==> r is Err,
            r matches Ok(id) ==> {
                &&& id > old(self).counter()
                &&& forall|k: int|
                    0 <= k < old(self).records().len() ==> (#[trigger] old(self).records()[k]).id
                        < id
                &&& ids_bounded(final(self).records(), final(self).counter())
            },
            final(self).counter() >= old(self).counter(),
    {
        let on_disk = path_exists(path.as_str());
        self.register_checked(path, owner, kind, on_disk)
    }

    /// The first record with id `id`.
    pub fn get_file(&self, id: u32) -> (r: Option<&ServerFile>)
        ensures
            match r {
                Some(f) => first_place(self.records(), has_id(id)) matches Some(i) && f@
                    == self.records()[i],
                None => first_place(self.records(), has_id(id)) is None,
            },
    {
        match self.place_of_id(id) {
            Some(i) => {
                assert(self.records()[i as int] == self.data[i as int]@);
                Some(&self.data[i])
            },
            None => None,
        }
    }

    /// The id of the first record of the file at `path`.
    pub fn get_file_id(&self, path: &str) -> (r: Option<u32>)
        ensures
            r == match first_place(self.records(), is_at(path@)) {
                Some(i) => Some(self.records()[i].id),
                None => None,
            },
    {
        match self.place_of_path(path) {
            Some(i) => {
                assert(self.records()[i as int] == self.data[i as int]@);
                Some(self.data[i].id)
            },
            None => None,
        }
    }
}

impl Default for FileDatabase {
    fn default() -> (db: FileDatabase)
        ensures
            db.location() is None,
            db.records().len() == 0,
            db.counter() == 0,
    {
        FileDatabase::new()
    }
}

} // verus!
