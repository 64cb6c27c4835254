//! Kinds of files, and the snapshot of a directory tree.

use vstd::prelude::*;
use vstd::string::*;
use crate::paths::{extension_of, path_extension};
use crate::text::{owned_text, same_text, wrap_text};

verus! {

/// What a file holds, as far as its name tells.
#[derive(Clone, Copy, Debug, PartialEq, Eq, Structural)]
pub enum FileType {
    Text,
    Audio,
    Video,
    Binary,
    Archive,
}

impl FileType {
    /// The word that stands for this kind on the wire.
    pub open spec fn label(self) -> Seq<char> {
        match self {
            FileType::Text => "text"@,
            FileType::Audio => "audio"@,
            FileType::Video => "video"@,
            FileType::Binary => "binary"@,
            FileType::Archive => "archive"@,
        }
    }

    /// The kind that the word `s` stands for, if any.
    pub open spec fn of_label(s: Seq<char>) -> Option<FileType> {
        if s == "text"@ {
            Some(FileType::Text)
        } else if s == "audio"@ {
            Some(FileType::Audio)
        } else if s == "video"@ {
            Some(FileType::Video)
        } else if s == "binary"@ {
            Some(FileType::Binary)
        } else if s == "archive"@ {
            Some(FileType::Archive)
        } else {
            None
        }
    }

    /// The kind of a file whose name ends in the extension `ext`, if the
    /// extension is a known one.
    pub open spec fn of_extension(ext: Seq<char>) -> Option<FileType> {
        if ext == "mp4"@ || ext == "mov"@ || ext == "avi"@ || ext == "wvm"@ {
            Some(FileType::Video)
        } else if ext == "mp3"@ || ext == "wav"@ || ext == "aac"@ || ext == "flac"@ || ext
            == "aiff"@ {
            Some(FileType::Audio)
        } else if ext == "pdf"@ || ext == "docx"@ || ext == "pptx"@ || ext == "xlsx"@ {
            Some(FileType::Binary)
        } else if ext == "tar"@ || ext == "gz"@ || ext == "zip"@ {
            Some(FileType::Archive)
        } else if ext == "txt"@ || ext == "rtf"@ || ext == "md"@ {
            Some(FileType::Text)
        } else {
            None
        }
    }

    /// The text of the error for a word that stands for no kind.
    pub open spec fn unknown_label_text(s: Seq<char>) -> Seq<char> {
        "could not deduce file type from '"@ + s + "'"@
    }

    /// The word of this kind.
    pub fn to_string(&self) -> (s: String)
        ensures
            s@ == self.label(),
    {
        match self {
            FileType::Text => owned_text("text"),
            FileType::Audio => owned_text("audio"),
            FileType::Video => owned_text("video"),
            FileType::Binary => owned_text("binary"),
            FileType::Archive => owned_text("archive"),
        }
    }

    /// The kind that `s` stands for; an error that quotes `s` where it stands
    /// for none.
    pub fn from_str(s: &str) -> (r: Result<FileType, String>)
        ensures
            match r {
                Ok(kind) => FileType::of_label(s@) == Some(kind),
                Err(e) => FileType::of_label(s@) is None && e@ == FileType::unknown_label_text(
                    s@,
                ),
            },
    {
        if same_text(s, "text") {
            Ok(FileType::Text)
        } else if same_text(s, "audio") {
            Ok(FileType::Audio)
        } else if same_text(s, "video") {
            Ok(FileType::Video)
        } else if same_text(s, "binary") {
            Ok(FileType::Binary)
        } else if same_text(s, "archive") {
            Ok(FileType::Archive)
        } else {
            Err(wrap_text("could not deduce file type from '", s, "'"))
        }
    }
}

/// Every kind is found again from its word.
pub proof fn lemma_file_type_label_round_trip(kind: FileType)
    ensures
        FileType::of_label(kind.label()) == Some(kind),
{
    reveal_strlit("text");
    reveal_strlit("audio");
    reveal_strlit("video");
    reveal_strlit("binary");
    reveal_strlit("archive");
    assert("text"@.len() == 4);
    assert("audio"@.len() == 5 && "audio"@[0] == 'a');
    assert("video"@.len() == 5 && "video"@[0] == 'v');
    assert("binary"@.len() == 6);
    assert("archive"@.len() == 7);
}

/// The kind of a file with extension `ext`: the table of known extensions.
pub fn file_type_of_extension(ext: &str) -> (r: Option<FileType>)
    ensures
        r == FileType::of_extension(ext@),
{
    if same_text(ext, "mp4") || same_text(ext, "mov") || same_text(ext, "avi") || same_text(
        ext,
        "wvm",
    ) {
        Some(FileType::Video)
    } else if same_text(ext, "mp3") || same_text(ext, "wav") || same_text(ext, "aac")
        || same_text(ext, "flac") || same_text(ext, "aiff") {
        Some(FileType::Audio)
    } else if same_text(ext, "pdf") || same_text(ext, "docx") || same_text(ext, "pptx")
        || same_text(ext, "xlsx") {
        Some(FileType::Binary)
    } else if same_text(ext, "tar") || same_text(ext, "gz") || same_text(ext, "zip") {
        Some(FileType::Archive)
    } else if same_text(ext, "txt") || same_text(ext, "rtf") || same_text(ext, "md") {
        Some(FileType::Text)
    } else {
        None
    }
}

/// The kind of the file at `path`, by its extension: none where the path has
/// no extension or an unknown one.
pub fn get_file_type(path: &str) -> (r: Option<FileType>)
    ensures
        r == match extension_of(path@) {
            Some(ext) => FileType::of_extension(ext),
            None => None,
        },
{
    match path_extension(path) {
        Some(ext) => file_type_of_extension(ext.as_str()),
        None => None,
    }
}

/// One file of a directory listing.
#[derive(Debug)]
pub struct FileInfo {
    name: String,
    kind: FileType,
    owner: String,
    size: u32,
}

/// A `FileInfo` as plain values.
pub struct FileInfoView {
    pub name: Seq<char>,
    pub kind: FileType,
    pub owner: Seq<char>,
    pub size: u32,
}

impl View for FileInfo {
    type V = FileInfoView;

    closed spec fn view(&self) -> FileInfoView {
        FileInfoView { name: self.name@, kind: self.kind, owner: self.owner@, size: self.size }
    }
}

impl Clone for FileInfo {
    fn clone(&self) -> (r: Self)
        ensures
            r@ == self@,
    {
        FileInfo {
            name: self.name.clone(),
            kind: self.kind,
            owner: self.owner.clone(),
            size: self.size,
        }
    }
}

/// Two files of a listing are equal where all their fields are.
impl PartialEq for FileInfo {
    fn eq(&self, other: &Self) -> (r: bool) {
        self.name == other.name && self.kind == other.kind && self.owner == other.owner
            && self.size == other.size
    }
}

impl vstd::std_specs::cmp::PartialEqSpecImpl for FileInfo {
    open spec fn obeys_eq_spec() -> bool {
        true
    }

    open spec fn eq_spec(&self, other: &Self) -> bool {
        self@ == other@
    }
}

impl FileInfo {
    pub fn new(name: String, owner: String, kind: FileType, size: u32) -> (f: FileInfo)
        ensures
            f@ == (FileInfoView { name: name@, kind, owner: owner@, size }),
    {
        FileInfo { name, owner, kind, size }
    }

    pub fn name(&self) -> (r: &str)
        ensures
            r@ == self@.name,
    {
        self.name.as_str()
    }

    pub fn kind(&self) -> (r: FileType)
        ensures
            r == self@.kind,
    {
        self.kind
    }

    pub fn owner(&self) -> (r: &str)
        ensures
            r@ == self@.owner,
    {
        self.owner.as_str()
    }

    pub fn size(&self) -> (r: u32)
        ensures
            r == self@.size,
    {
        self.size
    }
}

/// One entry of a directory listing: a file, or a directory with its own
/// listing.
#[derive(Debug)]
pub enum DirectoryContent {
    File(FileInfo),
    Dir(DirectoryInfo),
}

/// The listing of one directory, a snapshot taken at some moment.
#[derive(Debug)]
pub struct DirectoryInfo {
    name: String,
    contents: Vec<DirectoryContent>,
}

/// A `DirectoryContent` as plain values.
pub enum DirectoryContentView {
    File(FileInfoView),
    Dir(DirectoryInfoView),
}

/// A `DirectoryInfo` as plain values.
pub struct DirectoryInfoView {
    pub name: Seq<char>,
    pub contents: Seq<DirectoryContentView>,
}

impl View for DirectoryContent {
    type V = DirectoryContentView;

    open spec fn view(&self) -> DirectoryContentView
        decreases self,
    {
        match self {
            DirectoryContent::File(f) => DirectoryContentView::File(f@),
            DirectoryContent::Dir(d) => DirectoryContentView::Dir(d@),
        }
    }
}

impl View for DirectoryInfo {
    type V = DirectoryInfoView;

    closed spec fn view(&self) -> DirectoryInfoView
        decreases self,
    {
        DirectoryInfoView {
            name: self.name@,
            contents: Seq::new(
                self.contents@.len(),
                |i: int|
                    if 0 <= i < self.contents@.len() {
                        self.contents@[i]@
                    } else {
                        DirectoryContentView::Dir(
                            DirectoryInfoView { name: Seq::empty(), contents: Seq::empty() },
                        )
                    },
            ),
        }
    }
}

impl Clone for DirectoryContent {
    fn clone(&self) -> (r: Self)
        ensures
            r@ == self@,
    {
        self.duplicate()
    }
}

impl Clone for DirectoryInfo {
    fn clone(&self) -> (r: Self)
        ensures
            r@ == self@,
    {
        self.duplicate()
    }
}

/// Two entries are equal where both are files, or both directories, and
/// these are equal.
impl PartialEq for DirectoryContent {
    fn eq(&self, other: &Self) -> (r: bool) {
        self.same_as(other)
    }
}

impl vstd::std_specs::cmp::PartialEqSpecImpl for DirectoryContent {
    open spec fn obeys_eq_spec() -> bool {
        true
    }

    open spec fn eq_spec(&self, other: &Self) -> bool {
        self@ == other@
    }
}

/// Two listings are equal where their names are and their entries, place by
/// place, down to the last file.
impl PartialEq for DirectoryInfo {
    fn eq(&self, other: &Self) -> (r: bool) {
        self.same_as(other)
    }
}

impl vstd::std_specs::cmp::PartialEqSpecImpl for DirectoryInfo {
    open spec fn obeys_eq_spec() -> bool {
        true
    }

    open spec fn eq_spec(&self, other: &Self) -> bool {
        self@ == other@
    }
}

impl DirectoryContent {
    /// A copy of the entry, with copies of all that lies below it.
    pub fn duplicate(&self) -> (r: DirectoryContent)
        ensures
            r@ == self@,
        decreases self,
    {
        match self {
            DirectoryContent::File(f) => DirectoryContent::File(f.clone()),
            DirectoryContent::Dir(d) => DirectoryContent::Dir(d.duplicate()),
        }
    }

    /// Whether the two entries hold the same.
    pub fn same_as(&self, other: &DirectoryContent) -> (r: bool)
        ensures
            r == (self@ == other@),
        decreases self,
    {
        match (self, other) {
            (DirectoryContent::File(a), DirectoryContent::File(b)) => *a == *b,
            (DirectoryContent::Dir(a), DirectoryContent::Dir(b)) => a.same_as(b),
            _ => false,
        }
    }

    pub fn is_file(&self) -> (r: bool)
        ensures
            r == (self is File),
    {
        match self {
            DirectoryContent::File(_) => true,
            DirectoryContent::Dir(_) => false,
        }
    }

    pub fn is_directory(&self) -> (r: bool)
        ensures
            r == (self is Dir),
    {
        match self {
            DirectoryContent::File(_) => false,
            DirectoryContent::Dir(_) => true,
        }
    }

    pub fn as_file(self) -> (r: Option<FileInfo>)
        ensures
            r == match self {
                DirectoryContent::File(f) => Some(f),
                DirectoryContent::Dir(_) => None,
            },
    {
        match self {
            DirectoryContent::File(f) => Some(f),
            _ => None,
        }
    }

    pub fn as_directory(self) -> (r: Option<DirectoryInfo>)
        ensures
            r == match self {
                DirectoryContent::Dir(d) => Some(d),
                DirectoryContent::File(_) => None,
            },
    {
        match self {
            DirectoryContent::Dir(d) => Some(d),
            _ => None,
        }
    }

    pub fn as_file_ref(&self) -> (r: Option<&FileInfo>)
        ensures
            r == match self {
                DirectoryContent::File(f) => Some(f),
                DirectoryContent::Dir(_) => None,
            },
    {
        match self {
            DirectoryContent::File(f) => Some(f),
            _ => None,
        }
    }

    pub fn as_directory_ref(&self) -> (r: Option<&DirectoryInfo>)
        ensures
            r == match self {
                DirectoryContent::Dir(d) => Some(d),
                DirectoryContent::File(_) => None,
            },
    {
        match self {
            DirectoryContent::Dir(d) => Some(d),
            _ => None,
        }
    }
}

/// The files among `entries`, in their order.
pub open spec fn files_in(entries: Seq<DirectoryContent>) -> Seq<FileInfo>
    decreases entries.len(),
{
    if entries.len() == 0 {
        Seq::empty()
    } else {
        let rest = files_in(entries.drop_last());
        match entries.last() {
            DirectoryContent::File(f) => rest.push(f),
            DirectoryContent::Dir(_) => rest,
        }
    }
}

/// The directories among `entries`, in their order.
pub open spec fn directories_in(entries: Seq<DirectoryContent>) -> Seq<DirectoryInfo>
    decreases entries.len(),
{
    if entries.len() == 0 {
        Seq::empty()
    } else {
        let rest = directories_in(entries.drop_last());
        match entries.last() {
            DirectoryContent::File(_) => rest,
            DirectoryContent::Dir(d) => rest.push(d),
        }
    }
}

impl DirectoryInfo {
    /// The name of the directory.
    pub closed spec fn label(&self) -> Seq<char> {
        self.name@
    }

    /// The entries of the directory, in the order of the listing.
    pub closed spec fn entries(&self) -> Seq<DirectoryContent> {
        self.contents@
    }

    /// The listing of the directory called `name`, with `contents`.
    pub fn new(name: String, contents: Vec<DirectoryContent>) -> (d: DirectoryInfo)
        ensures
            d.label() == name@,
            d.entries() == contents@,
    {
        DirectoryInfo { name, contents }
    }

    pub fn name(&self) -> (r: &str)
        ensures
            r@ == self.label(),
    {
        self.name.as_str()
    }

    pub fn contents(&self) -> (r: &Vec<DirectoryContent>)
        ensures
            r@ == self.entries(),
    {
        &self.contents
    }

    /// The files of the directory itself, in the order of the listing.
    pub fn get_files(&self) -> (r: Vec<&FileInfo>)
        ensures
            r@.map_values(|f: &FileInfo| *f) == files_in(self.entries()),
    {
        self.spill_ref().0
    }

    /// The directories right below this one, in the order of the listing.
    pub fn get_directories(&self) -> (r: Vec<&DirectoryInfo>)
        ensures
            r@.map_values(|d: &DirectoryInfo| *d) == directories_in(self.entries()),
    {
        self.spill_ref().1
    }

    /// The entries, parted into files and directories; each part keeps the
    /// order of the listing.
    pub fn spill_ref(&self) -> (r: (Vec<&FileInfo>, Vec<&DirectoryInfo>))
        ensures
            r.0@.map_values(|f: &FileInfo| *f) == files_in(self.entries()),
            r.1@.map_values(|d: &DirectoryInfo| *d) == directories_in(self.entries()),
    {
        let mut files: Vec<&FileInfo> = Vec::new();
        let mut dirs: Vec<&DirectoryInfo> = Vec::new();
        let ghost all = self.contents@;
        let mut i: usize = 0;
        while i < self.contents.len()
            invariant
                i <= self.contents.len(),
                all == self.contents@,
                files@.map_values(|f: &FileInfo| *f) == files_in(all.take(i as int)),
                dirs@.map_values(|d: &DirectoryInfo| *d) == directories_in(all.take(i as int)),
            decreases self.contents.len() - i,
        {
            assert(all.take(i + 1).drop_last() == all.take(i as int));
            assert(all.take(i + 1).last() == all[i as int]);
            let ghost old_files = files@;
            let ghost old_dirs = dirs@;
            match &self.contents[i] {
                DirectoryContent::File(f) => {
                    files.push(f);
                    assert(files@.map_values(|f: &FileInfo| *f) =~= old_files.map_values(
                        |f: &FileInfo| *f,
                    ).push(*f));
                },
                DirectoryContent::Dir(d) => {
                    dirs.push(d);
                    assert(dirs@.map_values(|d: &DirectoryInfo| *d) =~= old_dirs.map_values(
                        |d: &DirectoryInfo| *d,
                    ).push(*d));
                },
            }
            i += 1;
        }
        assert(all.take(i as int) == all);
        (files, dirs)
    }

    /// Takes the listing apart into its files and its directories; each
    /// part keeps the order of the listing.
    pub fn spill(self) -> (r: (Vec<FileInfo>, Vec<DirectoryInfo>))
        ensures
            r.0@ == files_in(self.entries()),
            r.1@ == directories_in(self.entries()),
    {
        let mut files: Vec<FileInfo> = Vec::new();
        let mut dirs: Vec<DirectoryInfo> = Vec::new();
        let ghost all = self.contents@;
        let contents = self.contents;
        for item in iter: contents
            invariant
                iter.seq() == all,
                files@ == files_in(all.take(iter.index() as int)),
                dirs@ == directories_in(all.take(iter.index() as int)),
        {
            assert(all.take(iter.index() + 1).drop_last() == all.take(iter.index() as int));
            assert(all.take(iter.index() + 1).last() == item);
            match item {
                DirectoryContent::File(f) => files.push(f),
                DirectoryContent::Dir(d) => dirs.push(d),
            }
        }
        assert(all.take(all.len() as int) == all);
        (files, dirs)
    }

    /// A copy of the listing, with copies of all that lies below it.
    pub fn duplicate(&self) -> (r: DirectoryInfo)
        ensures
            r@ == self@,
        decreases self,
    {
        let mut contents: Vec<DirectoryContent> = Vec::new();
        let mut i: usize = 0;
        while i < self.contents.len()
            invariant
                i <= self.contents.len(),
                contents.len() == i,
                forall|k: int| 0 <= k < i ==> (#[trigger] contents[k])@ == self.contents[k]@,
            decreases self.contents.len() - i,
        {
            contents.push(self.contents[i].duplicate());
            i += 1;
        }
        let copy = DirectoryInfo { name: self.name.clone(), contents };
        assert(copy@.contents =~= self@.contents);
        copy
    }

    /// Whether the two listings hold the same.
    pub fn same_as(&self, other: &DirectoryInfo) -> (r: bool)
        ensures
            r == (self@ == other@),
        decreases self,
    {
        if !(self.name == other.name) || self.contents.len() != other.contents.len() {
            assert(self@.contents.len() == self.contents.len());
            assert(other@.contents.len() == other.contents.len());
            return false;
        }
        let mut i: usize = 0;
        while i < self.contents.len()
            invariant
                i <= self.contents.len(),
                self.contents.len() == other.contents.len(),
                self.name@ == other.name@,
                forall|k: int| 0 <= k < i ==> (#[trigger] self.contents[k])@ == other.contents[k]@,
            decreases self.contents.len() - i,
        {
            if !self.contents[i].same_as(&other.contents[i]) {
                assert(self@.contents[i as int] == self.contents[i as int]@);
                assert(other@.contents[i as int] == other.contents[i as int]@);
                return false;
            }
            i += 1;
        }
        assert(self@.contents =~= other@.contents);
        true
    }

    /// Puts `item` at the end of the listing.
    pub fn append_content(&mut self, item: DirectoryContent)
        ensures
            final(self).label() == old(self).label(),
            final(self).entries() == old(self).entries().push(item),
    {
        self.contents.push(item);
    }

    /// Moves all of `items` to the end of the listing, in their order, and
    /// leaves `items` empty.
    pub fn append_many_content(&mut self, items: &mut Vec<DirectoryContent>)
        ensures
            final(self).label() == old(self).label(),
            final(self).entries() == old(self).entries() + old(items)@,
            final(items)@.len() == 0,
    {
        self.contents.append(items);
    }

    /// Replaces the listing by `items`.
    pub fn set_content(&mut self, items: Vec<DirectoryContent>)
        ensures
            final(self).label() == old(self).label(),
            final(self).entries() == items@,
    {
        self.contents = items;
    }
}

} // verus!
