//! The message protocol: ten kinds of message, each with a fixed set of
//! named fields per direction.
//!
//! A message carries its fields as a dictionary of dynamically typed values.
//! The functions that build a message write the fields of its kind; those
//! that take one apart check the kind first and then read every field they
//! need, and give nothing unless all of them read well.

use vstd::prelude::*;
use vstd::string::*;
use crate::file_io::FileType;
use crate::http_codes::HttpCodes;
use crate::network_stats::{TransferStats, TransferStatsView};
use crate::text::{owned_text, same_text, wrap_text};

verus! {

/// What a message is about.
#[derive(Clone, Copy, Debug, PartialEq, Eq, Structural)]
pub enum MessageType {
    Connect,
    Close,
    Ack,
    Upload,
    Download,
    Delete,
    Dir,
    Move,
    Subfolder,
    Stats,
}

impl MessageType {
    /// The word that stands for this kind on the wire.
    pub open spec fn label(self) -> Seq<char> {
        match self {
            MessageType::Connect => "connect"@,
            MessageType::Close => "close"@,
            MessageType::Ack => "ack"@,
            MessageType::Upload => "upload"@,
            MessageType::Download => "download"@,
            MessageType::Delete => "delete"@,
            MessageType::Dir => "dir"@,
            MessageType::Move => "move"@,
            MessageType::Subfolder => "subfolder"@,
            MessageType::Stats => "stats"@,
        }
    }

    /// The kind that the word `s` stands for, if any.
    pub open spec fn of_label(s: Seq<char>) -> Option<MessageType> {
        if s == "connect"@ {
            Some(MessageType::Connect)
        } else if s == "close"@ {
            Some(MessageType::Close)
        } else if s == "ack"@ {
            Some(MessageType::Ack)
        } else if s == "upload"@ {
            Some(MessageType::Upload)
        } else if s == "download"@ {
            Some(MessageType::Download)
        } else if s == "delete"@ {
            Some(MessageType::Delete)
        } else if s == "dir"@ {
            Some(MessageType::Dir)
        } else if s == "move"@ {
            Some(MessageType::Move)
        } else if s == "subfolder"@ {
            Some(MessageType::Subfolder)
        } else if s == "stats"@ {
            Some(MessageType::Stats)
        } else {
            None
        }
    }

    /// The text of the error for a word that stands for no kind.
    pub open spec fn unknown_label_text(s: Seq<char>) -> Seq<char> {
        "unable to parse literal '"@ + s + "'"@
    }

    /// The word of this kind.
    pub fn to_string(&self) -> (s: String)
        ensures
            s@ == self.label(),
    {
        match self {
            MessageType::Connect => owned_text("connect"),
            MessageType::Close => owned_text("close"),
            MessageType::Ack => owned_text("ack"),
            MessageType::Upload => owned_text("upload"),
            MessageType::Download => owned_text("download"),
            MessageType::Delete => owned_text("delete"),
            MessageType::Dir => owned_text("dir"),
            MessageType::Move => owned_text("move"),
            MessageType::Subfolder => owned_text("subfolder"),
            MessageType::Stats => owned_text("stats"),
        }
    }

    /// The kind that `s` stands for; an error that quotes `s` where it stands
    /// for none.
    pub fn from_str(s: &str) -> (r: Result<MessageType, String>)
        ensures
            match r {
                Ok(kind) => MessageType::of_label(s@) == Some(kind),
                Err(e) => MessageType::of_label(s@) is None && e@
                    == MessageType::unknown_label_text(s@),
            },
    {
        if same_text(s, "connect") {
            Ok(MessageType::Connect)
        } else if same_text(s, "close") {
            Ok(MessageType::Close)
        } else if same_text(s, "ack") {
            Ok(MessageType::Ack)
        } else if same_text(s, "upload") {
            Ok(MessageType::Upload)
        } else if same_text(s, "download") {
            Ok(MessageType::Download)
        } else if same_text(s, "delete") {
            Ok(MessageType::Delete)
        } else if same_text(s, "dir") {
            Ok(MessageType::Dir)
        } else if same_text(s, "move") {
            Ok(MessageType::Move)
        } else if same_text(s, "subfolder") {
            Ok(MessageType::Subfolder)
        } else if same_text(s, "stats") {
            Ok(MessageType::Stats)
        } else {
            Err(wrap_text("unable to parse literal '", s, "'"))
        }
    }
}

/// Every kind of message is found again from its word.
pub proof fn lemma_message_type_round_trip(kind: MessageType)
    ensures
        MessageType::of_label(kind.label()) == Some(kind),
{
    reveal_strlit("connect");
    reveal_strlit("close");
    reveal_strlit("ack");
    reveal_strlit("upload");
    reveal_strlit("download");
    reveal_strlit("delete");
    reveal_strlit("dir");
    reveal_strlit("move");
    reveal_strlit("subfolder");
    reveal_strlit("stats");
    assert("connect"@.len() == 7);
    assert("close"@.len() == 5 && "close"@[0] == 'c');
    assert("ack"@.len() == 3 && "ack"@[0] == 'a');
    assert("upload"@.len() == 6 && "upload"@[0] == 'u');
    assert("download"@.len() == 8);
    assert("delete"@.len() == 6 && "delete"@[0] == 'd');
    assert("dir"@.len() == 3 && "dir"@[0] == 'd');
    assert("move"@.len() == 4);
    assert("subfolder"@.len() == 9);
    assert("stats"@.len() == 5 && "stats"@[0] == 's');
}

/// Who sent a message: the side that asks or the side that answers.
#[derive(Clone, Copy, Debug, PartialEq, Eq, Structural)]
pub enum MessageDirection {
    Request,
    Response,
}

impl MessageDirection {
    /// The word that stands for this direction on the wire.
    pub open spec fn label(self) -> Seq<char> {
        match self {
            MessageDirection::Request => "request"@,
            MessageDirection::Response => "response"@,
        }
    }

    /// The direction that the word `s` stands for, if any.
    pub open spec fn of_label(s: Seq<char>) -> Option<MessageDirection> {
        if s == "request"@ {
            Some(MessageDirection::Request)
        } else if s == "response"@ {
            Some(MessageDirection::Response)
        } else {
            None
        }
    }

    /// The word of this direction.
    pub fn to_string(&self) -> (s: String)
        ensures
            s@ == self.label(),
    {
        match self {
            MessageDirection::Request => owned_text("request"),
            MessageDirection::Response => owned_text("response"),
        }
    }

    /// The direction that `s` stands for; the error `Invalid direction`
    /// where it stands for none.
    pub fn from_str(s: &str) -> (r: Result<MessageDirection, String>)
        ensures
            match r {
                Ok(d) => MessageDirection::of_label(s@) == Some(d),
                Err(e) => MessageDirection::of_label(s@) is None && e@ == "Invalid direction"@,
            },
    {
        if same_text(s, "request") {
            Ok(MessageDirection::Request)
        } else if same_text(s, "response") {
            Ok(MessageDirection::Response)
        } else {
            Err(owned_text("Invalid direction"))
        }
    }
}

/// Both directions are found again from their words.
pub proof fn lemma_direction_round_trip(d: MessageDirection)
    ensures
        MessageDirection::of_label(d.label()) == Some(d),
{
    reveal_strlit("request");
    reveal_strlit("response");
    assert("request"@.len() == 7);
    assert("response"@.len() == 8);
}

/// What is to happen to a subfolder.
#[derive(Clone, Copy, Debug, PartialEq, Eq, Structural)]
pub enum SubfolderAction {
    Add,
    Delete,
}

impl SubfolderAction {
    /// The word that stands for this action on the wire.
    pub open spec fn label(self) -> Seq<char> {
        match self {
            SubfolderAction::Add => "add"@,
            SubfolderAction::Delete => "delete"@,
        }
    }

    /// The action that the word `s` stands for, if any.
    pub open spec fn of_label(s: Seq<char>) -> Option<SubfolderAction> {
        if s == "add"@ {
            Some(SubfolderAction::Add)
        } else if s == "delete"@ {
            Some(SubfolderAction::Delete)
        } else {
            None
        }
    }

    /// The text of the error for a word that stands for no action.
    pub open spec fn unknown_label_text(s: Seq<char>) -> Seq<char> {
        "could not deduce SubfolderAction from '"@ + s + "'"@
    }

    /// The word of this action.
    pub fn to_string(&self) -> (s: String)
        ensures
            s@ == self.label(),
    {
        match self {
            SubfolderAction::Add => owned_text("add"),
            SubfolderAction::Delete => owned_text("delete"),
        }
    }

    /// The action that `s` stands for; an error that quotes `s` where it
    /// stands for none.
    pub fn from_str(s: &str) -> (r: Result<SubfolderAction, String>)
        ensures
            match r {
                Ok(a) => SubfolderAction::of_label(s@) == Some(a),
                Err(e) => SubfolderAction::of_label(s@) is None && e@
                    == SubfolderAction::unknown_label_text(s@),
            },
    {
        if same_text(s, "add") {
            Ok(SubfolderAction::Add)
        } else if same_text(s, "delete") {
            Ok(SubfolderAction::Delete)
        } else {
            Err(wrap_text("could not deduce SubfolderAction from '", s, "'"))
        }
    }
}

/// Both actions are found again from their words.
pub proof fn lemma_action_round_trip(a: SubfolderAction)
    ensures
        SubfolderAction::of_label(a.label()) == Some(a),
{
    reveal_strlit("add");
    reveal_strlit("delete");
    assert("add"@.len() == 3);
    assert("delete"@.len() == 6);
}

/// The value of one field of a message.
pub enum FieldValue {
    /// A string.
    Text(String),
    /// A whole number that is not below zero.
    Number(u64),
    /// The measurements of a transfer.
    Stats(TransferStats),
    /// Anything else: it reads as no field of the protocol.
    Other,
}

/// A `FieldValue` as plain values.
pub enum FieldValueView {
    Text(Seq<char>),
    Number(u64),
    Stats(TransferStatsView),
    Other,
}

impl View for FieldValue {
    type V = FieldValueView;

    open spec fn view(&self) -> FieldValueView {
        match self {
            FieldValue::Text(s) => FieldValueView::Text(s@),
            FieldValue::Number(n) => FieldValueView::Number(*n),
            FieldValue::Stats(t) => FieldValueView::Stats(t@),
            FieldValue::Other => FieldValueView::Other,
        }
    }
}

impl Clone for FieldValue {
    fn clone(&self) -> (r: Self)
        ensures
            r@ == self@,
    {
        match self {
            FieldValue::Text(s) => FieldValue::Text(s.clone()),
            FieldValue::Number(n) => FieldValue::Number(*n),
            FieldValue::Stats(t) => FieldValue::Stats(t.clone()),
            FieldValue::Other => FieldValue::Other,
        }
    }
}

/// Two values are equal where they have one shape and hold the same.
impl PartialEq for FieldValue {
    fn eq(&self, other: &Self) -> (r: bool) {
        match (self, other) {
            (FieldValue::Text(a), FieldValue::Text(b)) => *a == *b,
            (FieldValue::Number(a), FieldValue::Number(b)) => *a == *b,
            (FieldValue::Stats(a), FieldValue::Stats(b)) => *a == *b,
            (FieldValue::Other, FieldValue::Other) => true,
            _ => false,
        }
    }
}

impl vstd::std_specs::cmp::PartialEqSpecImpl for FieldValue {
    open spec fn obeys_eq_spec() -> bool {
        true
    }

    open spec fn eq_spec(&self, other: &Self) -> bool {
        self@ == other@
    }
}

/// The string that `v` holds.
pub open spec fn text_in(v: FieldValueView) -> Option<Seq<char>> {
    match v {
        FieldValueView::Text(s) => Some(s),
        _ => None,
    }
}

/// The number that `v` holds, if it fits 32 bits.
pub open spec fn number_in(v: FieldValueView) -> Option<u32> {
    match v {
        FieldValueView::Number(n) => if n <= u32::MAX {
            Some(n as u32)
        } else {
            None
        },
        _ => None,
    }
}

/// The status that `v` holds: the word of a status.
pub open spec fn code_in(v: FieldValueView) -> Option<HttpCodes> {
    match v {
        FieldValueView::Text(s) => HttpCodes::of_name(s),
        _ => None,
    }
}

/// The kind of file that `v` holds: the word of a kind.
pub open spec fn kind_in(v: FieldValueView) -> Option<FileType> {
    match v {
        FieldValueView::Text(s) => FileType::of_label(s),
        _ => None,
    }
}

/// The action that `v` holds: the word of an action.
pub open spec fn action_in(v: FieldValueView) -> Option<SubfolderAction> {
    match v {
        FieldValueView::Text(s) => SubfolderAction::of_label(s),
        _ => None,
    }
}

/// The measurements that `v` holds.
pub open spec fn stats_in(v: FieldValueView) -> Option<TransferStatsView> {
    match v {
        FieldValueView::Stats(t) => Some(t),
        _ => None,
    }
}

/// A type that a field can be read as.
pub trait FromField: Sized {
    /// `out` is what `value` reads as: nothing where the value has another
    /// shape.
    spec fn reads(value: FieldValueView, out: Option<Self>) -> bool;

    /// What `value` reads as.
    fn from_field(value: &FieldValue) -> (out: Option<Self>)
        ensures
            Self::reads(value@, out),
    ;
}

impl FromField for String {
    open spec fn reads(value: FieldValueView, out: Option<Self>) -> bool {
        match out {
            Some(s) => text_in(value) == Some(s@),
            None => text_in(value) is None,
        }
    }

    fn from_field(value: &FieldValue) -> (out: Option<Self>) {
        match value {
            FieldValue::Text(s) => Some(s.clone()),
            _ => None,
        }
    }
}

impl FromField for u32 {
    open spec fn reads(value: FieldValueView, out: Option<Self>) -> bool {
        out == number_in(value)
    }

    fn from_field(value: &FieldValue) -> (out: Option<Self>) {
        match value {
            FieldValue::Number(n) => if *n <= u32::MAX as u64 {
                Some(*n as u32)
            } else {
                None
            },
            _ => None,
        }
    }
}

impl FromField for HttpCodes {
    open spec fn reads(value: FieldValueView, out: Option<Self>) -> bool {
        out == code_in(value)
    }

    fn from_field(value: &FieldValue) -> (out: Option<Self>) {
        match value {
            FieldValue::Text(s) => HttpCodes::from_wire_name(s.as_str()),
            _ => None,
        }
    }
}

impl FromField for FileType {
    open spec fn reads(value: FieldValueView, out: Option<Self>) -> bool {
        out == kind_in(value)
    }

    fn from_field(value: &FieldValue) -> (out: Option<Self>) {
        match value {
            FieldValue::Text(s) => match FileType::from_str(s.as_str()) {
                Ok(kind) => Some(kind),
                Err(_) => None,
            },
            _ => None,
        }
    }
}

impl FromField for SubfolderAction {
    open spec fn reads(value: FieldValueView, out: Option<Self>) -> bool {
        out == action_in(value)
    }

    fn from_field(value: &FieldValue) -> (out: Option<Self>) {
        match value {
            FieldValue::Text(s) => match SubfolderAction::from_str(s.as_str()) {
                Ok(action) => Some(action),
                Err(_) => None,
            },
            _ => None,
        }
    }
}

impl FromField for TransferStats {
    open spec fn reads(value: FieldValueView, out: Option<Self>) -> bool {
        match out {
            Some(t) => stats_in(value) == Some(t@),
            None => stats_in(value) is None,
        }
    }

    fn from_field(value: &FieldValue) -> (out: Option<Self>) {
        match value {
            FieldValue::Stats(t) => Some(t.clone()),
            _ => None,
        }
    }
}

/// One entry of a message's dictionary.
pub struct Field {
    pub name: String,
    pub value: FieldValue,
}

impl Clone for Field {
    fn clone(&self) -> (r: Self)
        ensures
            r.name@ == self.name@,
            r.value@ == self.value@,
    {
        Field { name: self.name.clone(), value: self.value.clone() }
    }
}

impl Field {
    /// The entry of `name` with `value`.
    pub fn new(name: &str, value: FieldValue) -> (f: Field)
        ensures
            f.name@ == name@,
            f.value == value,
    {
        Field { name: owned_text(name), value }
    }
}

/// The names of two lists agree place by place, and so do the values.
pub open spec fn same_entries(a: Seq<Field>, b: Seq<Field>) -> bool {
    &&& a.len() == b.len()
    &&& forall|i: int|
        0 <= i < a.len() ==> (#[trigger] a[i]).name@ == b[i].name@ && a[i].value@ == b[i].value@
}

/// Lists with the same entries stand for the same dictionary.
pub proof fn lemma_same_entries(a: Seq<Field>, b: Seq<Field>)
    requires
        same_entries(a, b),
    ensures
        dictionary(a) == dictionary(b),
    decreases a.len(),
{
    if a.len() > 0 {
        assert(same_entries(a.drop_last(), b.drop_last())) by {
            assert forall|i: int| 0 <= i < a.drop_last().len() implies (#[trigger] a.drop_last()[i]).name@
                == b.drop_last()[i].name@ && a.drop_last()[i].value@ == b.drop_last()[i].value@ by {
                assert(a.drop_last()[i] == a[i]);
                assert(b.drop_last()[i] == b[i]);
            }
        }
        lemma_same_entries(a.drop_last(), b.drop_last());
        assert(a.last() == a[a.len() - 1]);
        assert(b.last() == b[a.len() - 1]);
    }
}

/// The dictionary that a list of entries stands for. Of two entries with one
/// name the later one counts.
pub open spec fn dictionary(fields: Seq<Field>) -> Map<Seq<char>, FieldValueView>
    decreases fields.len(),
{
    if fields.len() == 0 {
        Map::empty()
    } else {
        dictionary(fields.drop_last()).insert(fields.last().name@, fields.last().value@)
    }
}

/// The value under `name` in `data`, if there is one.
pub open spec fn field(data: Map<Seq<char>, FieldValueView>, name: Seq<char>) -> Option<
    FieldValueView,
> {
    if data.dom().contains(name) {
        Some(data[name])
    } else {
        None
    }
}

/// The last entry with a name is the value under that name.
pub proof fn lemma_dictionary_last(fields: Seq<Field>, name: Seq<char>, i: int)
    requires
        0 <= i < fields.len(),
        fields[i].name@ == name,
        forall|j: int| i < j < fields.len() ==> (#[trigger] fields[j]).name@ != name,
    ensures
        field(dictionary(fields), name) == Some(fields[i].value@),
    decreases fields.len(),
{
    if i < fields.len() - 1 {
        let front = fields.drop_last();
        assert(fields[fields.len() - 1].name@ != name);
        assert(front[i] == fields[i]);
        assert forall|j: int| i < j < front.len() implies (#[trigger] front[j]).name@ != name by {
            assert(front[j] == fields[j]);
        }
        lemma_dictionary_last(front, name, i);
    }
}

/// A name that no entry has is not in the dictionary.
pub proof fn lemma_dictionary_missing(fields: Seq<Field>, name: Seq<char>)
    requires
        forall|j: int| 0 <= j < fields.len() ==> (#[trigger] fields[j]).name@ != name,
    ensures
        field(dictionary(fields), name) is None,
    decreases fields.len(),
{
    if fields.len() > 0 {
        let front = fields.drop_last();
        assert(fields[fields.len() - 1].name@ != name);
        assert forall|j: int| 0 <= j < front.len() implies (#[trigger] front[j]).name@ != name by {
            assert(front[j] == fields[j]);
        }
        lemma_dictionary_missing(front, name);
    }
}

/// The names of the dictionary are the names of the entries.
pub proof fn lemma_dictionary_names(fields: Seq<Field>, name: Seq<char>)
    ensures
        dictionary(fields).dom().contains(name) <==> exists|i: int|
            0 <= i < fields.len() && (#[trigger] fields[i]).name@ == name,
    decreases fields.len(),
{
    if fields.len() > 0 {
        let front = fields.drop_last();
        lemma_dictionary_names(front, name);
        if dictionary(fields).dom().contains(name) {
            if fields.last().name@ == name {
                assert(fields[fields.len() - 1].name@ == name);
            } else {
                let i = choose|i: int| 0 <= i < front.len() && (#[trigger] front[i]).name@ == name;
                assert(fields[i] == front[i]);
            }
        }
        if exists|i: int| 0 <= i < fields.len() && (#[trigger] fields[i]).name@ == name {
            let i = choose|i: int| 0 <= i < fields.len() && (#[trigger] fields[i]).name@ == name;
            if i < front.len() {
                assert(front[i] == fields[i]);
            }
        }
    }
}

/// A new value in the last entry with a name is a new value under that name.
pub proof fn lemma_dictionary_update(fields: Seq<Field>, updated: Seq<Field>, i: int)
    requires
        0 <= i < fields.len(),
        forall|j: int| i < j < fields.len() ==> (#[trigger] fields[j]).name@ != fields[i].name@,
        updated.len() == fields.len(),
        updated[i].name@ == fields[i].name@,
        forall|j: int| 0 <= j < fields.len() && j != i ==> #[trigger] updated[j] == fields[j],
    ensures
        dictionary(updated) == dictionary(fields).insert(fields[i].name@, updated[i].value@),
    decreases fields.len(),
{
    let name = fields[i].name@;
    let front = fields.drop_last();
    let new_front = updated.drop_last();
    if i < fields.len() - 1 {
        let last = fields.last();
        assert(updated.last() == updated[fields.len() - 1]);
        assert(updated[fields.len() - 1] == fields[fields.len() - 1]);
        assert(last.name@ != name);
        assert(front[i] == fields[i]);
        assert(new_front[i] == updated[i]);
        assert forall|j: int| i < j < front.len() implies (#[trigger] front[j]).name@
            != front[i].name@ by {
            assert(front[j] == fields[j]);
        }
        assert forall|j: int| 0 <= j < front.len() && j != i implies #[trigger] new_front[j]
            == front[j] by {
            assert(new_front[j] == updated[j]);
            assert(front[j] == fields[j]);
        }
        lemma_dictionary_update(front, new_front, i);
        assert(dictionary(front).insert(name, updated[i].value@).insert(last.name@, last.value@)
            =~= dictionary(front).insert(last.name@, last.value@).insert(
            name,
            updated[i].value@,
        ));
    } else {
        assert(new_front =~= front);
        assert(dictionary(front).insert(name, fields[i].value@).insert(name, updated[i].value@)
            =~= dictionary(front).insert(name, updated[i].value@));
    }
}

/// One message of the protocol.
///
/// The dictionary is kept as a list of entries and read as a map from names
/// to values, in which a later entry of a name replaces an earlier one, as it
/// does when a map is collected from pairs. A list can be searched, changed
/// in place, copied and compared by verified code.
pub struct Message {
    message_type: MessageType,
    direction: MessageDirection,
    data: Vec<Field>,
}

/// A `Message` as plain values: its kind, its direction and its dictionary.
pub struct MessageView {
    pub message_type: MessageType,
    pub direction: MessageDirection,
    pub data: Map<Seq<char>, FieldValueView>,
}

impl View for Message {
    type V = MessageView;

    closed spec fn view(&self) -> MessageView {
        MessageView {
            message_type: self.message_type,
            direction: self.direction,
            data: dictionary(self.data@),
        }
    }
}

impl Clone for Message {
    fn clone(&self) -> (r: Self)
        ensures
            r@ == self@,
    {
        let mut data: Vec<Field> = Vec::new();
        let mut i: usize = 0;
        while i < self.data.len()
            invariant
                i <= self.data.len(),
                data.len() == i,
                forall|k: int|
                    0 <= k < i ==> (#[trigger] data[k]).name@ == self.data[k].name@ && data[k].value@
                        == self.data[k].value@,
            decreases self.data.len() - i,
        {
            data.push(self.data[i].clone());
            i += 1;
        }
        proof {
            lemma_same_entries(data@, self.data@);
        }
        Message { message_type: self.message_type, direction: self.direction, data }
    }
}

/// Every entry of `a` is in `b`, under the same name and with the same
/// value.
pub open spec fn within(a: Map<Seq<char>, FieldValueView>, b: Map<Seq<char>, FieldValueView>)
    -> bool {
    forall|name: Seq<char>| #[trigger]
        a.dom().contains(name) ==> b.dom().contains(name) && b[name] == a[name]
}

/// Two messages are equal where kind, direction and dictionary are: the same
/// names, with the same values.
impl PartialEq for Message {
    fn eq(&self, other: &Self) -> (r: bool) {
        let same = self.message_type == other.message_type && self.direction == other.direction
            && self.covered_by(other) && other.covered_by(self);
        proof {
            if within(self@.data, other@.data) && within(other@.data, self@.data) {
                assert(self@.data =~= other@.data);
            }
        }
        same
    }
}

impl vstd::std_specs::cmp::PartialEqSpecImpl for Message {
    open spec fn obeys_eq_spec() -> bool {
        true
    }

    open spec fn eq_spec(&self, other: &Self) -> bool {
        self@ == other@
    }
}

impl Message {
    /// Whether every entry of this message is in `other` as well.
    fn covered_by(&self, other: &Message) -> (r: bool)
        ensures
            r == within(self@.data, other@.data),
    {
        let mut i: usize = 0;
        while i < self.data.len()
            invariant
                i <= self.data.len(),
                forall|k: int|
                    0 <= k < i ==> {
                        let name = (#[trigger] self.data[k]).name@;
                        other@.data.dom().contains(name) && other@.data[name] == self@.data[name]
                    },
            decreases self.data.len() - i,
        {
            let name = self.data[i].name.as_str();
            let mine = self.extract(name);
            let theirs = other.extract(name);
            proof {
                lemma_dictionary_names(self.data@, name@);
            }
            let equal = match (mine, theirs) {
                (Some(a), Some(b)) => *a == *b,
                _ => false,
            };
            if !equal {
                assert(self@.data.dom().contains(name@));
                return false;
            }
            i += 1;
        }
        proof {
            assert forall|name: Seq<char>| #[trigger]
                self@.data.dom().contains(name) implies other@.data.dom().contains(name)
                && other@.data[name] == self@.data[name] by {
                lemma_dictionary_names(self.data@, name);
                let k = choose|k: int|
                    0 <= k < self.data.len() && (#[trigger] self.data[k]).name@ == name;
                assert(self.data[k].name@ == name);
            }
        }
        true
    }

    /// The message of this kind and direction with the entries of `data`.
    pub fn new(message_type: MessageType, direction: MessageDirection, data: Vec<Field>) -> (m:
        Message)
        ensures
            m@ == (MessageView { message_type, direction, data: dictionary(data@) }),
    {
        Message { message_type, direction, data }
    }

    pub fn message_type(&self) -> (r: &MessageType)
        ensures
            *r == self@.message_type,
    {
        &self.message_type
    }

    pub fn direction(&self) -> (r: &MessageDirection)
        ensures
            *r == self@.direction,
    {
        &self.direction
    }

    /// The entries, in the order in which they were given.
    pub fn fields(&self) -> (r: &Vec<Field>)
        ensures
            dictionary(r@) == self@.data,
    {
        &self.data
    }

    /// The place of the last entry named `property`.
    fn place(&self, property: &str) -> (r: Option<usize>)
        ensures
            match r {
                Some(i) => {
                    &&& i < self.data.len()
                    &&& self.data[i as int].name@ == property@
                    &&& forall|j: int|
                        i < j < self.data.len() ==> (#[trigger] self.data[j]).name@ != property@
                },
                None => forall|j: int|
                    0 <= j < self.data.len() ==> (#[trigger] self.data[j]).name@ != property@,
            },
    {
        let mut i: usize = self.data.len();
        while i > 0
            invariant
                i <= self.data.len(),
                forall|j: int|
                    i <= j < self.data.len() ==> (#[trigger] self.data[j]).name@ != property@,
            decreases i,
        {
            i -= 1;
            if same_text(self.data[i].name.as_str(), property) {
                return Some(i);
            }
        }
        None
    }

    /// The value under `property`.
    pub fn extract(&self, property: &str) -> (r: Option<&FieldValue>)
        ensures
            match r {
                Some(v) => field(self@.data, property@) == Some(v@),
                None => field(self@.data, property@) is None,
            },
    {
        match self.place(property) {
            Some(i) => {
                proof {
                    lemma_dictionary_last(self.data@, property@, i as int);
                }
                Some(&self.data[i].value)
            },
            None => {
                proof {
                    lemma_dictionary_missing(self.data@, property@);
                }
                None
            },
        }
    }

    /// The value under `property`, to be changed in place. What the caller
    /// writes through the reference becomes the value under `property`, and
    /// nothing else changes.
    pub fn extract_mut(&mut self, property: &str) -> (r: Option<&mut FieldValue>)
        ensures
            match r {
                Some(v) => {
                    &&& field(old(self)@.data, property@) == Some((*v)@)
                    &&& final(self)@ == (MessageView {
                        data: old(self)@.data.insert(property@, (*final(v))@),
                        ..old(self)@
                    })
                },
                None => field(old(self)@.data, property@) is None && final(self)@ == old(self)@,
            },
    {
        match self.place(property) {
            Some(i) => {
                proof {
                    lemma_dictionary_last(self.data@, property@, i as int);
                }
                let entry = &mut self.data[i];
                let value = &mut entry.value;
                proof {
                    let after = old(self).data@.update(
                        i as int,
                        Field { name: old(self).data@[i as int].name, value: *final(value) },
                    );
                    lemma_dictionary_update(old(self).data@, after, i as int);
                }
                Some(value)
            },
            None => {
                proof {
                    lemma_dictionary_missing(self.data@, property@);
                }
                None
            },
        }
    }

    /// A copy of the value under `property`.
    pub fn extract_clone(&self, property: &str) -> (r: Option<FieldValue>)
        ensures
            match r {
                Some(v) => field(self@.data, property@) == Some(v@),
                None => field(self@.data, property@) is None,
            },
    {
        match self.extract(property) {
            Some(v) => Some(v.clone()),
            None => None,
        }
    }

    /// The value under `property`, read as a `T`: nothing where there is no
    /// such entry or its value has another shape.
    pub fn extract_as<T: FromField>(&self, property: &str) -> (r: Option<T>)
        ensures
            match field(self@.data, property@) {
                Some(v) => T::reads(v, r),
                None => r is None,
            },
    {
        match self.extract(property) {
            Some(v) => T::from_field(v),
            None => None,
        }
    }
}

/// The string under `name`, if the entry is there and holds one.
pub open spec fn text_field(data: Map<Seq<char>, FieldValueView>, name: Seq<char>) -> Option<
    Seq<char>,
> {
    match field(data, name) {
        Some(v) => text_in(v),
        None => None,
    }
}

/// The number under `name`, if the entry is there and holds one.
pub open spec fn number_field(data: Map<Seq<char>, FieldValueView>, name: Seq<char>) -> Option<
    u32,
> {
    match field(data, name) {
        Some(v) => number_in(v),
        None => None,
    }
}

/// The status under `name`, if the entry is there and holds one.
pub open spec fn code_field(data: Map<Seq<char>, FieldValueView>, name: Seq<char>) -> Option<
    HttpCodes,
> {
    match field(data, name) {
        Some(v) => code_in(v),
        None => None,
    }
}

/// The kind of file under `name`, if the entry is there and holds one.
pub open spec fn kind_field(data: Map<Seq<char>, FieldValueView>, name: Seq<char>) -> Option<
    FileType,
> {
    match field(data, name) {
        Some(v) => kind_in(v),
        None => None,
    }
}

/// The action under `name`, if the entry is there and holds one.
pub open spec fn action_field(data: Map<Seq<char>, FieldValueView>, name: Seq<char>) -> Option<
    SubfolderAction,
> {
    match field(data, name) {
        Some(v) => action_in(v),
        None => None,
    }
}

/// The measurements under `name`, if the entry is there and holds them.
pub open spec fn stats_field(data: Map<Seq<char>, FieldValueView>, name: Seq<char>) -> Option<
    TransferStatsView,
> {
    match field(data, name) {
        Some(v) => stats_in(v),
        None => None,
    }
}

/// The value that stands for a status.
pub open spec fn code_value(code: HttpCodes) -> FieldValueView {
    FieldValueView::Text(code.name())
}

/// The value that stands for a kind of file.
pub open spec fn kind_value(kind: FileType) -> FieldValueView {
    FieldValueView::Text(kind.label())
}

/// The value that stands for an action.
pub open spec fn action_value(action: SubfolderAction) -> FieldValueView {
    FieldValueView::Text(action.label())
}

/// No entries.
fn no_fields() -> (data: Vec<Field>)
    ensures
        dictionary(data@) == Map::<Seq<char>, FieldValueView>::empty(),
{
    Vec::new()
}

/// `data` with one more entry, which replaces an earlier one of that name.
fn with_field(data: Vec<Field>, name: &str, value: FieldValue) -> (out: Vec<Field>)
    ensures
        dictionary(out@) == dictionary(data@).insert(name@, value@),
{
    let mut out = data;
    out.push(Field::new(name, value));
    assert(out@.drop_last() == data@);
    out
}

fn text_of(s: &str) -> (v: FieldValue)
    ensures
        v@ == FieldValueView::Text(s@),
{
    FieldValue::Text(owned_text(s))
}

fn code_of(code: HttpCodes) -> (v: FieldValue)
    ensures
        v@ == code_value(code),
{
    FieldValue::Text(code.wire_name())
}

fn kind_of(kind: FileType) -> (v: FieldValue)
    ensures
        v@ == kind_value(kind),
{
    FieldValue::Text(kind.to_string())
}

fn action_of(action: SubfolderAction) -> (v: FieldValue)
    ensures
        v@ == action_value(action),
{
    FieldValue::Text(action.to_string())
}

/// A request of `kind` that only names a path.
pub open spec fn path_request(kind: MessageType, path: Seq<char>) -> MessageView {
    MessageView {
        message_type: kind,
        direction: MessageDirection::Request,
        data: Map::empty().insert("path"@, FieldValueView::Text(path)),
    }
}

/// A request of `kind` without entries.
pub open spec fn bare_request(kind: MessageType) -> MessageView {
    MessageView { message_type: kind, direction: MessageDirection::Request, data: Map::empty() }
}

/// The path that a message of `kind` names: nothing for a message of
/// another kind, or without a string under `path`.
pub open spec fn path_payload(kind: MessageType, m: MessageView) -> Option<Seq<char>> {
    if m.message_type != kind {
        None
    } else {
        text_field(m.data, "path"@)
    }
}

fn make_path_request(kind: MessageType, path: &str) -> (m: Message)
    ensures
        m@ == path_request(kind, path@),
{
    Message::new(kind, MessageDirection::Request, with_field(no_fields(), "path", text_of(path)))
}

fn take_path(kind: MessageType, message: &Message) -> (r: Option<String>)
    ensures
        match r {
            Some(p) => path_payload(kind, message@) == Some(p@),
            None => path_payload(kind, message@) is None,
        },
{
    if *message.message_type() != kind {
        return None;
    }
    message.extract_as::<String>("path")
}

// ---- connect ----

/// The request to connect as `username` with `password`.
pub open spec fn connect_view(username: Seq<char>, password: Seq<char>) -> MessageView {
    MessageView {
        message_type: MessageType::Connect,
        direction: MessageDirection::Request,
        data: Map::empty().insert("username"@, FieldValueView::Text(username)).insert(
            "password"@,
            FieldValueView::Text(password),
        ),
    }
}

/// What a connect message carries: name and password.
pub open spec fn connect_payload(m: MessageView) -> Option<(Seq<char>, Seq<char>)> {
    if m.message_type != MessageType::Connect {
        None
    } else {
        match (text_field(m.data, "username"@), text_field(m.data, "password"@)) {
            (Some(u), Some(p)) => Some((u, p)),
            _ => None,
        }
    }
}

pub fn connect_message(username: String, password: String) -> (m: Message)
    ensures
        m@ == connect_view(username@, password@),
{
    let data = with_field(
        with_field(no_fields(), "username", FieldValue::Text(username)),
        "password",
        FieldValue::Text(password),
    );
    Message::new(MessageType::Connect, MessageDirection::Request, data)
}

pub fn extract_connect_message(message: Message) -> (r: Option<(String, String)>)
    ensures
        match r {
            Some((u, p)) => connect_payload(message@) == Some((u@, p@)),
            None => connect_payload(message@) is None,
        },
{
    if *message.message_type() != MessageType::Connect {
        return None;
    }
    let username = message.extract_as::<String>("username");
    let password = message.extract_as::<String>("password");
    match (username, password) {
        (Some(u), Some(p)) => Some((u, p)),
        (_, _) => None,
    }
}

// ---- ack ----

/// The acknowledgement with `code` and `text`.
pub open spec fn ack_view(direction: MessageDirection, code: HttpCodes, text: Seq<char>)
    -> MessageView {
    MessageView {
        message_type: MessageType::Ack,
        direction,
        data: Map::empty().insert("code"@, code_value(code)).insert(
            "message"@,
            FieldValueView::Text(text),
        ),
    }
}

/// What an acknowledgement carries: status and text.
pub open spec fn ack_payload(m: MessageView) -> Option<(HttpCodes, Seq<char>)> {
    if m.message_type != MessageType::Ack {
        None
    } else {
        match (code_field(m.data, "code"@), text_field(m.data, "message"@)) {
            (Some(c), Some(t)) => Some((c, t)),
            _ => None,
        }
    }
}

/// The acknowledgement with `code`; its text is `message`, or the phrase of
/// the status where no message is given.
pub fn ack_messsage(direction: MessageDirection, code: HttpCodes, message: Option<String>) -> (m:
    Message)
    ensures
        m@ == ack_view(
            direction,
            code,
            match message {
                Some(text) => text@,
                None => code.phrase(),
            },
        ),
{
    let text = match message {
        Some(msg) => msg,
        None => code.to_string(),
    };
    let data = with_field(
        with_field(no_fields(), "code", code_of(code)),
        "message",
        FieldValue::Text(text),
    );
    Message::new(MessageType::Ack, direction, data)
}

pub fn extract_ack_message(message: Message) -> (r: Option<(HttpCodes, String)>)
    ensures
        match r {
            Some((c, t)) => ack_payload(message@) == Some((c, t@)),
            None => ack_payload(message@) is None,
        },
{
    if *message.message_type() != MessageType::Ack {
        return None;
    }
    let code = message.extract_as::<HttpCodes>("code");
    let text = message.extract_as::<String>("message");
    match (code, text) {
        (Some(c), Some(m)) => Some((c, m)),
        _ => None,
    }
}

// ---- close ----

pub fn close_message() -> (m: Message)
    ensures
        m@ == bare_request(MessageType::Close),
{
    Message::new(MessageType::Close, MessageDirection::Request, no_fields())
}

// ---- upload ----

/// The request to upload a file called `name`, of `kind`, in `frames` frames.
pub open spec fn upload_view(name: Seq<char>, kind: FileType, frames: u32) -> MessageView {
    MessageView {
        message_type: MessageType::Upload,
        direction: MessageDirection::Request,
        data: Map::empty().insert("name"@, FieldValueView::Text(name)).insert(
            "type"@,
            kind_value(kind),
        ).insert("size"@, FieldValueView::Number(frames as u64)),
    }
}

/// What an upload message carries: name, kind and number of frames.
pub open spec fn upload_payload(m: MessageView) -> Option<(Seq<char>, FileType, u32)> {
    if m.message_type != MessageType::Upload {
        None
    } else {
        match (
            text_field(m.data, "name"@),
            kind_field(m.data, "type"@),
            number_field(m.data, "size"@),
        ) {
            (Some(n), Some(t), Some(f)) => Some((n, t, f)),
            _ => None,
        }
    }
}

pub fn upload_message(name: &str, f_type: FileType, frame_count: u32) -> (m: Message)
    ensures
        m@ == upload_view(name@, f_type, frame_count),
{
    let data = with_field(
        with_field(with_field(no_fields(), "name", text_of(name)), "type", kind_of(f_type)),
        "size",
        FieldValue::Number(frame_count as u64),
    );
    Message::new(MessageType::Upload, MessageDirection::Request, data)
}

pub fn extract_upload_message(message: Message) -> (r: Option<(String, FileType, u32)>)
    ensures
        match r {
            Some((n, t, f)) => upload_payload(message@) == Some((n@, t, f)),
            None => upload_payload(message@) is None,
        },
{
    if *message.message_type() != MessageType::Upload {
        return None;
    }
    let name = message.extract_as::<String>("name");
    let f_type = message.extract_as::<FileType>("type");
    let frame_count = message.extract_as::<u32>("size");
    match (name, f_type, frame_count) {
        (Some(n), Some(t), Some(f)) => Some((n, t, f)),
        _ => None,
    }
}

// ---- download ----

/// The answer to a download request: status, text, kind of the file and
/// number of frames that follow.
pub open spec fn download_response_view(
    status: HttpCodes,
    text: Seq<char>,
    kind: FileType,
    frames: u32,
) -> MessageView {
    MessageView {
        message_type: MessageType::Download,
        direction: MessageDirection::Response,
        data: Map::empty().insert("status"@, code_value(status)).insert(
            "message"@,
            FieldValueView::Text(text),
        ).insert("kind"@, kind_value(kind)).insert("size"@, FieldValueView::Number(frames as u64)),
    }
}

/// What the answer to a download request carries.
pub open spec fn download_response_payload(m: MessageView) -> Option<
    (HttpCodes, Seq<char>, FileType, u32),
> {
    if m.message_type != MessageType::Download {
        None
    } else {
        match (
            code_field(m.data, "status"@),
            text_field(m.data, "message"@),
            kind_field(m.data, "kind"@),
            number_field(m.data, "size"@),
        ) {
            (Some(c), Some(t), Some(k), Some(f)) => Some((c, t, k, f)),
            _ => None,
        }
    }
}

pub fn download_message_request(path: &str) -> (m: Message)
    ensures
        m@ == path_request(MessageType::Download, path@),
{
    make_path_request(MessageType::Download, path)
}

pub fn download_message_response(
    status: HttpCodes,
    message: &str,
    kind: FileType,
    frame_count: u32,
) -> (m: Message)
    ensures
        m@ == download_response_view(status, message@, kind, frame_count),
{
    let data = with_field(
        with_field(
            with_field(
                with_field(no_fields(), "status", code_of(status)),
                "message",
                text_of(message),
            ),
            "kind",
            kind_of(kind),
        ),
        "size",
        FieldValue::Number(frame_count as u64),
    );
    Message::new(MessageType::Download, MessageDirection::Response, data)
}

pub fn extract_download_request_message(message: Message) -> (r: Option<String>)
    ensures
        match r {
            Some(p) => path_payload(MessageType::Download, message@) == Some(p@),
            None => path_payload(MessageType::Download, message@) is None,
        },
{
    take_path(MessageType::Download, &message)
}

pub fn extract_download_response_message(message: Message) -> (r: Option<
    (HttpCodes, String, FileType, u32),
>)
    ensures
        match r {
            Some((c, t, k, f)) => download_response_payload(message@) == Some((c, t@, k, f)),
            None => download_response_payload(message@) is None,
        },
{
    if *message.message_type() != MessageType::Download {
        return None;
    }
    let status = message.extract_as::<HttpCodes>("status");
    let msg = message.extract_as::<String>("message");
    let kind = message.extract_as::<FileType>("kind");
    let size = message.extract_as::<u32>("size");
    match (status, msg, kind, size) {
        (Some(c), Some(m), Some(t), Some(s)) => Some((c, m, t, s)),
        _ => None,
    }
}

// ---- delete ----

pub fn delete_message(path: &str) -> (m: Message)
    ensures
        m@ == path_request(MessageType::Delete, path@),
{
    make_path_request(MessageType::Delete, path)
}

pub fn extract_delete_message(message: Message) -> (r: Option<String>)
    ensures
        match r {
            Some(p) => path_payload(MessageType::Delete, message@) == Some(p@),
            None => path_payload(MessageType::Delete, message@) is None,
        },
{
    take_path(MessageType::Delete, &message)
}

// ---- dir ----

/// The answer to a directory request: status, text, the session's current
/// directory and number of frames that follow.
pub open spec fn dir_response_view(
    status: HttpCodes,
    text: Seq<char>,
    curr_dir: Seq<char>,
    frames: u32,
) -> MessageView {
    MessageView {
        message_type: MessageType::Dir,
        direction: MessageDirection::Response,
        data: Map::empty().insert("status"@, code_value(status)).insert(
            "message"@,
            FieldValueView::Text(text),
        ).insert("curr_dir"@, FieldValueView::Text(curr_dir)).insert(
            "size"@,
            FieldValueView::Number(frames as u64),
        ),
    }
}

/// What the answer to a directory request carries.
pub open spec fn dir_response_payload(m: MessageView) -> Option<
    (HttpCodes, Seq<char>, Seq<char>, u32),
> {
    if m.message_type != MessageType::Dir {
        None
    } else {
        match (
            code_field(m.data, "status"@),
            text_field(m.data, "message"@),
            text_field(m.data, "curr_dir"@),
            number_field(m.data, "size"@),
        ) {
            (Some(c), Some(t), Some(d), Some(f)) => Some((c, t, d, f)),
            _ => None,
        }
    }
}

pub fn dir_message_request() -> (m: Message)
    ensures
        m@ == bare_request(MessageType::Dir),
{
    Message::new(MessageType::Dir, MessageDirection::Request, no_fields())
}

pub fn dir_message_response(status: HttpCodes, message: &str, curr_dir: &str, frame_count: u32)
    -> (m: Message)
    ensures
        m@ == dir_response_view(status, message@, curr_dir@, frame_count),
{
    let data = with_field(
        with_field(
            with_field(
                with_field(no_fields(), "status", code_of(status)),
                "message",
                text_of(message),
            ),
            "curr_dir",
            text_of(curr_dir),
        ),
        "size",
        FieldValue::Number(frame_count as u64),
    );
    Message::new(MessageType::Dir, MessageDirection::Response, data)
}

pub fn extract_dir_response_message(message: Message) -> (r: Option<
    (HttpCodes, String, String, u32),
>)
    ensures
        match r {
            Some((c, t, d, f)) => dir_response_payload(message@) == Some((c, t@, d@, f)),
            None => dir_response_payload(message@) is None,
        },
{
    if *message.message_type() != MessageType::Dir {
        return None;
    }
    let status = message.extract_as::<HttpCodes>("status");
    let msg = message.extract_as::<String>("message");
    let curr_dir = message.extract_as::<String>("curr_dir");
    let size = message.extract_as::<u32>("size");
    match (status, msg, curr_dir, size) {
        (Some(s), Some(m), Some(c), Some(sz)) => Some((s, m, c, sz)),
        _ => None,
    }
}

// ---- move ----

pub fn move_message(path: &str) -> (m: Message)
    ensures
        m@ == path_request(MessageType::Move, path@),
{
    make_path_request(MessageType::Move, path)
}

pub fn extract_move_message(message: Message) -> (r: Option<String>)
    ensures
        match r {
            Some(p) => path_payload(MessageType::Move, message@) == Some(p@),
            None => path_payload(MessageType::Move, message@) is None,
        },
{
    take_path(MessageType::Move, &message)
}

// ---- subfolder ----

/// The request to do `action` to the subfolder at `path`.
pub open spec fn subfolder_view(path: Seq<char>, action: SubfolderAction) -> MessageView {
    MessageView {
        message_type: MessageType::Subfolder,
        direction: MessageDirection::Request,
        data: Map::empty().insert("path"@, FieldValueView::Text(path)).insert(
            "action"@,
            action_value(action),
        ),
    }
}

/// What a subfolder message carries: path and action.
pub open spec fn subfolder_payload(m: MessageView) -> Option<(Seq<char>, SubfolderAction)> {
    if m.message_type != MessageType::Subfolder {
        None
    } else {
        match (text_field(m.data, "path"@), action_field(m.data, "action"@)) {
            (Some(p), Some(a)) => Some((p, a)),
            _ => None,
        }
    }
}

pub fn subfolder_message(path: &str, action: SubfolderAction) -> (m: Message)
    ensures
        m@ == subfolder_view(path@, action),
{
    let data = with_field(
        with_field(no_fields(), "path", text_of(path)),
        "action",
        action_of(action),
    );
    Message::new(MessageType::Subfolder, MessageDirection::Request, data)
}

pub fn extract_subfolder_message(message: Message) -> (r: Option<(String, SubfolderAction)>)
    ensures
        match r {
            Some((p, a)) => subfolder_payload(message@) == Some((p@, a)),
            None => subfolder_payload(message@) is None,
        },
{
    if *message.message_type() != MessageType::Subfolder {
        return None;
    }
    let path = message.extract_as::<String>("path");
    let action = message.extract_as::<SubfolderAction>("action");
    match (path, action) {
        (Some(p), Some(a)) => Some((p, a)),
        _ => None,
    }
}

// ---- stats ----

/// The answer to a request for statistics.
pub open spec fn stats_response_view(stats: TransferStatsView) -> MessageView {
    MessageView {
        message_type: MessageType::Stats,
        direction: MessageDirection::Response,
        data: Map::empty().insert("stats"@, FieldValueView::Stats(stats)),
    }
}

/// What the answer to a request for statistics carries.
pub open spec fn stats_response_payload(m: MessageView) -> Option<TransferStatsView> {
    if m.message_type != MessageType::Stats {
        None
    } else {
        stats_field(m.data, "stats"@)
    }
}

pub fn stats_request_message() -> (m: Message)
    ensures
        m@ == bare_request(MessageType::Stats),
{
    Message::new(MessageType::Stats, MessageDirection::Request, no_fields())
}

pub fn stats_response_message(stats: TransferStats) -> (m: Message)
    ensures
        m@ == stats_response_view(stats@),
{
    let data = with_field(no_fields(), "stats", FieldValue::Stats(stats));
    Message::new(MessageType::Stats, MessageDirection::Response, data)
}

pub fn extract_stats_response_message(message: Message) -> (r: Option<TransferStats>)
    ensures
        match r {
            Some(t) => stats_response_payload(message@) == Some(t@),
            None => stats_response_payload(message@) is None,
        },
{
    if *message.message_type() != MessageType::Stats {
        return None;
    }
    message.extract_as::<TransferStats>("stats")
}

// ---- laws ----

/// Every reading checks the kind first: from a message of another kind
/// nothing is read, whatever its entries are called and hold.
pub proof fn lemma_kind_checked_first(m: MessageView)
    ensures
        m.message_type != MessageType::Connect ==> connect_payload(m) is None,
        m.message_type != MessageType::Ack ==> ack_payload(m) is None,
        m.message_type != MessageType::Upload ==> upload_payload(m) is None,
        m.message_type != MessageType::Download ==> download_response_payload(m) is None,
        m.message_type != MessageType::Dir ==> dir_response_payload(m) is None,
        m.message_type != MessageType::Subfolder ==> subfolder_payload(m) is None,
        m.message_type != MessageType::Stats ==> stats_response_payload(m) is None,
        forall|kind: MessageType| m.message_type != kind ==> path_payload(kind, m) is None,
{
}

/// The names of the entries are different words.
proof fn lemma_names_differ()
    ensures
        "username"@ != "password"@,
        "code"@ != "message"@,
        "name"@ != "type"@,
        "name"@ != "size"@,
        "type"@ != "size"@,
        "status"@ != "message"@,
        "status"@ != "kind"@,
        "status"@ != "size"@,
        "status"@ != "curr_dir"@,
        "message"@ != "kind"@,
        "message"@ != "size"@,
        "message"@ != "curr_dir"@,
        "kind"@ != "size"@,
        "curr_dir"@ != "size"@,
        "path"@ != "action"@,
{
    reveal_strlit("username");
    reveal_strlit("password");
    reveal_strlit("code");
    reveal_strlit("message");
    reveal_strlit("name");
    reveal_strlit("type");
    reveal_strlit("size");
    reveal_strlit("status");
    reveal_strlit("kind");
    reveal_strlit("curr_dir");
    reveal_strlit("path");
    reveal_strlit("action");
    assert("username"@[0] == 'u' && "password"@[0] == 'p');
    assert("code"@.len() == 4 && "message"@.len() == 7);
    assert("name"@[0] == 'n' && "type"@[0] == 't' && "size"@[0] == 's' && "kind"@[0] == 'k');
    assert("status"@.len() == 6 && "curr_dir"@.len() == 8);
    assert("name"@.len() == 4 && "type"@.len() == 4 && "size"@.len() == 4 && "kind"@.len() == 4);
    assert("path"@.len() == 4 && "action"@.len() == 6);
}

/// What was put into a message is what is read from it, for every kind of
/// message that carries something.
pub proof fn lemma_messages_round_trip(
    text: Seq<char>,
    other: Seq<char>,
    code: HttpCodes,
    kind: FileType,
    action: SubfolderAction,
    frames: u32,
    direction: MessageDirection,
    stats: TransferStatsView,
    path_kind: MessageType,
)
    ensures
        connect_payload(connect_view(text, other)) == Some((text, other)),
        ack_payload(ack_view(direction, code, text)) == Some((code, text)),
        upload_payload(upload_view(text, kind, frames)) == Some((text, kind, frames)),
        download_response_payload(download_response_view(code, text, kind, frames)) == Some(
            (code, text, kind, frames),
        ),
        dir_response_payload(dir_response_view(code, text, other, frames)) == Some(
            (code, text, other, frames),
        ),
        subfolder_payload(subfolder_view(text, action)) == Some((text, action)),
        stats_response_payload(stats_response_view(stats)) == Some(stats),
        path_payload(path_kind, path_request(path_kind, text)) == Some(text),
{
    lemma_names_differ();
    crate::http_codes::lemma_code_name_round_trip(code);
    crate::file_io::lemma_file_type_label_round_trip(kind);
    lemma_action_round_trip(action);
}

} // verus!
