//! The store adapter: records as the content store returns them, and their
//! decoding into posts.
//!
//! A record is a finite map from attribute names to values. Decoding looks
//! at every field the target type needs and reports all that is wrong with
//! them at once, in the order `post`, `uuid`, `time`, `recurring`.

use crate::model::{MyError, Post, PostView, Posts, ScheduledPost, ScheduledPostView};
use vstd::prelude::*;

verus! {

/// One attribute value. The pipeline reads text and flags; whatever else a
/// store can hold is `Other`.
#[derive(Debug, PartialEq, Eq)]
pub enum Attr {
    Text(String),
    Flag(bool),
    Other,
}

/// What an [`Attr`] is in contracts.
pub enum AttrView {
    Text(Seq<char>),
    Flag(bool),
    Other,
}

impl View for Attr {
    type V = AttrView;

    open spec fn view(&self) -> AttrView {
        match self {
            Attr::Text(s) => AttrView::Text(s@),
            Attr::Flag(b) => AttrView::Flag(*b),
            Attr::Other => AttrView::Other,
        }
    }
}

/// A record in contracts: attribute names to values.
pub type RecordView = Map<Seq<char>, AttrView>;

#[derive(Debug)]
struct Field {
    name: String,
    value: Attr,
}

/// One record of a collection. Inserting under a name that is already there
/// replaces the value.
#[derive(Debug)]
pub struct Record {
    fields: Vec<Field>,
}

/// The map that a list of insertions builds, the later one winning.
spec fn fields_map(fields: Seq<Field>) -> RecordView
    decreases fields.len(),
{
    if fields.len() == 0 {
        Map::empty()
    } else {
        fields_map(fields.drop_last()).insert(fields.last().name@, fields.last().value@)
    }
}

impl View for Record {
    type V = RecordView;

    closed spec fn view(&self) -> RecordView {
        fields_map(self.fields@)
    }
}

impl Record {
    /// A record without attributes.
    pub fn new() -> (record: Record)
        ensures
            record@ == Map::<Seq<char>, AttrView>::empty(),
    {
        Record { fields: Vec::new() }
    }

    /// Sets attribute `name` to `value`.
    pub fn insert(&mut self, name: String, value: Attr)
        ensures
            final(self)@ == old(self)@.insert(name@, value@),
    {
        let ghost before = self.fields@;
        self.fields.push(Field { name, value });
        assert(self.fields@.drop_last() == before);
    }

    /// The value of attribute `name`, if the record has one.
    pub fn get(&self, name: &str) -> (found: Option<&Attr>)
        ensures
            found matches Some(value) ==> self@.contains_key(name@) && self@[name@] == value@,
            found is None ==> !self@.contains_key(name@),
    {
        let key = name.to_owned();
        let mut i = self.fields.len();
        assert(self.fields@.take(i as int) == self.fields@);
        while i > 0
            invariant
                i <= self.fields.len(),
                key@ == name@,
                fields_map(self.fields@).contains_key(name@) == fields_map(
                    self.fields@.take(i as int),
                ).contains_key(name@),
                fields_map(self.fields@).contains_key(name@) ==> fields_map(self.fields@)[name@]
                    == fields_map(self.fields@.take(i as int))[name@],
            decreases i,
        {
            i = i - 1;
            assert(self.fields@.take(i + 1).drop_last() == self.fields@.take(i as int));
            if self.fields[i].name == key {
                return Some(&self.fields[i].value);
            }
        }
        None
    }
}

/// The views of a sequence of records, one for one.
pub open spec fn record_views(records: Seq<Record>) -> Seq<RecordView> {
    Seq::new(records.len(), |i: int| records[i]@)
}

/// The attributes that decoding reads.
#[derive(Debug, PartialEq, Eq, Structural, Clone, Copy)]
pub enum FieldName {
    Post,
    Uuid,
    Time,
    Recurring,
}

/// The name under which the store keeps a field.
pub open spec fn attribute_name(field: FieldName) -> Seq<char> {
    match field {
        FieldName::Post => "post"@,
        FieldName::Uuid => "uuid"@,
        FieldName::Time => "time"@,
        FieldName::Recurring => "recurring"@,
    }
}

impl FieldName {
    /// The name under which the store keeps this field.
    pub fn name(self) -> (name: &'static str)
        ensures
            name@ == attribute_name(self),
    {
        match self {
            FieldName::Post => "post",
            FieldName::Uuid => "uuid",
            FieldName::Time => "time",
            FieldName::Recurring => "recurring",
        }
    }
}

/// What can be wrong with a field: it is not there, or it holds a value of
/// another type than the one expected.
#[derive(Debug, PartialEq, Eq, Structural, Clone, Copy)]
pub enum Defect {
    Missing,
    WrongType,
}

/// One field that could not be read, and why.
#[derive(Debug, PartialEq, Eq, Structural, Clone, Copy)]
pub struct FieldDefect {
    pub field: FieldName,
    pub defect: Defect,
}

/// Why a record could not be decoded: every defective field, in the order
/// in which decoding reads them. It is never empty.
#[derive(Debug, PartialEq, Eq)]
pub struct DecodeError {
    defects: Vec<FieldDefect>,
}

impl View for DecodeError {
    type V = Seq<FieldDefect>;

    closed spec fn view(&self) -> Seq<FieldDefect> {
        self.defects@
    }
}

/// The sentence that reports one defect.
pub open spec fn defect_message(defect: FieldDefect) -> Seq<char> {
    match defect.defect {
        Defect::Missing => match defect.field {
            FieldName::Post => "Missing 'post' attribute"@,
            FieldName::Uuid => "Missing 'uuid' attribute"@,
            FieldName::Time => "Missing 'time' attribute"@,
            FieldName::Recurring => "Missing 'recurring' attribute"@,
        },
        Defect::WrongType => match defect.field {
            FieldName::Post => "Error getting post S attribute"@,
            FieldName::Uuid => "Error getting uuid S attribute"@,
            FieldName::Time => "Error getting time S attribute"@,
            FieldName::Recurring => "Error getting recurring Bool attribute"@,
        },
    }
}

impl DecodeError {
    #[verifier::type_invariant]
    spec fn has_a_defect(&self) -> bool {
        self.defects@.len() > 0
    }

    /// The defects, in the order in which decoding reads the fields.
    pub fn defects(&self) -> (defects: &Vec<FieldDefect>)
        ensures
            defects@ == self@,
            defects@.len() > 0,
    {
        proof {
            use_type_invariant(self);
        }
        &self.defects
    }

    /// The error that reports the first defect, in the words the operator
    /// is used to.
    pub fn to_error(&self) -> (error: MyError)
        ensures
            self@.len() > 0,
            error@ == defect_message(self@[0]),
    {
        proof {
            use_type_invariant(self);
        }
        let first = self.defects[0];
        match first.defect {
            Defect::Missing => match first.field {
                FieldName::Post => MyError::new("Missing 'post' attribute"),
                FieldName::Uuid => MyError::new("Missing 'uuid' attribute"),
                FieldName::Time => MyError::new("Missing 'time' attribute"),
                FieldName::Recurring => MyError::new("Missing 'recurring' attribute"),
            },
            Defect::WrongType => match first.field {
                FieldName::Post => MyError::new("Error getting post S attribute"),
                FieldName::Uuid => MyError::new("Error getting uuid S attribute"),
                FieldName::Time => MyError::new("Error getting time S attribute"),
                FieldName::Recurring => MyError::new("Error getting recurring Bool attribute"),
            },
        }
    }
}

/// What is wrong with a field that should hold text: nothing, or one defect.
pub open spec fn text_defects(record: RecordView, field: FieldName) -> Seq<FieldDefect> {
    let name = attribute_name(field);
    if !record.contains_key(name) {
        seq![FieldDefect { field, defect: Defect::Missing }]
    } else if record[name] is Text {
        seq![]
    } else {
        seq![FieldDefect { field, defect: Defect::WrongType }]
    }
}

/// What is wrong with a field that should hold a flag: nothing, or one
/// defect.
pub open spec fn flag_defects(record: RecordView, field: FieldName) -> Seq<FieldDefect> {
    let name = attribute_name(field);
    if !record.contains_key(name) {
        seq![FieldDefect { field, defect: Defect::Missing }]
    } else if record[name] is Flag {
        seq![]
    } else {
        seq![FieldDefect { field, defect: Defect::WrongType }]
    }
}

/// The text that a record holds under a field's name.
pub open spec fn text_in(record: RecordView, field: FieldName) -> Seq<char> {
    record[attribute_name(field)]->Text_0
}

/// Everything that keeps a record from being a post.
pub open spec fn post_defects(record: RecordView) -> Seq<FieldDefect> {
    text_defects(record, FieldName::Post) + text_defects(record, FieldName::Uuid)
}

/// The post that a record without defects holds.
pub open spec fn post_in(record: RecordView) -> PostView {
    PostView { uuid: text_in(record, FieldName::Uuid), post: text_in(record, FieldName::Post) }
}

/// Everything that keeps a record from being a scheduled post.
pub open spec fn scheduled_defects(record: RecordView) -> Seq<FieldDefect> {
    text_defects(record, FieldName::Post) + text_defects(record, FieldName::Uuid) + text_defects(
        record,
        FieldName::Time,
    ) + flag_defects(record, FieldName::Recurring)
}

/// The scheduled post that a record without defects holds.
pub open spec fn scheduled_in(record: RecordView) -> ScheduledPostView {
    ScheduledPostView {
        uuid: text_in(record, FieldName::Uuid),
        post: text_in(record, FieldName::Post),
        time: text_in(record, FieldName::Time),
        recurring: record[attribute_name(FieldName::Recurring)]->Flag_0,
    }
}

/// Reads a text field, or notes in `defects` what is wrong with it.
fn read_text(record: &Record, field: FieldName, defects: &mut Vec<FieldDefect>) -> (text: Option<
    String,
>)
    ensures
        final(defects)@ == old(defects)@ + text_defects(record@, field),
        text matches Some(s) ==> text_defects(record@, field).len() == 0 && s@ == text_in(
            record@,
            field,
        ),
        text is None ==> text_defects(record@, field).len() == 1,
{
    match record.get(field.name()) {
        None => {
            defects.push(FieldDefect { field, defect: Defect::Missing });
            None
        },
        Some(Attr::Text(s)) => {
            Some(s.clone())
        },
        Some(_) => {
            defects.push(FieldDefect { field, defect: Defect::WrongType });
            None
        },
    }
}

/// Reads a flag field, or notes in `defects` what is wrong with it.
fn read_flag(record: &Record, field: FieldName, defects: &mut Vec<FieldDefect>) -> (flag: Option<
    bool,
>)
    ensures
        final(defects)@ == old(defects)@ + flag_defects(record@, field),
        flag matches Some(b) ==> flag_defects(record@, field).len() == 0 && b
            == record@[attribute_name(field)]->Flag_0,
        flag is None ==> flag_defects(record@, field).len() == 1,
{
    match record.get(field.name()) {
        None => {
            defects.push(FieldDefect { field, defect: Defect::Missing });
            None
        },
        Some(Attr::Flag(b)) => {
            Some(*b)
        },
        Some(_) => {
            defects.push(FieldDefect { field, defect: Defect::WrongType });
            None
        },
    }
}

/// Decodes one record of the immediate backlog.
///
/// Succeeds exactly when `post` and `uuid` are both there and hold text;
/// otherwise the error lists each of the two that is missing or of another
/// type.
pub fn decode_post(record: &Record) -> (decoded: Result<Post, DecodeError>)
    ensures
        decoded matches Ok(post) ==> post_defects(record@).len() == 0 && post@ == post_in(
            record@,
        ),
        decoded matches Err(error) ==> error@ == post_defects(record@) && error@.len() > 0,
{
    let mut defects: Vec<FieldDefect> = Vec::new();
    let post = read_text(record, FieldName::Post, &mut defects);
    let uuid = read_text(record, FieldName::Uuid, &mut defects);
    match (post, uuid) {
        (Some(post), Some(uuid)) => Ok(Post { uuid, post }),
        _ => Err(DecodeError { defects }),
    }
}

/// Decodes one record of the scheduled collection.
///
/// Succeeds exactly when `post`, `uuid` and `time` hold text and `recurring`
/// holds a flag; otherwise the error lists each field that is missing or of
/// another type.
pub fn decode_scheduled_post(record: &Record) -> (decoded: Result<ScheduledPost, DecodeError>)
    ensures
        decoded matches Ok(post) ==> scheduled_defects(record@).len() == 0 && post@
            == scheduled_in(record@),
        decoded matches Err(error) ==> error@ == scheduled_defects(record@) && error@.len() > 0,
{
    let mut defects: Vec<FieldDefect> = Vec::new();
    let post = read_text(record, FieldName::Post, &mut defects);
    let uuid = read_text(record, FieldName::Uuid, &mut defects);
    let time = read_text(record, FieldName::Time, &mut defects);
    let recurring = read_flag(record, FieldName::Recurring, &mut defects);
    match (post, uuid, time, recurring) {
        (Some(post), Some(uuid), Some(time), Some(recurring)) => Ok(
            ScheduledPost { uuid, post, time, recurring },
        ),
        _ => Err(DecodeError { defects }),
    }
}

/// That every record of a scan is a post.
pub open spec fn all_posts(records: Seq<RecordView>) -> bool {
    forall|i: int| 0 <= i < records.len() ==> (#[trigger] post_defects(records[i])).len() == 0
}

/// The posts that the records of a scan hold, one for one.
pub open spec fn posts_in(records: Seq<RecordView>) -> Seq<PostView> {
    Seq::new(records.len(), |i: int| post_in(records[i]))
}

/// Decodes a whole scan of the immediate backlog, in the order of the scan.
///
/// Succeeds exactly when every record is a post. Otherwise the error is
/// that of the first record that is not.
pub fn decode_posts(records: &Vec<Record>) -> (decoded: Result<Posts, DecodeError>)
    ensures
        decoded matches Ok(posts) ==> all_posts(record_views(records@)) && posts@ == posts_in(
            record_views(records@),
        ),
        decoded matches Err(error) ==> !all_posts(record_views(records@)) && exists|k: int|
            0 <= k < records@.len() && all_posts(record_views(records@).take(k)) && error@
                == #[trigger] post_defects(records@[k]@) && error@.len() > 0,
{
    let ghost views = record_views(records@);
    let mut posts: Vec<Post> = Vec::new();
    let mut i: usize = 0;
    while i < records.len()
        invariant
            i <= records.len(),
            views == record_views(records@),
            all_posts(views.take(i as int)),
            posts@.len() == i,
            forall|j: int| 0 <= j < i ==> (#[trigger] posts@[j])@ == post_in(views[j]),
        decreases records.len() - i,
    {
        match decode_post(&records[i]) {
            Ok(post) => {
                posts.push(post);
            },
            Err(error) => {
                assert(post_defects(views[i as int]).len() > 0);
                return Err(error);
            },
        }
        i = i + 1;
    }
    assert(views.take(i as int) == views);
    Ok(Posts { posts })
}

/// That every record of a scan is a scheduled post.
pub open spec fn all_scheduled(records: Seq<RecordView>) -> bool {
    forall|i: int|
        0 <= i < records.len() ==> (#[trigger] scheduled_defects(records[i])).len() == 0
}

/// The scheduled posts that the records of a scan hold, one for one.
pub open spec fn scheduled_posts_in(records: Seq<RecordView>) -> Seq<ScheduledPostView> {
    Seq::new(records.len(), |i: int| scheduled_in(records[i]))
}

/// Decodes a whole scan of the scheduled collection, in the order of the
/// scan.
///
/// Succeeds exactly when every record is a scheduled post. Otherwise the
/// error is that of the first record that is not.
pub fn decode_scheduled_posts(records: &Vec<Record>) -> (decoded: Result<
    Vec<ScheduledPost>,
    DecodeError,
>)
    ensures
        decoded matches Ok(posts) ==> all_scheduled(record_views(records@))
            && crate::model::scheduled_views(posts@) == scheduled_posts_in(
            record_views(records@),
        ),
        decoded matches Err(error) ==> !all_scheduled(record_views(records@)) && exists|k: int|
            0 <= k < records@.len() && all_scheduled(record_views(records@).take(k)) && error@
                == #[trigger] scheduled_defects(records@[k]@) && error@.len() > 0,
{
    let ghost views = record_views(records@);
    let mut posts: Vec<ScheduledPost> = Vec::new();
    let mut i: usize = 0;
    while i < records.len()
        invariant
            i <= records.len(),
            views == record_views(records@),
            all_scheduled(views.take(i as int)),
            posts@.len() == i,
            forall|j: int| 0 <= j < i ==> (#[trigger] posts@[j])@ == scheduled_in(views[j]),
        decreases records.len() - i,
    {
        match decode_scheduled_post(&records[i]) {
            Ok(post) => {
                posts.push(post);
            },
            Err(error) => {
                assert(scheduled_defects(views[i as int]).len() > 0);
                return Err(error);
            },
        }
        i = i + 1;
    }
    assert(views.take(i as int) == views);
    Ok(posts)
}

/// Decodes the head of a scan of the immediate backlog.
///
/// An empty scan holds no post, which is no error. Otherwise the first
/// record decides: it is the post, or the error says why it is none.
pub fn decode_first_post(records: &Vec<Record>) -> (decoded: Result<Option<Post>, DecodeError>)
    ensures
        records@.len() == 0 ==> decoded == Ok::<Option<Post>, DecodeError>(None),
        records@.len() > 0 ==> match decoded {
            Ok(Some(post)) => post_defects(records@[0]@).len() == 0 && post@ == post_in(
                records@[0]@,
            ),
            Ok(None) => false,
            Err(error) => error@ == post_defects(records@[0]@) && error@.len() > 0,
        },
{
    if records.len() == 0 {
        return Ok(None);
    }
    match decode_post(&records[0]) {
        Ok(post) => Ok(Some(post)),
        Err(error) => Err(error),
    }
}

/// A scan or a delete that the store did not carry out.
#[derive(Debug, PartialEq, Eq)]
pub struct StoreError {
    pub message: String,
}

impl View for StoreError {
    type V = Seq<char>;

    open spec fn view(&self) -> Seq<char> {
        self.message@
    }
}

/// The records of a scan whose answer may lack its list of items.
///
/// An answer without a list is an error of the store, not an empty
/// collection.
pub fn items_or_error(items: Option<Vec<Record>>) -> (scan: Result<Vec<Record>, StoreError>)
    ensures
        match items {
            Some(records) => scan == Ok::<Vec<Record>, StoreError>(records),
            None => scan matches Err(error) && error@ == "No items found in response"@,
        },
{
    match items {
        Some(records) => Ok(records),
        None => Err(StoreError { message: "No items found in response".to_owned() }),
    }
}

} // verus!
