//! The metadata resolver: a note's creation and update times, taken from
//! the header at the top of the note where it gives them and from the file
//! system where it does not.

use dateparser::DateTimeUtc;
use gray_matter::engine::YAML;
use gray_matter::{Matter, Pod};
use vstd::prelude::*;
use vstd::string::StringSliceAdditionalSpecFns;
use vstd::utf8::encode_utf8;

verus! {

/// When a note was created and last updated, in milliseconds since the epoch.
#[derive(Clone, Copy, Debug, PartialEq, Eq, Structural)]
pub struct FileMetadata {
    pub created: i64,
    pub updated: i64,
}

/// A file as it was found and read: its path, whether it is a regular
/// file, its text, and the file system's creation and modification times
/// in milliseconds since the epoch.
///
/// `path_is_text` says whether the path on disk is valid text. Where it is
/// not, `path` shows it with what is no text replaced: enough to tell what
/// kind of file it is, not enough to report the file.
#[derive(Debug)]
pub struct NoteFile {
    pub path: String,
    pub path_is_text: bool,
    pub is_file: bool,
    pub content: String,
    pub created: u128,
    pub modified: u128,
}

/// One field of a note's header: its key, and its text where the value is a string.
#[derive(Debug)]
pub struct HeaderField {
    pub key: String,
    pub text: Option<String>,
}

/// The header of a note as a table from key to text (`None` where the
/// value under the key is no string), or `None` where the note has no
/// header that is a table.
pub uninterp spec fn front_matter(content: Seq<char>) -> Option<Map<Seq<char>, Option<Seq<char>>>>;

/// The table that a list of fields stands for. Of two fields with one key
/// the earlier counts.
pub open spec fn table_of(fields: Seq<HeaderField>) -> Map<Seq<char>, Option<Seq<char>>>
    decreases fields.len(),
{
    if fields.len() == 0 {
        Map::empty()
    } else {
        table_of(fields.drop_first()).insert(fields[0].key@, fields[0].text.deep_view())
    }
}

/// Parses the header of a note with gray_matter's `Matter::<YAML>::parse`
/// and hands out the fields of a header that is a table.
///
/// Trusted: what is found depends on the content alone. The fields come
/// out of a hash map, so no key occurs twice and their order is open; the
/// table they stand for is the same in any order.
#[verifier::external_body]
fn parse_front_matter(content: &str) -> (fields: Option<Vec<HeaderField>>)
    ensures
        match fields {
            Some(found) => front_matter(content@) == Some(table_of(found@)),
            None => front_matter(content@).is_none(),
        },
{
    match Matter::<YAML>::new().parse(content).data {
        Some(Pod::Hash(table)) => Some(
            table.into_iter().map(
                |(key, value)| HeaderField { key, text: value.as_string().ok() },
            ).collect(),
        ),
        _ => None,
    }
}

/// The ASCII codes that an offset from universal time is written with.
pub const PLUS: u8 = 43;

pub const MINUS: u8 = 45;

pub const COLON: u8 = 58;

pub const DIGIT_0: u8 = 48;

pub const DIGIT_5: u8 = 53;

pub const DIGIT_9: u8 = 57;

/// Whether a byte is an ASCII digit.
pub open spec fn is_digit(byte: u8) -> bool {
    DIGIT_0 <= byte <= DIGIT_9
}

/// Whether two digits of minutes stand at index `at`: a digit up to 5 and a digit.
pub open spec fn minutes_at(bytes: Seq<u8>, at: int) -> bool {
    &&& 0 <= at && at + 2 <= bytes.len()
    &&& DIGIT_0 <= bytes[at] <= DIGIT_5
    &&& is_digit(bytes[at + 1])
}

/// Whether an offset from universal time of a day or more stands at index
/// `at`: a sign, two digits of hours that make 24 or more, and two digits
/// of minutes, with or without a colon before them.
pub open spec fn wide_offset_at(bytes: Seq<u8>, at: int) -> bool {
    &&& 0 <= at && at + 3 <= bytes.len()
    &&& bytes[at] == PLUS || bytes[at] == MINUS
    &&& is_digit(bytes[at + 1]) && is_digit(bytes[at + 2])
    &&& (bytes[at + 1] - DIGIT_0) * 10 + (bytes[at + 2] - DIGIT_0) >= 24
    &&& minutes_at(bytes, at + 3) || (at + 4 <= bytes.len() && bytes[at + 3] == COLON
        && minutes_at(bytes, at + 4))
}

/// Whether a text ends in an offset of a day or more: such an offset makes
/// up its last five or six bytes. No zone lies that far from universal
/// time, and the date parser must not be given such a text.
pub open spec fn ends_in_wide_offset(text: Seq<char>) -> bool {
    wide_offset_at(encode_utf8(text), encode_utf8(text).len() - 5) || wide_offset_at(
        encode_utf8(text),
        encode_utf8(text).len() - 6,
    )
}

/// Reads a date and time with dateparser, through `DateTimeUtc::from_str`,
/// and gives it in milliseconds since the epoch.
///
/// Trusted, with nothing claimed of the result: a text without a zone is
/// read in the machine's zone, and one without a time of day takes the
/// time of the call. A text that ends in an offset of a day or more is
/// left out: dateparser takes the last three to six characters of a text
/// for its zone and hands an offset among them to chrono's
/// `FixedOffset::east`, which does not return for a day or more.
#[verifier::external_body]
fn parse_timestamp(text: &str) -> (millis: Option<i64>)
    requires
        !ends_in_wide_offset(text@),
{
    text.parse::<DateTimeUtc>().ok().map(|time| time.0.timestamp_millis())
}

/// The text that a table holds under `key`, if it holds one.
pub open spec fn table_text(table: Map<Seq<char>, Option<Seq<char>>>, key: Seq<char>) -> Option<
    Seq<char>,
> {
    if table.contains_key(key) {
        table[key]
    } else {
        None
    }
}

/// The text that the header of `content` holds under `key`, if it holds one.
pub open spec fn header_text(content: Seq<char>, key: Seq<char>) -> Option<Seq<char>> {
    match front_matter(content) {
        Some(table) => table_text(table, key),
        None => None,
    }
}

/// The times of a file whose header gave `header_created` and
/// `header_updated`: each time is the header's where there is one and the
/// file system's where there is none.
pub open spec fn resolved_from(
    created: u128,
    modified: u128,
    header_created: Option<i64>,
    header_updated: Option<i64>,
) -> FileMetadata {
    FileMetadata {
        created: match header_created {
            Some(time) => time,
            None => created as i64,
        },
        updated: match header_updated {
            Some(time) => time,
            None => modified as i64,
        },
    }
}

/// The times of a file that nothing in a header overrides.
pub open spec fn file_system_times(file: NoteFile) -> FileMetadata {
    resolved_from(file.created, file.modified, None, None)
}

/// Whether `metadata` can be what the resolver gives for `file`: a time
/// for which the header holds no text is the file system's.
pub open spec fn resolves(
    file: NoteFile,
    created_key: Seq<char>,
    updated_key: Seq<char>,
    metadata: FileMetadata,
) -> bool {
    &&& header_text(file.content@, created_key) is None ==> metadata.created
        == file.created as i64
    &&& header_text(file.content@, updated_key) is None ==> metadata.updated
        == file.modified as i64
}

/// The text under `key` in a list of header fields.
pub fn field_text<'a>(fields: &'a Vec<HeaderField>, key: &String) -> (text: Option<&'a String>)
    ensures
        text.deep_view() == table_text(table_of(fields@), key@),
{
    let mut index: usize = 0;
    assert(fields@.skip(0) =~= fields@);
    while index < fields.len()
        invariant
            index <= fields.len(),
            table_text(table_of(fields@), key@) == table_text(
                table_of(fields@.skip(index as int)),
                key@,
            ),
        decreases fields.len() - index,
    {
        let ghost rest = fields@.skip(index as int);
        assert(rest.drop_first() =~= fields@.skip(index as int + 1));
        assert(rest[0] == fields@[index as int]);
        if fields[index].key == *key {
            return fields[index].text.as_ref();
        }
        index += 1;
    }
    None
}

impl FileMetadata {
    /// Puts the times of a file together: each time is the header's where
    /// the header gave one and the file system's where it gave none.
    pub fn resolve(
        created: u128,
        modified: u128,
        header_created: Option<i64>,
        header_updated: Option<i64>,
    ) -> (metadata: FileMetadata)
        ensures
            metadata == resolved_from(created, modified, header_created, header_updated),
    {
        let created: i64 = match header_created {
            Some(time) => time,
            None => #[verifier::truncate]
            (created as i64),
        };
        let updated: i64 = match header_updated {
            Some(time) => time,
            None => #[verifier::truncate]
            (modified as i64),
        };
        FileMetadata { created, updated }
    }
}

/// Whether a byte is an ASCII digit from `DIGIT_0` up to `last`.
fn is_digit_up_to(byte: u8, last: u8) -> (digit: bool)
    ensures
        digit == (DIGIT_0 <= byte <= last),
{
    DIGIT_0 <= byte && byte <= last
}

/// Whether an offset of a day or more stands at index `at` of the bytes.
fn has_wide_offset_at(bytes: &[u8], at: usize) -> (found: bool)
    ensures
        found == wide_offset_at(bytes@, at as int),
{
    let len = bytes.len();
    if len < 5 || at > len - 5 {
        return false;
    }
    let sign = bytes[at];
    let tens = bytes[at + 1];
    let ones = bytes[at + 2];
    if sign != PLUS && sign != MINUS {
        return false;
    }
    if !is_digit_up_to(tens, DIGIT_9) || !is_digit_up_to(ones, DIGIT_9) {
        return false;
    }
    if (tens - DIGIT_0) * 10 + (ones - DIGIT_0) < 24 {
        return false;
    }
    let plain = is_digit_up_to(bytes[at + 3], DIGIT_5) && is_digit_up_to(bytes[at + 4], DIGIT_9);
    let with_colon = len - at >= 6 && bytes[at + 3] == COLON && is_digit_up_to(
        bytes[at + 4],
        DIGIT_5,
    ) && is_digit_up_to(bytes[at + 5], DIGIT_9);
    plain || with_colon
}

/// Whether a text ends in an offset from universal time of a day or more.
pub fn offset_is_out_of_range(text: &str) -> (wide: bool)
    ensures
        wide == ends_in_wide_offset(text@),
{
    let bytes = text.as_bytes();
    let len = bytes.len();
    (len >= 5 && has_wide_offset_at(bytes, len - 5)) || (len >= 6 && has_wide_offset_at(
        bytes,
        len - 6,
    ))
}

/// The time that a date text stands for, as the date parser reads it.
/// There is none where the text ends in an offset of a day or more; for
/// any other text the date parser decides.
pub fn text_time(text: &str) -> (time: Option<i64>)
    ensures
        ends_in_wide_offset(text@) ==> time is None,
{
    if offset_is_out_of_range(text) {
        None
    } else {
        parse_timestamp(text)
    }
}

/// The time that a header gives under `key`: the text there, read as a
/// date. There is none where the header holds no text under the key, or a
/// text that ends in an offset of a day or more; for any other text the
/// date parser decides.
pub fn header_time(fields: &Option<Vec<HeaderField>>, key: &String) -> (time: Option<i64>)
    ensures
        match fields {
            Some(found) => match table_text(table_of(found@), key@) {
                Some(text) => ends_in_wide_offset(text) ==> time is None,
                None => time is None,
            },
            None => time is None,
        },
{
    match fields {
        Some(found) => match field_text(found, key) {
            Some(text) => text_time(text.as_str()),
            None => None,
        },
        None => None,
    }
}

/// Resolves the times of a note: those of the file system, each replaced
/// by the date that the note's header holds under the given key, where it
/// holds a text there and the text reads as a date.
pub fn get_metadata(file: &NoteFile, created_key: String, updated_key: String) -> (metadata:
    FileMetadata)
    ensures
        resolves(*file, created_key@, updated_key@, metadata),
{
    let fields = parse_front_matter(file.content.as_str());
    let header_created = header_time(&fields, &created_key);
    let header_updated = header_time(&fields, &updated_key);
    FileMetadata::resolve(file.created, file.modified, header_created, header_updated)
}

} // verus!
