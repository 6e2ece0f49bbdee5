//! Pages of history: how many entries a page holds, where it ends, and how the
//! cursor to the next page travels as text.
//!
//! A cursor travels as the base64 of `date:id`, the day as `2024-01-31` and the
//! identifier as a hyphenated UUID.

use crate::cipher::{bytes_view, string_from_utf8};
use crate::entry::{text_view, CalendarDate, EmotionScale, EntryId};
use base64::engine::general_purpose::STANDARD;
use base64::Engine;
use chrono::{Datelike, NaiveDate};
use uuid::Uuid;
use vstd::prelude::*;
use vstd::string::StringExecFns;
use vstd::utf8::*;

verus! {

/// Entries on a page of history where the request names no limit.
pub const DEFAULT_PAGE_LIMIT: u32 = 20;

/// Most entries on a page of history.
pub const MAX_PAGE_LIMIT: u32 = 100;

/// The limit that is applied to a page: the requested one, 20 where none is
/// requested, and never under 1 nor over 100.
pub open spec fn effective_limit(requested: Option<u32>) -> u32 {
    match requested {
        None => DEFAULT_PAGE_LIMIT,
        Some(limit) => if limit < 1 {
            1
        } else if limit > MAX_PAGE_LIMIT {
            MAX_PAGE_LIMIT
        } else {
            limit
        },
    }
}

/// The limit that is applied to a page.
pub fn page_limit(requested: Option<u32>) -> (limit: u32)
    ensures
        limit == effective_limit(requested),
        1 <= limit <= MAX_PAGE_LIMIT,
{
    match requested {
        None => DEFAULT_PAGE_LIMIT,
        Some(limit) => if limit < 1 {
            1
        } else if limit > MAX_PAGE_LIMIT {
            MAX_PAGE_LIMIT
        } else {
            limit
        },
    }
}

/// A sealed entry as a page of history lists it: without its content.
#[derive(Clone, Copy, Debug, PartialEq, Eq, Structural)]
pub struct StrippedEntry {
    pub emotion_scale: EmotionScale,
    pub date: CalendarDate,
    pub id: EntryId,
}

/// The place in the history where a page ends and the next begins.
#[derive(Clone, Copy, Debug, PartialEq, Eq, Structural)]
pub struct Cursor {
    pub date: CalendarDate,
    pub id: EntryId,
}

impl Default for Cursor {
    /// The cursor before the newest entry: the last day and the last identifier.
    fn default() -> (cursor: Cursor)
        ensures
            cursor == (Cursor {
                date: CalendarDate { year: i32::MAX, month: 12, day: 31 },
                id: u128::MAX,
            }),
    {
        Cursor { date: CalendarDate { year: i32::MAX, month: 12, day: 31 }, id: u128::MAX }
    }
}

/// A page of a listing.
#[derive(Debug)]
pub struct CursorPaginatedResponse<T> {
    pub items: Vec<T>,
    /// Where the next page begins, if there is one.
    pub next_cursor: Option<Cursor>,
    pub has_more: bool,
}

/// The entries of a page that was asked for with one entry more than `limit`:
/// without the last one, where there are more than `limit`.
pub open spec fn page_items(entries: Seq<StrippedEntry>, limit: u32) -> Seq<StrippedEntry> {
    if entries.len() > limit {
        entries.drop_last()
    } else {
        entries
    }
}

/// The cursor behind the page: the last entry that is shown, where more
/// follow.
pub open spec fn page_cursor(entries: Seq<StrippedEntry>, limit: u32) -> Option<Cursor> {
    let items = page_items(entries, limit);
    if entries.len() > limit && items.len() > 0 {
        Some(Cursor { date: items.last().date, id: items.last().id })
    } else {
        None
    }
}

/// Cuts a page out of what the store listed for `limit + 1`: the entry beyond
/// the limit only shows that more follow, and is dropped.
pub fn paginate(entries: Vec<StrippedEntry>, limit: u32) -> (page: CursorPaginatedResponse<
    StrippedEntry,
>)
    ensures
        page.items@ == page_items(entries@, limit),
        page.has_more == (entries@.len() > limit),
        page.next_cursor == page_cursor(entries@, limit),
{
    let mut items = entries;
    let has_more = items.len() > limit as usize;
    if has_more {
        items.pop();
    }
    let next_cursor = if has_more && items.len() > 0 {
        let last = items[items.len() - 1];
        Some(Cursor { date: last.date, id: last.id })
    } else {
        None
    };
    CursorPaginatedResponse { items, next_cursor, has_more }
}

/// What a request for a page of history may name.
#[derive(Clone, Copy, Debug, PartialEq, Eq, Structural)]
pub struct CursorParams {
    pub cursor: Option<Cursor>,
    pub limit: Option<u32>,
}

/// Longest text of a cursor before its base64, in bytes.
pub const MAX_CURSOR_TEXT_LEN: usize = 64;

/// The text that the `Display` of `NaiveDate` gives for the day; none where
/// `NaiveDate::from_ymd_opt` has no such day.
pub uninterp spec fn date_text(date: CalendarDate) -> Option<Seq<char>>;

/// The day that `NaiveDate::parse_from_str` reads from the text in the given
/// format, if it reads one.
pub uninterp spec fn date_of_text(text: Seq<char>, format: Seq<char>) -> Option<CalendarDate>;

/// The text that the `Display` of `Uuid` gives for the identifier.
pub uninterp spec fn uuid_text(id: EntryId) -> Seq<char>;

/// The identifier that `Uuid::parse_str` reads from the text, if it reads one.
pub uninterp spec fn uuid_of_text(text: Seq<char>) -> Option<EntryId>;

/// The text that the standard base64 engine makes of the bytes.
pub uninterp spec fn base64_text(bytes: Seq<u8>) -> Seq<char>;

/// The bytes that the standard base64 engine reads from the bytes of a text, if
/// it reads any.
pub uninterp spec fn base64_bytes(text: Seq<u8>) -> Option<Seq<u8>>;

/// Calls `NaiveDate::from_ymd_opt` and the `Display` of `NaiveDate`. The
/// contract claims that the text depends on the day alone.
#[verifier::external_body]
fn date_to_text(date: CalendarDate) -> (text: Option<String>)
    ensures
        text_view(text) == date_text(date),
{
    NaiveDate::from_ymd_opt(date.year, date.month as u32, date.day as u32).map(
        |day| day.to_string(),
    )
}

/// Calls `NaiveDate::parse_from_str`. The contract claims that the day depends
/// on the text and the format alone.
#[verifier::external_body]
fn text_to_date(text: &str, format: &str) -> (date: Option<CalendarDate>)
    ensures
        date == date_of_text(text@, format@),
{
    NaiveDate::parse_from_str(text, format).ok().map(
        |day| CalendarDate { year: day.year(), month: day.month() as u8, day: day.day() as u8 },
    )
}

/// Calls `Uuid::from_u128` and the `Display` of `Uuid`. The contract claims
/// that the text depends on the identifier alone.
#[verifier::external_body]
fn uuid_to_text(id: EntryId) -> (text: String)
    ensures
        text@ == uuid_text(id),
{
    Uuid::from_u128(id).to_string()
}

/// Calls `Uuid::parse_str` and `Uuid::as_u128`. The contract claims that the
/// identifier depends on the text alone.
#[verifier::external_body]
fn text_to_uuid(text: &str) -> (id: Option<EntryId>)
    ensures
        id == uuid_of_text(text@),
{
    Uuid::parse_str(text).ok().map(|id| id.as_u128())
}

/// Calls `Engine::encode` on the standard engine. The contract claims that the
/// text depends on the bytes alone.
#[verifier::external_body]
fn to_base64(bytes: &[u8]) -> (text: String)
    requires
        bytes@.len() <= MAX_CURSOR_TEXT_LEN,
    ensures
        text@ == base64_text(bytes@),
{
    STANDARD.encode(bytes)
}

/// Calls `Engine::decode` on the standard engine. The contract claims that the
/// bytes depend on the text alone.
#[verifier::external_body]
fn from_base64(text: &[u8]) -> (bytes: Option<Vec<u8>>)
    ensures
        bytes_view(bytes) == base64_bytes(text@),
{
    STANDARD.decode(text).ok()
}

/// The first `delimiter` of `text` stands at `at`.
pub open spec fn first_at(text: Seq<char>, delimiter: char, at: int) -> bool {
    &&& 0 <= at < text.len()
    &&& text[at] == delimiter
    &&& forall|i: int| 0 <= i < at ==> text[i] != delimiter
}

/// What stands before and behind the first `delimiter` of `text`, if it has
/// one.
pub open spec fn split_once_of(text: Seq<char>, delimiter: char) -> Option<
    (Seq<char>, Seq<char>),
> {
    if exists|at: int| first_at(text, delimiter, at) {
        let at = choose|at: int| first_at(text, delimiter, at);
        Some((text.take(at), text.skip(at + 1)))
    } else {
        None
    }
}

/// The characters of an optional pair of string slices.
pub open spec fn pair_view(pair: Option<(&str, &str)>) -> Option<(Seq<char>, Seq<char>)> {
    match pair {
        Some((before, behind)) => Some((before@, behind@)),
        None => None,
    }
}

/// Calls `str::split_once`. The contract claims what its documentation says:
/// what stands before and behind the first occurrence of the delimiter, and
/// nothing where it does not occur.
#[verifier::external_body]
fn split_once<'a>(text: &'a str, delimiter: char) -> (pair: Option<(&'a str, &'a str)>)
    ensures
        pair_view(pair) == split_once_of(text@, delimiter),
{
    text.split_once(delimiter)
}

/// The format in which the day of a cursor is written.
pub open spec fn date_format() -> Seq<char> {
    "%Y-%m-%d"@
}

/// The text under which a cursor travels: the base64 of its day, a colon and
/// its identifier. There is none for a day that does not exist.
pub open spec fn encoded_cursor(cursor: Cursor) -> Option<Seq<char>> {
    match date_text(cursor.date) {
        None => None,
        Some(date) => {
            let text = encode_utf8(date + ":"@ + uuid_text(cursor.id));
            if text.len() <= MAX_CURSOR_TEXT_LEN {
                Some(base64_text(text))
            } else {
                None
            }
        },
    }
}

/// The cursor that travels under a text, if the text is one of a cursor: the
/// base64 of UTF-8 text that holds a day, a colon and an identifier.
pub open spec fn decoded_cursor(text: Seq<char>) -> Option<Cursor> {
    match base64_bytes(encode_utf8(text)) {
        None => None,
        Some(bytes) => if !valid_utf8(bytes) {
            None
        } else {
            match split_once_of(decode_utf8(bytes), ':') {
                None => None,
                Some((date, id)) => match (date_of_text(date, date_format()), uuid_of_text(id)) {
                    (Some(date), Some(id)) => Some(Cursor { date, id }),
                    _ => None,
                },
            }
        },
    }
}

impl Cursor {
    /// The text under which the cursor travels.
    pub fn encode(&self) -> (text: Option<String>)
        ensures
            text_view(text) == encoded_cursor(*self),
    {
        let mut text = match date_to_text(self.date) {
            Some(date) => date,
            None => {
                return None;
            },
        };
        text.append(":");
        let id = uuid_to_text(self.id);
        text.append(id.as_str());
        let bytes = text.as_str().as_bytes();
        if bytes.len() > MAX_CURSOR_TEXT_LEN {
            return None;
        }
        Some(to_base64(bytes))
    }

    /// The cursor that travels under `text`, if it is the text of one.
    pub fn decode(text: &str) -> (cursor: Option<Cursor>)
        ensures
            cursor == decoded_cursor(text@),
    {
        let bytes = match from_base64(text.as_bytes()) {
            Some(bytes) => bytes,
            None => {
                return None;
            },
        };
        let plain = match string_from_utf8(bytes) {
            Some(plain) => plain,
            None => {
                return None;
            },
        };
        let (date, id) = match split_once(plain.as_str(), ':') {
            Some(pair) => pair,
            None => {
                return None;
            },
        };
        let date = match text_to_date(date, "%Y-%m-%d") {
            Some(date) => date,
            None => {
                return None;
            },
        };
        match text_to_uuid(id) {
            Some(id) => Some(Cursor { date, id }),
            None => None,
        }
    }
}

} // verus!
