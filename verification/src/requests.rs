//! What a request decides once the store has answered: how one sealed entry is
//! read, how a text is taken in, and how a batch of past entries from an offline
//! client becomes a batch to migrate.

use crate::cipher::{open_entry, MasterKey};
use crate::entry::{
    clone_text, text_view, ActiveEntry, ActiveEntryView, CalendarDate, DecryptedEntry,
    DecryptedEntryView, EmotionScale, EncryptedEntry, EntryId, Timestamp, UserId,
};
use crate::error::JrnlError;
use uuid::Uuid;
use vstd::prelude::*;

verus! {

/// Most past entries that one bulk import may bring.
pub const MAX_LOCAL_ENTRIES: usize = 365;

/// The view of what a read of one entry gives.
pub open spec fn read_view(r: Result<Option<DecryptedEntry>, JrnlError>) -> Result<
    Option<DecryptedEntryView>,
    JrnlError,
> {
    match r {
        Ok(Some(entry)) => Ok(Some(entry@)),
        Ok(None) => Ok(None),
        Err(e) => Err(e),
    }
}

/// What a read of one entry must give for what the sealed store found: an
/// absent entry is no error, a found one is opened, and a found one that does
/// not open is a failure.
pub open spec fn read_result(found: Option<EncryptedEntry>, master_key: Seq<u8>) -> Result<
    Option<DecryptedEntryView>,
    JrnlError,
> {
    match found {
        None => Ok(None),
        Some(record) => match open_entry(record@, master_key) {
            Ok(entry) => Ok(Some(entry)),
            Err(e) => Err(e),
        },
    }
}

/// Reads the sealed entry that the store found for a user and an identifier,
/// if it found one.
pub fn read_entry(found: Option<EncryptedEntry>, master_key: &MasterKey) -> (r: Result<
    Option<DecryptedEntry>,
    JrnlError,
>)
    ensures
        read_view(r) == read_result(found, master_key@),
{
    match found {
        None => Ok(None),
        Some(record) => match record.decrypt(master_key) {
            Ok(entry) => Ok(Some(entry)),
            Err(e) => Err(e),
        },
    }
}

/// A past entry that an offline client hands in.
#[derive(Debug, PartialEq, Eq)]
pub struct MobilePastEntry {
    pub date: CalendarDate,
    pub emotion_scale: EmotionScale,
    pub text: Option<String>,
}

/// What a [`MobilePastEntry`] holds.
pub struct MobilePastEntryView {
    pub date: CalendarDate,
    pub emotion_scale: EmotionScale,
    pub text: Option<Seq<char>>,
}

impl View for MobilePastEntry {
    type V = MobilePastEntryView;

    open spec fn view(&self) -> MobilePastEntryView {
        MobilePastEntryView {
            date: self.date,
            emotion_scale: self.emotion_scale,
            text: text_view(self.text),
        }
    }
}

impl DeepView for MobilePastEntry {
    type V = MobilePastEntryView;

    open spec fn deep_view(&self) -> MobilePastEntryView {
        self@
    }
}

/// An expiry that has elapsed at `now`: the second before it.
pub open spec fn elapsed_expiry(now: Timestamp) -> Timestamp {
    if now > i64::MIN {
        (now - 1) as i64
    } else {
        now
    }
}

/// The live entry that stands for a past entry of `author`: no local draft, and
/// with a window that has elapsed at `now`, so that it is migrated at once.
pub open spec fn synthetic_entry(
    entry: MobilePastEntryView,
    id: EntryId,
    author: UserId,
    now: Timestamp,
) -> ActiveEntryView {
    ActiveEntryView {
        id,
        author,
        date: entry.date,
        emotion_scale: entry.emotion_scale,
        text: entry.text,
        expiry: elapsed_expiry(now),
        ephemeral: false,
    }
}

/// The test that a day lies before `today`.
pub open spec fn past_test(today: CalendarDate) -> spec_fn(MobilePastEntryView) -> bool {
    |entry: MobilePastEntryView| entry.date.precedes(today)
}

/// The entries of days before `today`, in their order.
pub open spec fn past_entries(entries: Seq<MobilePastEntryView>, today: CalendarDate) -> Seq<
    MobilePastEntryView,
> {
    entries.filter(past_test(today))
}

/// `batch` stands, entry for entry, for the past entries `past` of `author`.
pub open spec fn is_synthetic_batch(
    batch: Seq<ActiveEntryView>,
    past: Seq<MobilePastEntryView>,
    author: UserId,
    now: Timestamp,
) -> bool {
    &&& batch.len() == past.len()
    &&& forall|i: int|
        0 <= i < past.len() ==> #[trigger] batch[i] == synthetic_entry(
            past[i],
            batch[i].id,
            author,
            now,
        )
}

/// Calls `Uuid::new_v4` and `Uuid::as_u128`. The contract claims of the random
/// identifier only what holds of every version 4 UUID: its version and variant
/// bits.
#[verifier::external_body]
fn fresh_entry_id() -> (id: EntryId)
    ensures
        id & 0x0000_0000_0000_f000_c000_0000_0000_0000 == 0x0000_0000_0000_4000_8000_0000_0000_0000,
{
    Uuid::new_v4().as_u128()
}

impl MobilePastEntry {
    /// The live entry that stands for this past entry, under the given
    /// identifier.
    pub fn into_active(self, id: EntryId, author: UserId, now: Timestamp) -> (entry: ActiveEntry)
        ensures
            entry@ == synthetic_entry(self@, id, author, now),
            now > i64::MIN ==> entry.expiry < now,
    {
        let expiry = if now > i64::MIN {
            now - 1
        } else {
            now
        };
        ActiveEntry {
            id,
            author,
            date: self.date,
            emotion_scale: self.emotion_scale,
            text: self.text,
            expiry,
            ephemeral: false,
        }
    }
}

/// Turns what an offline client hands in into a batch to migrate at once.
///
/// Entries of today and of later days are passed over. More than 365 past
/// entries are refused outright. The others become live entries of `author`
/// under fresh identifiers, in their order, none of them a local draft and all
/// with an elapsed window.
pub fn put_local_mobile_entries(
    author: UserId,
    today: CalendarDate,
    now: Timestamp,
    entries: Vec<MobilePastEntry>,
) -> (r: Result<Vec<ActiveEntry>, JrnlError>)
    ensures
        r is Err <==> past_entries(entries.deep_view(), today).len() > MAX_LOCAL_ENTRIES,
        r matches Err(e) ==> e == JrnlError::TooManyEntries,
        r matches Ok(batch) ==> is_synthetic_batch(
            batch.deep_view(),
            past_entries(entries.deep_view(), today),
            author,
            now,
        ),
{
    let ghost given = entries.deep_view();
    let mut batch: Vec<ActiveEntry> = Vec::new();
    let mut i: usize = 0;
    proof {
        reveal(Seq::filter);
    }
    while i < entries.len()
        invariant
            i <= entries.len(),
            given == entries.deep_view(),
            is_synthetic_batch(
                batch.deep_view(),
                given.take(i as int).filter(past_test(today)),
                author,
                now,
            ),
        decreases entries.len() - i,
    {
        let ghost before = batch.deep_view();
        proof {
            assert(given.take(i as int + 1) =~= given.take(i as int).push(given[i as int]));
            lemma_filter_push(given.take(i as int), given[i as int], past_test(today));
        }
        if entries[i].date.is_before(&today) {
            let entry = MobilePastEntry {
                date: entries[i].date,
                emotion_scale: entries[i].emotion_scale,
                text: clone_text(&entries[i].text),
            };
            let active = entry.into_active(fresh_entry_id(), author, now);
            batch.push(active);
            assert(batch.deep_view() =~= before.push(active@));
        }
        i += 1;
    }
    proof {
        assert(given.take(i as int) =~= given);
    }
    if batch.len() > MAX_LOCAL_ENTRIES {
        return Err(JrnlError::TooManyEntries);
    }
    Ok(batch)
}

/// Filtering the entries one longer: the last one is kept or dropped.
proof fn lemma_filter_push(
    entries: Seq<MobilePastEntryView>,
    last: MobilePastEntryView,
    test: spec_fn(MobilePastEntryView) -> bool,
)
    ensures
        entries.push(last).filter(test) == if test(last) {
            entries.filter(test).push(last)
        } else {
            entries.filter(test)
        },
{
    reveal(Seq::filter);
    assert(entries.push(last).drop_last() =~= entries);
}

/// What `str::trim` leaves of a text: the text without the white space at
/// its two ends.
pub uninterp spec fn str_trimmed(text: Seq<char>) -> Seq<char>;

/// What `ammonia::clean` makes of a text: the HTML that its default rules let
/// through.
pub uninterp spec fn html_cleaned(text: Seq<char>) -> Seq<char>;

/// `part` is a run of characters of `text`.
pub open spec fn is_part_of(part: Seq<char>, text: Seq<char>) -> bool {
    exists|from: int, to: int|
        0 <= from <= to <= text.len() && part == #[trigger] text.subrange(from, to)
}

/// Calls `str::trim`. The contract claims that the result depends on the text
/// alone and is a part of it.
#[verifier::external_body]
fn trim(text: &str) -> (trimmed: &str)
    ensures
        trimmed@ == str_trimmed(text@),
        is_part_of(trimmed@, text@),
{
    text.trim()
}

/// Calls `ammonia::clean`. The contract claims that the result depends on the
/// text alone.
#[verifier::external_body]
fn clean_html(text: &str) -> (cleaned: String)
    ensures
        cleaned@ == html_cleaned(text@),
{
    ammonia::clean(text)
}

/// The text of an entry as it is taken in: none where only white space was
/// written, else what was written between the white space, cleaned of the HTML
/// that must not be stored.
pub open spec fn sanitized(text: Seq<char>) -> Option<Seq<char>> {
    if str_trimmed(text).len() == 0 {
        None
    } else {
        Some(html_cleaned(str_trimmed(text)))
    }
}

/// Takes in the text of an entry as a client wrote it.
pub fn sanitize_html_string(text: &str) -> (r: Option<String>)
    ensures
        text_view(r) == sanitized(text@),
{
    let trimmed = trim(text);
    if trimmed.is_empty() {
        return None;
    }
    Some(clean_html(trimmed))
}

/// A setting as it is taken in: none where only white space was written, else
/// the text as it was written.
pub open spec fn non_blank(text: Seq<char>) -> Option<Seq<char>> {
    if str_trimmed(text).len() == 0 {
        None
    } else {
        Some(text)
    }
}

/// Takes in a setting as a client wrote it.
pub fn deserialize_empty_string(text: String) -> (r: Option<String>)
    ensures
        text_view(r) == non_blank(text@),
{
    if trim(text.as_str()).is_empty() {
        None
    } else {
        Some(text)
    }
}

} // verus!
