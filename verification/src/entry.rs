//! The records of the journal: live entries, sealed entries and the plain
//! projection of a sealed entry that a single read produces.

use vstd::prelude::*;

verus! {

/// Identifier of an entry, the 128 bits of its UUID.
pub type EntryId = u128;

/// Identifier of a user, the 128 bits of its UUID.
pub type UserId = u128;

/// An instant, in whole seconds since 1970-01-01T00:00:00Z.
pub type Timestamp = i64;

/// A mood value, carried as the bit pattern of an IEEE 754 single. The
/// lifecycle never computes with it: it leaves exactly as it came.
pub type EmotionScale = u32;

/// A day of the proleptic Gregorian calendar.
#[derive(Clone, Copy, Debug, PartialEq, Eq, Structural, PartialOrd, Ord, Hash)]
pub struct CalendarDate {
    pub year: i32,
    pub month: u8,
    pub day: u8,
}

/// Whether `year` has a 29th of February.
pub open spec fn is_leap_year(year: int) -> bool {
    year % 4 == 0 && (year % 100 != 0 || year % 400 == 0)
}

/// Number of days of `month` (1 to 12) in `year`; 0 for any other month.
pub open spec fn days_in_month(year: int, month: int) -> int {
    if month == 2 {
        if is_leap_year(year) {
            29
        } else {
            28
        }
    } else if month == 4 || month == 6 || month == 9 || month == 11 {
        30
    } else if 1 <= month <= 12 {
        31
    } else {
        0
    }
}

impl CalendarDate {
    /// The date names a day that exists.
    pub open spec fn is_valid(self) -> bool {
        1 <= self.month <= 12 && 1 <= self.day <= days_in_month(self.year as int, self.month as int)
    }

    /// Chronological order: by year, then month, then day.
    pub open spec fn precedes(self, other: CalendarDate) -> bool {
        self.year < other.year || (self.year == other.year && (self.month < other.month || (
        self.month == other.month && self.day < other.day)))
    }

    /// The date `year`-`month`-`day`, if that day exists.
    pub fn new(year: i32, month: u8, day: u8) -> (r: Option<CalendarDate>)
        ensures
            r == (if (CalendarDate { year, month, day }).is_valid() {
                Some(CalendarDate { year, month, day })
            } else {
                None::<CalendarDate>
            }),
    {
        if month < 1 || month > 12 || day < 1 {
            return None;
        }
        let leap = year % 4 == 0 && (year % 100 != 0 || year % 400 == 0);
        let last: u8 = if month == 2 {
            if leap {
                29
            } else {
                28
            }
        } else if month == 4 || month == 6 || month == 9 || month == 11 {
            30
        } else {
            31
        };
        if day > last {
            return None;
        }
        Some(CalendarDate { year, month, day })
    }

    /// Whether this date lies strictly before `other`.
    pub fn is_before(&self, other: &CalendarDate) -> (r: bool)
        ensures
            r == self.precedes(*other),
    {
        if self.year != other.year {
            self.year < other.year
        } else if self.month != other.month {
            self.month < other.month
        } else {
            self.day < other.day
        }
    }
}

/// A live entry: mutable, never encrypted while it is live.
#[derive(Debug, PartialEq, Eq)]
pub struct ActiveEntry {
    pub id: EntryId,
    pub author: UserId,
    pub date: CalendarDate,
    pub emotion_scale: EmotionScale,
    pub text: Option<String>,
    /// From this instant on the entry may be sealed.
    pub expiry: Timestamp,
    /// A local draft that must never be sealed or kept.
    pub ephemeral: bool,
}

/// What an [`ActiveEntry`] holds.
pub struct ActiveEntryView {
    pub id: EntryId,
    pub author: UserId,
    pub date: CalendarDate,
    pub emotion_scale: EmotionScale,
    pub text: Option<Seq<char>>,
    pub expiry: Timestamp,
    pub ephemeral: bool,
}

/// A sealed entry: written once per author and date.
#[derive(Debug, PartialEq, Eq)]
pub struct EncryptedEntry {
    pub id: EntryId,
    pub author: UserId,
    pub date: CalendarDate,
    pub emotion_scale: EmotionScale,
    /// The text, sealed under the content key.
    pub encrypted_content: Vec<u8>,
    /// The content key, wrapped under the master key.
    pub content_key: Vec<u8>,
    /// The nonce of both seals.
    pub nonce: Vec<u8>,
}

/// What an [`EncryptedEntry`] holds.
pub struct EncryptedEntryView {
    pub id: EntryId,
    pub author: UserId,
    pub date: CalendarDate,
    pub emotion_scale: EmotionScale,
    pub encrypted_content: Seq<u8>,
    pub content_key: Seq<u8>,
    pub nonce: Seq<u8>,
}

/// The plain projection of a sealed entry, made for one read and never kept.
#[derive(Debug, PartialEq, Eq)]
pub struct DecryptedEntry {
    pub id: EntryId,
    pub author: UserId,
    pub date: CalendarDate,
    pub emotion_scale: EmotionScale,
    pub text: Option<String>,
}

/// What a [`DecryptedEntry`] holds.
pub struct DecryptedEntryView {
    pub id: EntryId,
    pub author: UserId,
    pub date: CalendarDate,
    pub emotion_scale: EmotionScale,
    pub text: Option<Seq<char>>,
}

/// The characters of an optional string.
pub open spec fn text_view(text: Option<String>) -> Option<Seq<char>> {
    match text {
        Some(s) => Some(s@),
        None => None,
    }
}

impl View for ActiveEntry {
    type V = ActiveEntryView;

    open spec fn view(&self) -> ActiveEntryView {
        ActiveEntryView {
            id: self.id,
            author: self.author,
            date: self.date,
            emotion_scale: self.emotion_scale,
            text: text_view(self.text),
            expiry: self.expiry,
            ephemeral: self.ephemeral,
        }
    }
}

impl DeepView for ActiveEntry {
    type V = ActiveEntryView;

    open spec fn deep_view(&self) -> ActiveEntryView {
        self@
    }
}

impl View for EncryptedEntry {
    type V = EncryptedEntryView;

    open spec fn view(&self) -> EncryptedEntryView {
        EncryptedEntryView {
            id: self.id,
            author: self.author,
            date: self.date,
            emotion_scale: self.emotion_scale,
            encrypted_content: self.encrypted_content@,
            content_key: self.content_key@,
            nonce: self.nonce@,
        }
    }
}

impl DeepView for EncryptedEntry {
    type V = EncryptedEntryView;

    open spec fn deep_view(&self) -> EncryptedEntryView {
        self@
    }
}

impl View for DecryptedEntry {
    type V = DecryptedEntryView;

    open spec fn view(&self) -> DecryptedEntryView {
        DecryptedEntryView {
            id: self.id,
            author: self.author,
            date: self.date,
            emotion_scale: self.emotion_scale,
            text: text_view(self.text),
        }
    }
}

/// A copy of an optional string.
pub fn clone_text(text: &Option<String>) -> (r: Option<String>)
    ensures
        text_view(r) == text_view(*text),
{
    match text {
        Some(s) => Some(s.clone()),
        None => None,
    }
}

impl Clone for ActiveEntry {
    fn clone(&self) -> (r: Self)
        ensures
            r@ == self@,
    {
        ActiveEntry {
            id: self.id,
            author: self.author,
            date: self.date,
            emotion_scale: self.emotion_scale,
            text: clone_text(&self.text),
            expiry: self.expiry,
            ephemeral: self.ephemeral,
        }
    }
}

impl Clone for EncryptedEntry {
    fn clone(&self) -> (r: Self)
        ensures
            r@ == self@,
    {
        EncryptedEntry {
            id: self.id,
            author: self.author,
            date: self.date,
            emotion_scale: self.emotion_scale,
            encrypted_content: self.encrypted_content.clone(),
            content_key: self.content_key.clone(),
            nonce: self.nonce.clone(),
        }
    }
}

impl Clone for DecryptedEntry {
    fn clone(&self) -> (r: Self)
        ensures
            r@ == self@,
    {
        DecryptedEntry {
            id: self.id,
            author: self.author,
            date: self.date,
            emotion_scale: self.emotion_scale,
            text: clone_text(&self.text),
        }
    }
}

} // verus!
