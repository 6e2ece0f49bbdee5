//! The author of entries: a user, the day it is for them, and the entry that a
//! write of theirs makes.

use crate::entry::{
    text_view, ActiveEntry, ActiveEntryView, CalendarDate, EmotionScale, EntryId, Timestamp,
    UserId,
};
use crate::zone::{
    current_date_in, daily_entry_expiry, effective_zone, expiry_of, local_date, tz_known, utc_now,
    zone_or_utc,
};
use vstd::prelude::*;

verus! {

/// A user of the journal.
#[derive(Debug, PartialEq, Eq)]
pub struct User {
    pub id: UserId,
    pub name: String,
    pub google_subject: Option<String>,
    pub apple_subject: Option<String>,
    pub theme: Option<String>,
    /// The name of the user's time zone, as the client reported it.
    pub timezone: String,
    pub has_had_tour: bool,
    pub has_seen_app_push: bool,
}

/// The live entry that a write of `author` at `now` makes, if `now` is in
/// range: of the author's local day, to be sealed when that day ends.
pub open spec fn written_entry(
    author: UserId,
    timezone: Seq<char>,
    id: EntryId,
    now: Timestamp,
    emotion_scale: EmotionScale,
    text: Option<Seq<char>>,
    ephemeral: bool,
) -> Option<ActiveEntryView> {
    match (local_date(timezone, now), expiry_of(timezone, now)) {
        (Some(date), Some(expiry)) => Some(
            ActiveEntryView { id, author, date, emotion_scale, text, expiry, ephemeral },
        ),
        _ => None,
    }
}

/// The view of an optional live entry.
pub open spec fn entry_view(entry: Option<ActiveEntry>) -> Option<ActiveEntryView> {
    match entry {
        Some(entry) => Some(entry@),
        None => None,
    }
}

impl User {
    /// The name of the zone whose time the user lives by: the reported one
    /// where it is known, else UTC.
    pub fn timezone(&self) -> (zone: &str)
        ensures
            zone@ == zone_or_utc(self.timezone@),
            tz_known(zone@),
    {
        effective_zone(self.timezone.as_str())
    }

    /// The user's local day at the instant `now`; nothing for an instant out
    /// of range.
    pub fn current_date_at(&self, now: Timestamp) -> (date: Option<CalendarDate>)
        ensures
            date == local_date(self.timezone@, now),
    {
        current_date_in(self.timezone.as_str(), now)
    }

    /// The user's local day by the clock. Whatever the clock reads, the day is
    /// the local day of some instant not before 1970.
    pub fn current_date_by_timezone(&self) -> (date: Option<CalendarDate>)
        ensures
            exists|now: Timestamp| 0 <= now && date == #[trigger] local_date(self.timezone@, now),
    {
        let now = utc_now();
        self.current_date_at(now)
    }

    /// The live entry that a write of this user at `now` makes: of the user's
    /// local day, to be sealed at the local midnight that ends it.
    pub fn daily_entry(
        &self,
        id: EntryId,
        now: Timestamp,
        emotion_scale: EmotionScale,
        text: Option<String>,
        ephemeral: bool,
    ) -> (entry: Option<ActiveEntry>)
        ensures
            entry_view(entry) == written_entry(
                self.id,
                self.timezone@,
                id,
                now,
                emotion_scale,
                text_view(text),
                ephemeral,
            ),
    {
        let date = match self.current_date_at(now) {
            Some(date) => date,
            None => {
                return None;
            },
        };
        let expiry = match daily_entry_expiry(self.timezone.as_str(), now) {
            Some(expiry) => expiry,
            None => {
                return None;
            },
        };
        Some(ActiveEntry { id, author: self.id, date, emotion_scale, text, expiry, ephemeral })
    }
}

} // verus!
