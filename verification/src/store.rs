//! The two stores and their transaction discipline, held in memory.
//!
//! The live store has at most one entry per author and day, and so has the
//! sealed store. A transaction works on the stores and leaves them as they were
//! unless it commits.
//!
//! This is the model of a relational store that the migration is proved
//! against: [`MemoryStore::migrate`] does on it what a [`Migration`] asks, and
//! its contract says what any store of this discipline holds afterwards.

use crate::entry::{
    ActiveEntry, ActiveEntryView, CalendarDate, EncryptedEntry, EncryptedEntryView, EntryId,
    Timestamp, UserId,
};
use crate::cipher::{lemma_sealing_keeps_identity, sealable, MasterKey};
use crate::error::MigrationError;
use crate::migration::{
    all_sealable, encrypt_batch, is_sealed_batch, transition, Migration, MigrationAction,
    MigrationActionView, MigrationEvent, MigrationEventView, MigrationView, Selector,
    SourceView,
};
use vstd::prelude::*;

verus! {

/// What the two stores hold.
pub struct StoreView {
    pub active: Seq<ActiveEntryView>,
    pub sealed: Seq<EncryptedEntryView>,
}

/// No two live entries are of one author and day.
pub open spec fn distinct_active(entries: Seq<ActiveEntryView>) -> bool {
    forall|i: int, j: int|
        0 <= i < j < entries.len() ==> !((#[trigger] entries[i]).author == (
        #[trigger] entries[j]).author && entries[i].date == entries[j].date)
}

/// No two sealed entries are of one author and day.
pub open spec fn distinct_sealed(records: Seq<EncryptedEntryView>) -> bool {
    forall|i: int, j: int|
        0 <= i < j < records.len() ==> !((#[trigger] records[i]).author == (
        #[trigger] records[j]).author && records[i].date == records[j].date)
}

/// A live entry of `author` for `date` is among `entries`.
pub open spec fn has_active(
    entries: Seq<ActiveEntryView>,
    author: UserId,
    date: CalendarDate,
) -> bool {
    exists|i: int|
        0 <= i < entries.len() && (#[trigger] entries[i]).author == author && entries[i].date
            == date
}

/// A sealed entry of `author` for `date` is among `records`.
pub open spec fn has_sealed(
    records: Seq<EncryptedEntryView>,
    author: UserId,
    date: CalendarDate,
) -> bool {
    exists|i: int|
        0 <= i < records.len() && (#[trigger] records[i]).author == author && records[i].date
            == date
}

/// The sealed entry `id` of `author` is among `records`.
pub open spec fn has_entry(records: Seq<EncryptedEntryView>, author: UserId, id: EntryId) -> bool {
    exists|i: int|
        0 <= i < records.len() && (#[trigger] records[i]).author == author && records[i].id == id
}

/// The live entry at `at` is the first of `author` for `date`.
pub open spec fn first_active_at(
    entries: Seq<ActiveEntryView>,
    author: UserId,
    date: CalendarDate,
    at: int,
) -> bool {
    &&& 0 <= at < entries.len()
    &&& entries[at].author == author
    &&& entries[at].date == date
    &&& forall|i: int|
        0 <= i < at ==> !((#[trigger] entries[i]).author == author && entries[i].date == date)
}

/// The sealed entry at `at` is the first with the identifier `id` of `author`.
pub open spec fn first_entry_at(
    records: Seq<EncryptedEntryView>,
    author: UserId,
    id: EntryId,
    at: int,
) -> bool {
    &&& 0 <= at < records.len()
    &&& records[at].author == author
    &&& records[at].id == id
    &&& forall|i: int|
        0 <= i < at ==> !((#[trigger] records[i]).author == author && records[i].id == id)
}

/// The test that a claim at `now` applies to each live entry.
pub open spec fn claim_test(selector: Selector, now: Timestamp) -> spec_fn(
    ActiveEntryView,
) -> bool {
    |entry: ActiveEntryView| selector.claims(entry, now)
}

/// The test that a claim at `now` spares an entry.
pub open spec fn spare_test(selector: Selector, now: Timestamp) -> spec_fn(
    ActiveEntryView,
) -> bool {
    |entry: ActiveEntryView| !selector.claims(entry, now)
}

/// The entries that a claim at `now` takes out of `entries`, in their order.
pub open spec fn claimed(entries: Seq<ActiveEntryView>, selector: Selector, now: Timestamp) -> Seq<
    ActiveEntryView,
> {
    entries.filter(claim_test(selector, now))
}

/// The entries that a claim at `now` leaves in `entries`, in their order.
pub open spec fn unclaimed(
    entries: Seq<ActiveEntryView>,
    selector: Selector,
    now: Timestamp,
) -> Seq<ActiveEntryView> {
    entries.filter(spare_test(selector, now))
}

impl StoreView {
    /// Both stores keep to one entry per author and day.
    pub open spec fn wf(self) -> bool {
        distinct_active(self.active) && distinct_sealed(self.sealed)
    }
}

/// Filtering the entries one longer: the last one is kept or dropped.
proof fn lemma_filter_push(
    entries: Seq<ActiveEntryView>,
    last: ActiveEntryView,
    test: spec_fn(ActiveEntryView) -> bool,
)
    ensures
        entries.push(last).filter(test) == if test(last) {
            entries.filter(test).push(last)
        } else {
            entries.filter(test)
        },
{
    reveal(Seq::filter);
    assert(entries.push(last).drop_last() =~= entries);
}

/// What is left of entries of distinct days has distinct days.
pub proof fn lemma_filter_keeps_distinct(
    entries: Seq<ActiveEntryView>,
    test: spec_fn(ActiveEntryView) -> bool,
)
    requires
        distinct_active(entries),
    ensures
        distinct_active(entries.filter(test)),
    decreases entries.len(),
{
    reveal(Seq::filter);
    if entries.len() > 0 {
        let init = entries.drop_last();
        let last = entries.last();
        lemma_filter_keeps_distinct(init, test);
        let kept = init.filter(test);
        if test(last) {
            assert forall|i: int, j: int| 0 <= i < j < kept.push(last).len() implies !((
            #[trigger] kept.push(last)[i]).author == (#[trigger] kept.push(last)[j]).author
                && kept.push(last)[i].date == kept.push(last)[j].date) by {
                if j == kept.len() {
                    init.lemma_filter_contains_rev(test, kept[i]);
                    let k = choose|k: int| 0 <= k < init.len() && init[k] == kept[i];
                    assert(entries[k] == kept[i]);
                    assert(entries[entries.len() - 1] == last);
                }
            }
        }
    }
}

/// A copy of live entries.
fn copy_active(entries: &Vec<ActiveEntry>) -> (copy: Vec<ActiveEntry>)
    ensures
        copy.deep_view() == entries.deep_view(),
{
    let mut copy: Vec<ActiveEntry> = Vec::new();
    let mut i: usize = 0;
    while i < entries.len()
        invariant
            i <= entries.len(),
            copy.len() == i,
            forall|j: int| 0 <= j < i ==> (#[trigger] copy[j])@ == entries[j]@,
        decreases entries.len() - i,
    {
        copy.push(entries[i].clone());
        i += 1;
    }
    assert(copy.deep_view() =~= entries.deep_view());
    copy
}

/// A copy of sealed entries.
fn copy_sealed(records: &Vec<EncryptedEntry>) -> (copy: Vec<EncryptedEntry>)
    ensures
        copy.deep_view() == records.deep_view(),
{
    let mut copy: Vec<EncryptedEntry> = Vec::new();
    let mut i: usize = 0;
    while i < records.len()
        invariant
            i <= records.len(),
            copy.len() == i,
            forall|j: int| 0 <= j < i ==> (#[trigger] copy[j])@ == records[j]@,
        decreases records.len() - i,
    {
        copy.push(records[i].clone());
        i += 1;
    }
    assert(copy.deep_view() =~= records.deep_view());
    copy
}

/// The stores as they were when the open transaction began.
struct Saved {
    active: Vec<ActiveEntry>,
    sealed: Vec<EncryptedEntry>,
}

/// The live store and the sealed store, with at most one open transaction.
pub struct MemoryStore {
    active: Vec<ActiveEntry>,
    sealed: Vec<EncryptedEntry>,
    saved: Option<Saved>,
}

impl MemoryStore {
    /// What the stores hold for whoever works on them now.
    pub closed spec fn working(&self) -> StoreView {
        StoreView { active: self.active.deep_view(), sealed: self.sealed.deep_view() }
    }

    /// Whether a transaction is open.
    pub closed spec fn in_transaction(&self) -> bool {
        self.saved is Some
    }

    /// What the stores hold once an open transaction is rolled back: what they
    /// held when it began. Outside a transaction, what they hold now.
    pub closed spec fn committed(&self) -> StoreView {
        match self.saved {
            Some(saved) => StoreView {
                active: saved.active.deep_view(),
                sealed: saved.sealed.deep_view(),
            },
            None => self.working(),
        }
    }

    /// Both states keep to one entry per author and day.
    pub open spec fn wf(&self) -> bool {
        self.working().wf() && self.committed().wf()
    }

    /// Outside a transaction every change is committed at once.
    pub proof fn lemma_no_transaction(&self)
        requires
            !self.in_transaction(),
        ensures
            self.committed() == self.working(),
    {
    }

    /// Two empty stores.
    pub fn new() -> (store: MemoryStore)
        ensures
            store.wf(),
            !store.in_transaction(),
            store.working() == (StoreView { active: Seq::empty(), sealed: Seq::empty() }),
    {
        let store = MemoryStore { active: Vec::new(), sealed: Vec::new(), saved: None };
        assert(store.working().active =~= Seq::empty());
        assert(store.working().sealed =~= Seq::empty());
        store
    }

    /// Opens a transaction, unless one is open.
    pub fn begin(&mut self) -> (begun: bool)
        requires
            old(self).wf(),
        ensures
            final(self).wf(),
            begun == !old(self).in_transaction(),
            final(self).in_transaction(),
            final(self).working() == old(self).working(),
            final(self).committed() == old(self).committed(),
    {
        if self.saved.is_some() {
            return false;
        }
        let saved = Saved { active: copy_active(&self.active), sealed: copy_sealed(&self.sealed) };
        self.saved = Some(saved);
        true
    }

    /// Commits the open transaction: what it did stays.
    pub fn commit(&mut self) -> (committed: bool)
        requires
            old(self).wf(),
        ensures
            final(self).wf(),
            committed == old(self).in_transaction(),
            !final(self).in_transaction(),
            final(self).working() == old(self).working(),
            final(self).committed() == old(self).working(),
    {
        let open = self.saved.is_some();
        self.saved = None;
        open
    }

    /// Rolls the open transaction back: the stores are as they were when it
    /// began.
    pub fn rollback(&mut self) -> (rolled_back: bool)
        requires
            old(self).wf(),
        ensures
            final(self).wf(),
            rolled_back == old(self).in_transaction(),
            !final(self).in_transaction(),
            final(self).working() == old(self).committed(),
            final(self).committed() == old(self).committed(),
    {
        match self.saved.take() {
            Some(saved) => {
                self.active = saved.active;
                self.sealed = saved.sealed;
                true
            },
            None => false,
        }
    }

    /// Deletes the live entries that `selector` claims at `now` and hands them
    /// over, in their order. Local drafts and entries whose window is still
    /// open stay.
    pub fn claim(&mut self, selector: Selector, now: Timestamp) -> (batch: Vec<ActiveEntry>)
        requires
            old(self).wf(),
        ensures
            final(self).wf(),
            batch.deep_view() == claimed(old(self).working().active, selector, now),
            final(self).working() == (StoreView {
                active: unclaimed(old(self).working().active, selector, now),
                sealed: old(self).working().sealed,
            }),
            final(self).in_transaction() == old(self).in_transaction(),
            old(self).in_transaction() ==> final(self).committed() == old(self).committed(),
    {
        let ghost before = self.active.deep_view();
        let mut batch: Vec<ActiveEntry> = Vec::new();
        let mut kept: Vec<ActiveEntry> = Vec::new();
        let mut i: usize = 0;
        while i < self.active.len()
            invariant
                i <= self.active.len(),
                self.active.deep_view() == before,
                batch.deep_view() == before.take(i as int).filter(claim_test(selector, now)),
                kept.deep_view() == before.take(i as int).filter(spare_test(selector, now)),
            decreases self.active.len() - i,
        {
            let entry = self.active[i].clone();
            proof {
                assert(before.take(i as int + 1) =~= before.take(i as int).push(before[i as int]));
                lemma_filter_push(before.take(i as int), entry@, claim_test(selector, now));
                lemma_filter_push(before.take(i as int), entry@, spare_test(selector, now));
            }
            let ghost batch_before = batch.deep_view();
            let ghost kept_before = kept.deep_view();
            if selector.selects(&entry, now) {
                batch.push(entry);
                assert(batch.deep_view() =~= batch_before.push(entry@));
            } else {
                kept.push(entry);
                assert(kept.deep_view() =~= kept_before.push(entry@));
            }
            i += 1;
        }
        proof {
            assert(before.take(i as int) =~= before);
            lemma_filter_keeps_distinct(before, spare_test(selector, now));
        }
        self.active = kept;
        batch
    }

    /// Inserts a sealed entry, unless one of its author and day is there.
    pub fn insert_sealed(&mut self, record: EncryptedEntry) -> (inserted: bool)
        requires
            old(self).wf(),
        ensures
            final(self).wf(),
            inserted == !has_sealed(old(self).working().sealed, record.author, record.date),
            final(self).working() == (if inserted {
                StoreView {
                    active: old(self).working().active,
                    sealed: old(self).working().sealed.push(record@),
                }
            } else {
                old(self).working()
            }),
            final(self).in_transaction() == old(self).in_transaction(),
            old(self).in_transaction() ==> final(self).committed() == old(self).committed(),
    {
        let mut i: usize = 0;
        while i < self.sealed.len()
            invariant
                i <= self.sealed.len(),
                *self == *old(self),
                self.wf(),
                !has_sealed(self.sealed.deep_view().take(i as int), record.author, record.date),
            decreases self.sealed.len() - i,
        {
            if self.sealed[i].author == record.author && self.sealed[i].date == record.date {
                assert(self.sealed.deep_view()[i as int].author == record.author);
                return false;
            }
            proof {
                let seen = self.sealed.deep_view().take(i as int + 1);
                assert forall|k: int| 0 <= k < seen.len() implies !((#[trigger] seen[k]).author
                    == record.author && seen[k].date == record.date) by {
                    if k < i {
                        assert(self.sealed.deep_view().take(i as int)[k] == seen[k]);
                    }
                }
            }
            i += 1;
        }
        let ghost before = self.sealed.deep_view();
        assert(before.take(i as int) =~= before);
        self.sealed.push(record);
        assert(self.sealed.deep_view() =~= before.push(record@));
        true
    }
}

/// The sealed store takes every record of the batch: no entry of the batch is
/// of an author and day that the sealed store has, and no two are of one
/// author and day.
pub open spec fn batch_fits(sealed: Seq<EncryptedEntryView>, batch: Seq<ActiveEntryView>) -> bool {
    &&& forall|i: int|
        0 <= i < batch.len() ==> !has_sealed(sealed, (#[trigger] batch[i]).author, batch[i].date)
    &&& distinct_active(batch)
}

/// What a migration of `batch` makes of the stores `before`, where `remaining`
/// are the live entries that the batch leaves behind.
///
/// It succeeds exactly if every entry of the batch can be sealed and the sealed
/// store takes every record. Then the batch is out of the live store, and
/// behind what the sealed store held stands one sealed record of each entry, in
/// the order of the batch. Else nothing has changed, and the failure says which
/// of the two it was: sealing is tried first.
pub open spec fn batch_result(
    before: StoreView,
    batch: Seq<ActiveEntryView>,
    remaining: Seq<ActiveEntryView>,
    master_key: Seq<u8>,
    outcome: Result<usize, MigrationError>,
    after: StoreView,
) -> bool {
    match outcome {
        Ok(count) => {
            &&& all_sealable(batch)
            &&& batch_fits(before.sealed, batch)
            &&& count == batch.len()
            &&& after.active == remaining
            &&& after.sealed.len() == before.sealed.len() + batch.len()
            &&& after.sealed.take(before.sealed.len() as int) == before.sealed
            &&& is_sealed_batch(after.sealed.skip(before.sealed.len() as int), batch, master_key)
        },
        Err(MigrationError::EncryptionFailed) => {
            &&& !all_sealable(batch)
            &&& after == before
        },
        Err(MigrationError::PersistFailed) => {
            &&& all_sealable(batch)
            &&& !batch_fits(before.sealed, batch)
            &&& after == before
        },
    }
}

/// The first `count` entries of the batch went into the sealed store.
spec fn fits_so_far(
    sealed: Seq<EncryptedEntryView>,
    batch: Seq<ActiveEntryView>,
    count: int,
) -> bool {
    &&& forall|i: int|
        0 <= i < count ==> !has_sealed(sealed, (#[trigger] batch[i]).author, batch[i].date)
    &&& forall|i: int, j: int|
        0 <= i < j < count ==> !((#[trigger] batch[i]).author == (#[trigger] batch[j]).author
            && batch[i].date == batch[j].date)
}

/// How many steps a migration in `state` has before it, at most.
spec fn steps_left(state: MigrationView, batch_len: int) -> int {
    match state {
        MigrationView::Beginning { .. } => batch_len + 5,
        MigrationView::Claiming => batch_len + 4,
        MigrationView::Sealing { .. } => batch_len + 3,
        MigrationView::Inserting { sealed, at } => sealed.len() - at + 2,
        MigrationView::Committing { .. } => 1,
        MigrationView::RollingBack { .. } => 1,
        MigrationView::Finished { .. } => 0,
    }
}

/// The state of a migration, its next action and the stores agree.
spec fn coherent(
    state: MigrationView,
    action: MigrationActionView,
    working: StoreView,
    committed: StoreView,
    in_transaction: bool,
    before: StoreView,
    batch: Seq<ActiveEntryView>,
    remaining: Seq<ActiveEntryView>,
    master_key: Seq<u8>,
    now: Timestamp,
) -> bool {
    match state {
        MigrationView::Beginning { source } => {
            &&& action == MigrationActionView::Begin
            &&& !in_transaction
            &&& working == before
            &&& committed == before
            &&& match source {
                SourceView::Claim(selector) => batch == claimed(before.active, selector, now)
                    && remaining == unclaimed(before.active, selector, now),
                SourceView::Batch(entries) => batch == entries && remaining == before.active,
            }
        },
        MigrationView::Claiming => {
            &&& action matches MigrationActionView::Claim(selector)
            &&& batch == claimed(before.active, selector, now)
            &&& remaining == unclaimed(before.active, selector, now)
            &&& in_transaction
            &&& working == before
            &&& committed == before
        },
        MigrationView::Sealing { claimed } => {
            &&& action == MigrationActionView::Encrypt(batch)
            &&& claimed == batch.len()
            &&& batch.len() > 0
            &&& in_transaction
            &&& committed == before
            &&& working == (StoreView { active: remaining, sealed: before.sealed })
        },
        MigrationView::Inserting { sealed, at } => {
            &&& 0 <= at < sealed.len()
            &&& action == MigrationActionView::Insert(sealed[at])
            &&& is_sealed_batch(sealed, batch, master_key)
            &&& all_sealable(batch)
            &&& fits_so_far(before.sealed, batch, at)
            &&& in_transaction
            &&& committed == before
            &&& working == (StoreView {
                active: remaining,
                sealed: before.sealed + sealed.take(at),
            })
        },
        MigrationView::Committing { count } => {
            &&& action == MigrationActionView::Commit
            &&& in_transaction
            &&& committed == before
            &&& batch_result(before, batch, remaining, master_key, Ok(count), working)
        },
        MigrationView::RollingBack { cause } => {
            &&& action == MigrationActionView::Rollback
            &&& in_transaction
            &&& committed == before
            &&& batch_result(before, batch, remaining, master_key, Err(cause), before)
        },
        MigrationView::Finished { outcome } => {
            &&& action == MigrationActionView::Finish(outcome)
            &&& !in_transaction
            &&& working == committed
            &&& batch_result(before, batch, remaining, master_key, outcome, committed)
        },
    }
}

/// What the stores and the driver make of an action: the event that goes
/// back to the migration, and the stores afterwards.
spec fn performed(
    action: MigrationActionView,
    event: MigrationEventView,
    working: StoreView,
    committed: StoreView,
    in_transaction: bool,
    working_after: StoreView,
    committed_after: StoreView,
    in_transaction_after: bool,
    master_key: Seq<u8>,
    now: Timestamp,
) -> bool {
    match action {
        MigrationActionView::Begin => {
            &&& event == (if in_transaction {
                MigrationEventView::StoreFailed
            } else {
                MigrationEventView::Done
            })
            &&& in_transaction_after
            &&& working_after == working
            &&& committed_after == committed
        },
        MigrationActionView::Claim(selector) => {
            &&& event == MigrationEventView::Claimed(claimed(working.active, selector, now))
            &&& working_after == (StoreView {
                active: unclaimed(working.active, selector, now),
                sealed: working.sealed,
            })
            &&& in_transaction_after == in_transaction
            &&& in_transaction ==> committed_after == committed
        },
        MigrationActionView::Encrypt(entries) => {
            &&& match event {
                MigrationEventView::Sealed(records) => all_sealable(entries) && is_sealed_batch(
                    records,
                    entries,
                    master_key,
                ),
                MigrationEventView::SealingFailed => !all_sealable(entries),
                _ => false,
            }
            &&& working_after == working
            &&& committed_after == committed
            &&& in_transaction_after == in_transaction
        },
        MigrationActionView::Insert(record) => {
            &&& event == (if has_sealed(working.sealed, record.author, record.date) {
                MigrationEventView::StoreFailed
            } else {
                MigrationEventView::Done
            })
            &&& working_after == (if event == MigrationEventView::Done {
                StoreView { active: working.active, sealed: working.sealed.push(record) }
            } else {
                working
            })
            &&& in_transaction_after == in_transaction
            &&& in_transaction ==> committed_after == committed
        },
        MigrationActionView::Commit => {
            &&& event == (if in_transaction {
                MigrationEventView::Done
            } else {
                MigrationEventView::StoreFailed
            })
            &&& !in_transaction_after
            &&& working_after == working
            &&& committed_after == working
        },
        MigrationActionView::Rollback => {
            &&& event == (if in_transaction {
                MigrationEventView::Done
            } else {
                MigrationEventView::StoreFailed
            })
            &&& !in_transaction_after
            &&& working_after == committed
            &&& committed_after == committed
        },
        MigrationActionView::Finish(_) => false,
    }
}

/// A record that the sealed store refuses shows that the batch does not fit;
/// one that it takes shows that the batch fits one entry further.
proof fn lemma_insert_tells(
    before: Seq<EncryptedEntryView>,
    sealed: Seq<EncryptedEntryView>,
    batch: Seq<ActiveEntryView>,
    master_key: Seq<u8>,
    at: int,
)
    requires
        0 <= at < sealed.len(),
        is_sealed_batch(sealed, batch, master_key),
        fits_so_far(before, batch, at),
    ensures
        has_sealed(before + sealed.take(at), sealed[at].author, sealed[at].date) ==> !batch_fits(
            before,
            batch,
        ),
        !has_sealed(before + sealed.take(at), sealed[at].author, sealed[at].date) ==> fits_so_far(
            before,
            batch,
            at + 1,
        ),
{
    let held = before + sealed.take(at);
    let author = sealed[at].author;
    let date = sealed[at].date;
    assert forall|i: int| 0 <= i < batch.len() implies (#[trigger] sealed[i]).author
        == batch[i].author && sealed[i].date == batch[i].date by {
        lemma_sealing_keeps_identity(sealed[i], batch[i], master_key);
    }
    if has_sealed(held, author, date) {
        let k = choose|k: int|
            0 <= k < held.len() && (#[trigger] held[k]).author == author && held[k].date == date;
        if k < before.len() {
            assert(held[k] == before[k]);
            assert(has_sealed(before, batch[at].author, batch[at].date));
        } else {
            let i = k - before.len();
            assert(held[k] == sealed[i]);
            assert(batch[i].author == batch[at].author && batch[i].date == batch[at].date);
            assert(!distinct_active(batch));
        }
    } else {
        assert forall|i: int| 0 <= i < at + 1 implies !has_sealed(
            before,
            (#[trigger] batch[i]).author,
            batch[i].date,
        ) by {
            if i == at && has_sealed(before, batch[at].author, batch[at].date) {
                let k = choose|k: int|
                    0 <= k < before.len() && (#[trigger] before[k]).author == batch[at].author
                        && before[k].date == batch[at].date;
                assert(held[k] == before[k]);
            }
        }
        assert forall|i: int, j: int| 0 <= i < j < at + 1 implies !((#[trigger] batch[i]).author
            == (#[trigger] batch[j]).author && batch[i].date == batch[j].date) by {
            if j == at && batch[i].author == batch[j].author && batch[i].date == batch[j].date {
                assert(held[before.len() + i] == sealed[i]);
            }
        }
    }
}

/// Whatever the stores answer, the next state of the migration agrees with
/// them again, and is nearer to the end.
proof fn lemma_step_keeps_coherent(
    state: MigrationView,
    action: MigrationActionView,
    event: MigrationEventView,
    working: StoreView,
    committed: StoreView,
    in_transaction: bool,
    working_after: StoreView,
    committed_after: StoreView,
    in_transaction_after: bool,
    before: StoreView,
    batch: Seq<ActiveEntryView>,
    remaining: Seq<ActiveEntryView>,
    master_key: Seq<u8>,
    now: Timestamp,
)
    requires
        state.wf(),
        before.wf(),
        working.wf(),
        batch.len() <= usize::MAX,
        coherent(
            state,
            action,
            working,
            committed,
            in_transaction,
            before,
            batch,
            remaining,
            master_key,
            now,
        ),
        performed(
            action,
            event,
            working,
            committed,
            in_transaction,
            working_after,
            committed_after,
            in_transaction_after,
            master_key,
            now,
        ),
    ensures
        coherent(
            transition(state, event).0,
            transition(state, event).1,
            working_after,
            committed_after,
            in_transaction_after,
            before,
            batch,
            remaining,
            master_key,
            now,
        ),
        steps_left(transition(state, event).0, batch.len() as int) < steps_left(
            state,
            batch.len() as int,
        ),
{
    match state {
        MigrationView::Beginning { source } => {
            match source {
                SourceView::Claim(selector) => {},
                SourceView::Batch(entries) => {
                    lemma_empty_batch(before, batch, remaining, master_key);
                },
            }
        },
        MigrationView::Claiming => {
            lemma_empty_batch(before, batch, remaining, master_key);
        },
        MigrationView::Sealing { claimed } => {
            match event {
                MigrationEventView::Sealed(records) => {
                    assert(before.sealed + records.take(0) =~= before.sealed);
                },
                _ => {},
            }
        },
        MigrationView::Inserting { sealed, at } => {
            lemma_insert_tells(before.sealed, sealed, batch, master_key, at);
            if event == MigrationEventView::Done {
                assert(working_after.sealed =~= before.sealed + sealed.take(at + 1));
                if at + 1 >= sealed.len() {
                    assert(sealed.take(at + 1) =~= sealed);
                    assert(working_after.sealed.take(before.sealed.len() as int)
                        =~= before.sealed);
                    assert(working_after.sealed.skip(before.sealed.len() as int) =~= sealed);
                    assert(distinct_active(batch));
                }
            }
        },
        MigrationView::Committing { count } => {},
        MigrationView::RollingBack { cause } => {},
        MigrationView::Finished { outcome } => {},
    }
}

/// A batch of no entries fits, is sealed by no records, and leaves the sealed
/// store as it is.
proof fn lemma_empty_batch(
    before: StoreView,
    batch: Seq<ActiveEntryView>,
    remaining: Seq<ActiveEntryView>,
    master_key: Seq<u8>,
)
    ensures
        batch.len() == 0 ==> batch_result(
            before,
            batch,
            remaining,
            master_key,
            Ok(0),
            StoreView { active: remaining, sealed: before.sealed },
        ),
{
    if batch.len() == 0 {
        assert(before.sealed.take(before.sealed.len() as int) =~= before.sealed);
        assert(before.sealed.skip(before.sealed.len() as int).len() == 0);
    }
}

impl MemoryStore {
    /// Whether a transaction is open.
    pub fn is_in_transaction(&self) -> (open: bool)
        ensures
            open == self.in_transaction(),
    {
        self.saved.is_some()
    }

    /// Does on the stores what a migration asks, step by step, until it is
    /// over.
    fn drive(
        &mut self,
        start: (Migration, MigrationAction),
        now: Timestamp,
        master_key: &MasterKey,
        Ghost(batch): Ghost<Seq<ActiveEntryView>>,
        Ghost(remaining): Ghost<Seq<ActiveEntryView>>,
    ) -> (outcome: Result<usize, MigrationError>)
        requires
            old(self).wf(),
            start.0@.wf(),
            start.0@ is Beginning,
            batch.len() <= usize::MAX,
            coherent(
                start.0@,
                start.1@,
                old(self).working(),
                old(self).committed(),
                old(self).in_transaction(),
                old(self).committed(),
                batch,
                remaining,
                master_key@,
                now,
            ),
        ensures
            final(self).wf(),
            !final(self).in_transaction(),
            final(self).working() == final(self).committed(),
            batch_result(
                old(self).committed(),
                batch,
                remaining,
                master_key@,
                outcome,
                final(self).committed(),
            ),
    {
        let ghost before = self.committed();
        let (mut migration, mut action) = start;
        loop
            invariant
                self.wf(),
                before.wf(),
                before == old(self).committed(),
                batch.len() <= usize::MAX,
                migration@.wf(),
                coherent(
                    migration@,
                    action@,
                    self.working(),
                    self.committed(),
                    self.in_transaction(),
                    before,
                    batch,
                    remaining,
                    master_key@,
                    now,
                ),
            decreases steps_left(migration@, batch.len() as int),
        {
            let ghost state = migration@;
            let ghost asked = action@;
            let ghost working = self.working();
            let ghost committed = self.committed();
            let ghost in_transaction = self.in_transaction();
            let event = match action {
                MigrationAction::Begin => {
                    if self.begin() {
                        MigrationEvent::Done
                    } else {
                        MigrationEvent::StoreFailed
                    }
                },
                MigrationAction::Claim(selector) => MigrationEvent::Claimed(
                    self.claim(selector, now),
                ),
                MigrationAction::Encrypt(entries) => MigrationEvent::from_sealing(
                    encrypt_batch(&entries, master_key),
                ),
                MigrationAction::Insert(record) => {
                    if self.insert_sealed(record) {
                        MigrationEvent::Done
                    } else {
                        MigrationEvent::StoreFailed
                    }
                },
                MigrationAction::Commit => {
                    if self.commit() {
                        MigrationEvent::Done
                    } else {
                        MigrationEvent::StoreFailed
                    }
                },
                MigrationAction::Rollback => {
                    if self.rollback() {
                        MigrationEvent::Done
                    } else {
                        MigrationEvent::StoreFailed
                    }
                },
                MigrationAction::Finish(outcome) => {
                    return outcome;
                },
            };
            proof {
                assert(performed(
                    asked,
                    event@,
                    working,
                    committed,
                    in_transaction,
                    self.working(),
                    self.committed(),
                    self.in_transaction(),
                    master_key@,
                    now,
                ));
                lemma_step_keeps_coherent(
                    state,
                    asked,
                    event@,
                    working,
                    committed,
                    in_transaction,
                    self.working(),
                    self.committed(),
                    self.in_transaction(),
                    before,
                    batch,
                    remaining,
                    master_key@,
                    now,
                );
            }
            let next = migration.step(event);
            migration = next.0;
            action = next.1;
        }
    }
}

/// A claim that takes nothing leaves everything.
pub proof fn lemma_nothing_claimed(
    entries: Seq<ActiveEntryView>,
    selector: Selector,
    now: Timestamp,
)
    requires
        claimed(entries, selector, now).len() == 0,
    ensures
        unclaimed(entries, selector, now) == entries,
    decreases entries.len(),
{
    reveal(Seq::filter);
    if entries.len() > 0 {
        let init = entries.drop_last();
        let last = entries.last();
        assert(init.push(last) =~= entries);
        lemma_filter_push(init, last, claim_test(selector, now));
        lemma_filter_push(init, last, spare_test(selector, now));
        lemma_nothing_claimed(init, selector, now);
    } else {
        assert(unclaimed(entries, selector, now) =~= entries);
    }
}

/// What a claim has left, a second claim with the same selector at the same
/// instant takes nothing of: no entry is claimed twice.
pub proof fn lemma_claimed_once(entries: Seq<ActiveEntryView>, selector: Selector, now: Timestamp)
    ensures
        claimed(unclaimed(entries, selector, now), selector, now).len() == 0,
{
    let left = unclaimed(entries, selector, now);
    let again = claimed(left, selector, now);
    if again.len() > 0 {
        left.lemma_filter_pred(claim_test(selector, now), 0);
        left.lemma_filter_contains_rev(claim_test(selector, now), again[0]);
        let k = choose|k: int| 0 <= k < left.len() && left[k] == again[0];
        entries.lemma_filter_pred(spare_test(selector, now), k);
    }
}

/// No local draft is ever claimed.
pub proof fn lemma_drafts_stay(
    entries: Seq<ActiveEntryView>,
    selector: Selector,
    now: Timestamp,
    i: int,
)
    requires
        0 <= i < claimed(entries, selector, now).len(),
    ensures
        !claimed(entries, selector, now)[i].ephemeral,
        claimed(entries, selector, now)[i].expiry < now,
{
    entries.lemma_filter_pred(claim_test(selector, now), i);
}

impl MemoryStore {
    /// Runs the migration transaction for the entries that `selector` claims at
    /// `now`.
    ///
    /// All or nothing: on success the claimed entries have left the live store
    /// and stand sealed, in their order, behind what the sealed store held; on
    /// failure both stores are as they were. With nothing to claim the result
    /// is `Ok(0)` and nothing changes. A store with an open transaction
    /// refuses.
    pub fn migrate(
        &mut self,
        selector: Selector,
        now: Timestamp,
        master_key: &MasterKey,
    ) -> (outcome: Result<usize, MigrationError>)
        requires
            old(self).wf(),
        ensures
            final(self).wf(),
            final(self).in_transaction() == old(self).in_transaction(),
            old(self).in_transaction() ==> outcome == Err::<usize, MigrationError>(
                MigrationError::PersistFailed,
            ) && final(self).working() == old(self).working() && final(self).committed() == old(
                self,
            ).committed(),
            !old(self).in_transaction() ==> final(self).working() == final(self).committed()
                && batch_result(
                old(self).committed(),
                claimed(old(self).committed().active, selector, now),
                unclaimed(old(self).committed().active, selector, now),
                master_key@,
                outcome,
                final(self).committed(),
            ),
            outcome is Err ==> final(self).committed() == old(self).committed(),
            !old(self).in_transaction() && claimed(
                old(self).committed().active,
                selector,
                now,
            ).len() == 0 ==> outcome == Ok::<usize, MigrationError>(0) && final(self).committed()
                == old(self).committed(),
    {
        if self.is_in_transaction() {
            return Err(MigrationError::PersistFailed);
        }
        let ghost before = self.committed();
        let ghost batch = claimed(before.active, selector, now);
        let ghost remaining = unclaimed(before.active, selector, now);
        proof {
            if batch.len() == 0 {
                lemma_nothing_claimed(before.active, selector, now);
            }
            lemma_filter_keeps_distinct(before.active, claim_test(selector, now));
            before.active.lemma_filter_len(claim_test(selector, now));
            assert(before.active.len() == self.active.len());
        }
        let outcome = self.drive(
            Migration::start(selector),
            now,
            master_key,
            Ghost(batch),
            Ghost(remaining),
        );
        proof {
            if batch.len() == 0 {
                assert(self.committed().sealed =~= before.sealed);
            }
        }
        outcome
    }

    /// Seals and inserts, as one batch, entries that never were in the live
    /// store.
    ///
    /// All or nothing: on success one sealed record of each entry stands, in
    /// their order, behind what the sealed store held; on failure both stores
    /// are as they were. The live store is not touched. A store with an open
    /// transaction refuses.
    pub fn import(&mut self, entries: Vec<ActiveEntry>, master_key: &MasterKey) -> (outcome: Result<
        usize,
        MigrationError,
    >)
        requires
            old(self).wf(),
        ensures
            final(self).wf(),
            final(self).in_transaction() == old(self).in_transaction(),
            old(self).in_transaction() ==> outcome == Err::<usize, MigrationError>(
                MigrationError::PersistFailed,
            ) && final(self).working() == old(self).working() && final(self).committed() == old(
                self,
            ).committed(),
            !old(self).in_transaction() ==> final(self).working() == final(self).committed()
                && batch_result(
                old(self).committed(),
                entries.deep_view(),
                old(self).committed().active,
                master_key@,
                outcome,
                final(self).committed(),
            ),
            outcome is Err ==> final(self).committed() == old(self).committed(),
    {
        if self.is_in_transaction() {
            return Err(MigrationError::PersistFailed);
        }
        let ghost batch = entries.deep_view();
        let ghost remaining = self.committed().active;
        assert(batch.len() == entries.len());
        self.drive(Migration::import(entries), 0, master_key, Ghost(batch), Ghost(remaining))
    }
}

/// The row that an upsert of `entry` leaves where `row` stood: the mood and the
/// text are replaced, the rest of the row stays.
pub open spec fn overwritten(row: ActiveEntryView, entry: ActiveEntryView) -> ActiveEntryView {
    ActiveEntryView {
        id: row.id,
        author: row.author,
        date: row.date,
        emotion_scale: entry.emotion_scale,
        text: entry.text,
        expiry: row.expiry,
        ephemeral: row.ephemeral,
    }
}

/// The live entries after an upsert of `entry`: the row of its author and day
/// is overwritten where there is one, else `entry` is added.
pub open spec fn upserted(entries: Seq<ActiveEntryView>, entry: ActiveEntryView) -> Seq<
    ActiveEntryView,
> {
    if has_active(entries, entry.author, entry.date) {
        let at = choose|i: int|
            0 <= i < entries.len() && (#[trigger] entries[i]).author == entry.author
                && entries[i].date == entry.date;
        entries.update(at, overwritten(entries[at], entry))
    } else {
        entries.push(entry)
    }
}

impl MemoryStore {
    /// Writes the entry of an author for a day: overwrites the mood and the
    /// text of the live entry of that author and day, or adds `entry` where
    /// there is none. Hands back the row as it stands.
    pub fn upsert_active(&mut self, entry: ActiveEntry) -> (stored: ActiveEntry)
        requires
            old(self).wf(),
        ensures
            final(self).wf(),
            final(self).working() == (StoreView {
                active: upserted(old(self).working().active, entry@),
                sealed: old(self).working().sealed,
            }),
            final(self).working().active.contains(stored@),
            stored.author == entry.author,
            stored.date == entry.date,
            stored.emotion_scale == entry.emotion_scale,
            stored@.text == entry@.text,
            final(self).in_transaction() == old(self).in_transaction(),
            old(self).in_transaction() ==> final(self).committed() == old(self).committed(),
    {
        let ghost before = self.active.deep_view();
        let mut i: usize = 0;
        while i < self.active.len()
            invariant
                i <= self.active.len(),
                *self == *old(self),
                self.wf(),
                before == self.active.deep_view(),
                forall|k: int|
                    0 <= k < i ==> !((#[trigger] before[k]).author == entry.author && before[k].date
                        == entry.date),
            decreases self.active.len() - i,
        {
            if self.active[i].author == entry.author && self.active[i].date == entry.date {
                let row = ActiveEntry {
                    id: self.active[i].id,
                    author: self.active[i].author,
                    date: self.active[i].date,
                    emotion_scale: entry.emotion_scale,
                    text: entry.text,
                    expiry: self.active[i].expiry,
                    ephemeral: self.active[i].ephemeral,
                };
                let stored = row.clone();
                self.active.set(i, row);
                proof {
                    assert(before[i as int].author == entry.author);
                    let at = choose|k: int|
                        0 <= k < before.len() && (#[trigger] before[k]).author == entry.author
                            && before[k].date == entry.date;
                    assert(at == i);
                    let after = before.update(i as int, overwritten(before[i as int], entry@));
                    assert(self.active.deep_view() =~= after);
                    assert(after[i as int] == stored@);
                    assert forall|a: int, b: int| 0 <= a < b < after.len() implies !((
                    #[trigger] after[a]).author == (#[trigger] after[b]).author && after[a].date
                        == after[b].date) by {
                        assert(after[a].author == before[a].author && after[a].date
                            == before[a].date);
                        assert(after[b].author == before[b].author && after[b].date
                            == before[b].date);
                    }
                }
                return stored;
            }
            i += 1;
        }
        let stored = entry.clone();
        self.active.push(entry);
        proof {
            let after = before.push(entry@);
            assert(self.active.deep_view() =~= after);
            assert(after[before.len() as int] == stored@);
            assert(!has_active(before, entry.author, entry.date));
        }
        stored
    }

    /// The live entry of `author` for `date`, if there is one.
    pub fn get_active(&self, author: UserId, date: CalendarDate) -> (found: Option<ActiveEntry>)
        ensures
            found is Some <==> has_active(self.working().active, author, date),
            found matches Some(entry) ==> exists|at: int|
                first_active_at(self.working().active, author, date, at)
                    && #[trigger] self.working().active[at] == entry@,
    {
        let mut i: usize = 0;
        while i < self.active.len()
            invariant
                i <= self.active.len(),
                forall|k: int|
                    0 <= k < i ==> !((#[trigger] self.active.deep_view()[k]).author == author
                        && self.active.deep_view()[k].date == date),
            decreases self.active.len() - i,
        {
            if self.active[i].author == author && self.active[i].date == date {
                let entry = self.active[i].clone();
                assert(first_active_at(self.working().active, author, date, i as int));
                assert(self.working().active[i as int] == entry@);
                return Some(entry);
            }
            i += 1;
        }
        None
    }

    /// The sealed entry `id` of `author`, if there is one: the first such in
    /// the order of the store. An entry of another author is never found.
    pub fn get_entry(&self, author: UserId, id: EntryId) -> (found: Option<EncryptedEntry>)
        ensures
            found is Some <==> has_entry(self.working().sealed, author, id),
            found matches Some(record) ==> exists|at: int|
                first_entry_at(self.working().sealed, author, id, at)
                    && #[trigger] self.working().sealed[at] == record@,
    {
        let mut i: usize = 0;
        while i < self.sealed.len()
            invariant
                i <= self.sealed.len(),
                forall|k: int|
                    0 <= k < i ==> !((#[trigger] self.sealed.deep_view()[k]).author == author
                        && self.sealed.deep_view()[k].id == id),
            decreases self.sealed.len() - i,
        {
            if self.sealed[i].author == author && self.sealed[i].id == id {
                let record = self.sealed[i].clone();
                assert(first_entry_at(self.working().sealed, author, id, i as int));
                assert(self.working().sealed[i as int] == record@);
                return Some(record);
            }
            i += 1;
        }
        None
    }

    /// A copy of the live entries, in the order of the store.
    pub fn active_entries(&self) -> (entries: Vec<ActiveEntry>)
        ensures
            entries.deep_view() == self.working().active,
    {
        copy_active(&self.active)
    }

    /// A copy of the sealed entries, in the order of the store.
    pub fn sealed_entries(&self) -> (records: Vec<EncryptedEntry>)
        ensures
            records.deep_view() == self.working().sealed,
    {
        copy_sealed(&self.sealed)
    }
}

/// Atomicity: a batch with an entry that cannot be sealed, a local draft among
/// them, creates no sealed entry and leaves the live entries exactly as they
/// were, wherever in the batch that entry stands.
pub proof fn lemma_unsealable_entry_aborts_batch(
    before: StoreView,
    batch: Seq<ActiveEntryView>,
    remaining: Seq<ActiveEntryView>,
    master_key: Seq<u8>,
    outcome: Result<usize, MigrationError>,
    after: StoreView,
    at: int,
)
    requires
        batch_result(before, batch, remaining, master_key, outcome, after),
        0 <= at < batch.len(),
        batch[at].ephemeral || !sealable(batch[at]),
    ensures
        outcome == Err::<usize, MigrationError>(MigrationError::EncryptionFailed),
        after == before,
{
    assert(!sealable(batch[at]));
}

/// A migration that fails, of whatever cause, leaves both stores as they were.
pub proof fn lemma_failure_changes_nothing(
    before: StoreView,
    batch: Seq<ActiveEntryView>,
    remaining: Seq<ActiveEntryView>,
    master_key: Seq<u8>,
    outcome: Result<usize, MigrationError>,
    after: StoreView,
)
    requires
        batch_result(before, batch, remaining, master_key, outcome, after),
        outcome is Err,
    ensures
        after == before,
{
}

/// A migration with nothing to claim returns 0 and leaves both stores as they
/// were.
pub proof fn lemma_empty_migration(
    before: StoreView,
    selector: Selector,
    now: Timestamp,
    master_key: Seq<u8>,
    outcome: Result<usize, MigrationError>,
    after: StoreView,
)
    requires
        claimed(before.active, selector, now).len() == 0,
        batch_result(
            before,
            claimed(before.active, selector, now),
            unclaimed(before.active, selector, now),
            master_key,
            outcome,
            after,
        ),
    ensures
        outcome == Ok::<usize, MigrationError>(0),
        after == before,
{
    lemma_nothing_claimed(before.active, selector, now);
    let batch = claimed(before.active, selector, now);
    assert(all_sealable(batch));
    assert(batch_fits(before.sealed, batch));
    assert(after.sealed =~= after.sealed.take(before.sealed.len() as int));
}

/// A migration that succeeds keeps both stores to one entry per author and
/// day, and every entry of the batch is in the sealed store afterwards.
pub proof fn lemma_migrated_entries_are_sealed(
    before: StoreView,
    batch: Seq<ActiveEntryView>,
    remaining: Seq<ActiveEntryView>,
    master_key: Seq<u8>,
    count: usize,
    after: StoreView,
)
    requires
        distinct_sealed(before.sealed),
        distinct_active(remaining),
        batch_result(before, batch, remaining, master_key, Ok(count), after),
    ensures
        after.wf(),
        forall|i: int|
            0 <= i < batch.len() ==> has_sealed(
                after.sealed,
                (#[trigger] batch[i]).author,
                batch[i].date,
            ) && has_entry(after.sealed, batch[i].author, batch[i].id),
{
    let old_len = before.sealed.len() as int;
    let fresh = after.sealed.skip(old_len);
    assert forall|i: int| 0 <= i < batch.len() implies (#[trigger] after.sealed[old_len + i]).author
        == batch[i].author && after.sealed[old_len + i].date == batch[i].date
        && after.sealed[old_len + i].id == batch[i].id by {
        assert(fresh[i] == after.sealed[old_len + i]);
        lemma_sealing_keeps_identity(fresh[i], batch[i], master_key);
    }
    assert forall|k: int| 0 <= k < old_len implies #[trigger] after.sealed[k]
        == before.sealed[k] by {
        assert(after.sealed.take(old_len)[k] == after.sealed[k]);
    }
    assert forall|i: int, j: int| 0 <= i < j < after.sealed.len() implies !((
    #[trigger] after.sealed[i]).author == (#[trigger] after.sealed[j]).author
        && after.sealed[i].date == after.sealed[j].date) by {
        if j >= old_len {
            let b = j - old_len;
            assert(after.sealed[old_len + b].author == batch[b].author);
            if i >= old_len {
                let a = i - old_len;
                assert(after.sealed[old_len + a].author == batch[a].author);
            } else {
                assert(after.sealed[i] == before.sealed[i]);
                assert(!has_sealed(before.sealed, batch[b].author, batch[b].date));
            }
        } else {
            assert(after.sealed[i] == before.sealed[i]);
            assert(after.sealed[j] == before.sealed[j]);
        }
    }
    assert forall|i: int| 0 <= i < batch.len() implies has_sealed(
        after.sealed,
        (#[trigger] batch[i]).author,
        batch[i].date,
    ) && has_entry(after.sealed, batch[i].author, batch[i].id) by {
        assert(after.sealed[old_len + i].author == batch[i].author);
    }
}

/// At most one migration: of two migrations with one selector at one instant,
/// run one after the other, the second claims nothing of what the first
/// migrated. It returns 0, surfaces no failure and leaves the stores as the
/// first left them, with exactly one sealed entry for each entry claimed.
pub proof fn lemma_at_most_one_migration(
    before: StoreView,
    selector: Selector,
    now: Timestamp,
    master_key: Seq<u8>,
    count: usize,
    between: StoreView,
    second: Result<usize, MigrationError>,
    after: StoreView,
)
    requires
        before.wf(),
        batch_result(
            before,
            claimed(before.active, selector, now),
            unclaimed(before.active, selector, now),
            master_key,
            Ok(count),
            between,
        ),
        batch_result(
            between,
            claimed(between.active, selector, now),
            unclaimed(between.active, selector, now),
            master_key,
            second,
            after,
        ),
    ensures
        second == Ok::<usize, MigrationError>(0),
        after == between,
        after.wf(),
        forall|i: int|
            0 <= i < claimed(before.active, selector, now).len() ==> has_sealed(
                after.sealed,
                (#[trigger] claimed(before.active, selector, now)[i]).author,
                claimed(before.active, selector, now)[i].date,
            ) && !has_active(
                after.active,
                claimed(before.active, selector, now)[i].author,
                claimed(before.active, selector, now)[i].date,
            ),
{
    let batch = claimed(before.active, selector, now);
    let left = unclaimed(before.active, selector, now);
    lemma_claimed_once(before.active, selector, now);
    lemma_empty_migration(between, selector, now, master_key, second, after);
    lemma_filter_keeps_distinct(before.active, spare_test(selector, now));
    lemma_migrated_entries_are_sealed(before, batch, left, master_key, count, between);
    assert forall|i: int| 0 <= i < batch.len() implies !has_active(
        left,
        (#[trigger] batch[i]).author,
        batch[i].date,
    ) by {
        if has_active(left, batch[i].author, batch[i].date) {
            let k = choose|k: int|
                0 <= k < left.len() && (#[trigger] left[k]).author == batch[i].author
                    && left[k].date == batch[i].date;
            before.active.lemma_filter_contains_rev(spare_test(selector, now), left[k]);
            before.active.lemma_filter_contains_rev(claim_test(selector, now), batch[i]);
            let a = choose|a: int| 0 <= a < before.active.len() && before.active[a] == left[k];
            let b = choose|b: int| 0 <= b < before.active.len() && before.active[b] == batch[i];
            before.active.lemma_filter_pred(spare_test(selector, now), k);
            before.active.lemma_filter_pred(claim_test(selector, now), i);
            assert(a != b);
            if a < b {
                assert(before.active[a].author == before.active[b].author);
            } else {
                assert(before.active[b].author == before.active[a].author);
            }
        }
    }
}

/// No entry is lost: whatever a migration made of the stores, every entry that
/// was live is live still or is sealed. No reader finds it in neither store.
pub proof fn lemma_no_entry_is_lost(
    before: StoreView,
    selector: Selector,
    now: Timestamp,
    master_key: Seq<u8>,
    outcome: Result<usize, MigrationError>,
    after: StoreView,
    at: int,
)
    requires
        before.wf(),
        batch_result(
            before,
            claimed(before.active, selector, now),
            unclaimed(before.active, selector, now),
            master_key,
            outcome,
            after,
        ),
        0 <= at < before.active.len(),
    ensures
        after.active.contains(before.active[at]) || has_entry(
            after.sealed,
            before.active[at].author,
            before.active[at].id,
        ),
{
    let entry = before.active[at];
    let batch = claimed(before.active, selector, now);
    let left = unclaimed(before.active, selector, now);
    match outcome {
        Ok(count) => {
            if selector.claims(entry, now) {
                before.active.lemma_filter_contains(claim_test(selector, now), at);
                let i = choose|i: int| 0 <= i < batch.len() && batch[i] == entry;
                lemma_filter_keeps_distinct(before.active, spare_test(selector, now));
                lemma_migrated_entries_are_sealed(before, batch, left, master_key, count, after);
                assert(has_entry(after.sealed, batch[i].author, batch[i].id));
            } else {
                before.active.lemma_filter_contains(spare_test(selector, now), at);
            }
        },
        Err(_) => {
            assert(after.active[at] == entry);
        },
    }
}

} // verus!
