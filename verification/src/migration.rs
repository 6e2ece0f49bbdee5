//! The migration transaction: a batch of live entries whose window has elapsed
//! leaves the live store and enters the sealed store, all of it or none.
//!
//! The store is reached by whoever drives the migration. The decisions are
//! taken here: [`Migration::step`] maps what the store answered to what is asked
//! of it next.

use crate::cipher::{is_sealing_of, sealable, MasterKey};
use crate::entry::{
    ActiveEntry, ActiveEntryView, EncryptedEntry, EncryptedEntryView, Timestamp, UserId,
};
use crate::error::MigrationError;
use vstd::prelude::*;

verus! {

/// Which live entries a migration reaches for.
#[derive(Clone, Copy, Debug, PartialEq, Eq, Structural)]
pub enum Selector {
    /// Every user's entries: the sweep.
    AllUsers,
    /// One user's entries: the request-time trigger.
    User(UserId),
}

impl Selector {
    /// Whether a migration at `now` claims `entry`: its window has elapsed, it
    /// is no local draft, and it belongs to the selected user.
    pub open spec fn claims(self, entry: ActiveEntryView, now: Timestamp) -> bool {
        &&& entry.expiry < now
        &&& !entry.ephemeral
        &&& (self matches Selector::User(user) ==> entry.author == user)
    }

    /// Whether a migration at `now` claims `entry`.
    pub fn selects(&self, entry: &ActiveEntry, now: Timestamp) -> (r: bool)
        ensures
            r == self.claims(entry@, now),
    {
        let of_user = match self {
            Selector::AllUsers => true,
            Selector::User(user) => entry.author == *user,
        };
        entry.expiry < now && !entry.ephemeral && of_user
    }
}

/// `sealed` holds, in order, one sealed record of each entry of `entries`.
pub open spec fn is_sealed_batch(
    sealed: Seq<EncryptedEntryView>,
    entries: Seq<ActiveEntryView>,
    master_key: Seq<u8>,
) -> bool {
    &&& sealed.len() == entries.len()
    &&& forall|i: int|
        0 <= i < entries.len() ==> is_sealing_of(#[trigger] sealed[i], entries[i], master_key)
}

/// Every entry of the batch can be sealed.
pub open spec fn all_sealable(entries: Seq<ActiveEntryView>) -> bool {
    forall|i: int| 0 <= i < entries.len() ==> sealable(#[trigger] entries[i])
}

/// Seals every entry of a claimed batch, or none: the first entry that cannot
/// be sealed fails the whole batch.
pub fn encrypt_batch(entries: &Vec<ActiveEntry>, master_key: &MasterKey) -> (r: Result<
    Vec<EncryptedEntry>,
    MigrationError,
>)
    ensures
        r is Ok <==> all_sealable(entries.deep_view()),
        r matches Ok(sealed) ==> is_sealed_batch(
            sealed.deep_view(),
            entries.deep_view(),
            master_key@,
        ),
        r matches Err(e) ==> e == MigrationError::EncryptionFailed,
{
    let mut sealed: Vec<EncryptedEntry> = Vec::new();
    let mut i: usize = 0;
    while i < entries.len()
        invariant
            i <= entries.len(),
            sealed.len() == i,
            forall|j: int| 0 <= j < i ==> sealable(#[trigger] entries[j]@),
            forall|j: int|
                0 <= j < i ==> is_sealing_of(#[trigger] sealed[j]@, entries[j]@, master_key@),
        decreases entries.len() - i,
    {
        match entries[i].encrypt(master_key) {
            Ok(record) => {
                sealed.push(record);
            },
            Err(_) => {
                assert(!sealable(entries.deep_view()[i as int]));
                return Err(MigrationError::EncryptionFailed);
            },
        }
        i += 1;
    }
    Ok(sealed)
}

/// What a migration asks of its driver next.
#[derive(Debug)]
pub enum MigrationAction {
    /// Open a transaction on the store.
    Begin,
    /// Inside the transaction, delete the live entries that the selector
    /// claims, and hand them over.
    Claim(Selector),
    /// Seal the batch with [`encrypt_batch`], away from the threads that serve
    /// requests.
    Encrypt(Vec<ActiveEntry>),
    /// Inside the transaction, insert the sealed record.
    Insert(EncryptedEntry),
    /// Commit the transaction.
    Commit,
    /// Roll the transaction back.
    Rollback,
    /// The migration is over: so many entries were migrated, or none.
    Finish(Result<usize, MigrationError>),
}

/// What a [`MigrationAction`] holds.
pub enum MigrationActionView {
    Begin,
    Claim(Selector),
    Encrypt(Seq<ActiveEntryView>),
    Insert(EncryptedEntryView),
    Commit,
    Rollback,
    Finish(Result<usize, MigrationError>),
}

impl View for MigrationAction {
    type V = MigrationActionView;

    open spec fn view(&self) -> MigrationActionView {
        match self {
            MigrationAction::Begin => MigrationActionView::Begin,
            MigrationAction::Claim(selector) => MigrationActionView::Claim(*selector),
            MigrationAction::Encrypt(entries) => MigrationActionView::Encrypt(entries.deep_view()),
            MigrationAction::Insert(record) => MigrationActionView::Insert(record@),
            MigrationAction::Commit => MigrationActionView::Commit,
            MigrationAction::Rollback => MigrationActionView::Rollback,
            MigrationAction::Finish(outcome) => MigrationActionView::Finish(*outcome),
        }
    }
}

/// What came of the last [`MigrationAction`].
#[derive(Debug)]
pub enum MigrationEvent {
    /// The store did what was asked: it began, inserted, committed or rolled
    /// back.
    Done,
    /// The store deleted these live entries and handed them over.
    Claimed(Vec<ActiveEntry>),
    /// The batch was sealed, record for entry.
    Sealed(Vec<EncryptedEntry>),
    /// An entry of the batch could not be sealed.
    SealingFailed,
    /// The store refused what was asked.
    StoreFailed,
}

/// What a [`MigrationEvent`] holds.
pub enum MigrationEventView {
    Done,
    Claimed(Seq<ActiveEntryView>),
    Sealed(Seq<EncryptedEntryView>),
    SealingFailed,
    StoreFailed,
}

impl View for MigrationEvent {
    type V = MigrationEventView;

    open spec fn view(&self) -> MigrationEventView {
        match self {
            MigrationEvent::Done => MigrationEventView::Done,
            MigrationEvent::Claimed(entries) => MigrationEventView::Claimed(entries.deep_view()),
            MigrationEvent::Sealed(records) => MigrationEventView::Sealed(records.deep_view()),
            MigrationEvent::SealingFailed => MigrationEventView::SealingFailed,
            MigrationEvent::StoreFailed => MigrationEventView::StoreFailed,
        }
    }
}

impl MigrationEvent {
    /// The event that reports how [`encrypt_batch`] ended.
    pub fn from_sealing(outcome: Result<Vec<EncryptedEntry>, MigrationError>) -> (event:
        MigrationEvent)
        ensures
            event@ == match outcome {
                Ok(records) => MigrationEventView::Sealed(records.deep_view()),
                Err(_) => MigrationEventView::SealingFailed,
            },
    {
        match outcome {
            Ok(records) => MigrationEvent::Sealed(records),
            Err(_) => MigrationEvent::SealingFailed,
        }
    }
}

/// Where the batch of a migration comes from.
#[derive(Debug)]
pub enum Source {
    /// From the live store, by a claim.
    Claim(Selector),
    /// From the caller: entries that never were in the live store.
    Batch(Vec<ActiveEntry>),
}

/// What a [`Source`] holds.
pub enum SourceView {
    Claim(Selector),
    Batch(Seq<ActiveEntryView>),
}

impl View for Source {
    type V = SourceView;

    open spec fn view(&self) -> SourceView {
        match self {
            Source::Claim(selector) => SourceView::Claim(*selector),
            Source::Batch(entries) => SourceView::Batch(entries.deep_view()),
        }
    }
}

/// How far a migration has come.
#[derive(Debug)]
enum Phase {
    Beginning { source: Source },
    Claiming,
    Sealing { claimed: usize },
    Inserting { sealed: Vec<EncryptedEntry>, at: usize },
    Committing { count: usize },
    RollingBack { cause: MigrationError },
    Finished { outcome: Result<usize, MigrationError> },
}

/// How far a migration has come, and what it holds.
pub enum MigrationView {
    /// The transaction is being opened.
    Beginning { source: SourceView },
    /// The transaction is open and the claim is under way.
    Claiming,
    /// The batch of `claimed` entries is being sealed.
    Sealing { claimed: usize },
    /// The record `sealed[at]` is being inserted; those before it are in.
    Inserting { sealed: Seq<EncryptedEntryView>, at: int },
    /// All `count` records are in and the commit is under way.
    Committing { count: usize },
    /// The batch failed of `cause` and the rollback is under way.
    RollingBack { cause: MigrationError },
    /// The migration is over.
    Finished { outcome: Result<usize, MigrationError> },
}

impl MigrationView {
    /// The record that is being inserted exists.
    pub open spec fn wf(self) -> bool {
        self matches MigrationView::Inserting { sealed, at } ==> 0 <= at < sealed.len()
            && sealed.len() <= usize::MAX
    }
}

/// The step that ends the migration with `outcome`.
pub open spec fn finish(outcome: Result<usize, MigrationError>) -> (
    MigrationView,
    MigrationActionView,
) {
    (MigrationView::Finished { outcome }, MigrationActionView::Finish(outcome))
}

/// The step that abandons the batch for `cause`.
pub open spec fn abandon(cause: MigrationError) -> (MigrationView, MigrationActionView) {
    (MigrationView::RollingBack { cause }, MigrationActionView::Rollback)
}

/// The step that follows once the batch is known: nothing to migrate commits
/// at once, anything else is sealed first.
pub open spec fn take_batch(entries: Seq<ActiveEntryView>) -> (
    MigrationView,
    MigrationActionView,
) {
    if entries.len() == 0 {
        (MigrationView::Committing { count: 0 }, MigrationActionView::Commit)
    } else {
        (
            MigrationView::Sealing { claimed: entries.len() as usize },
            MigrationActionView::Encrypt(entries),
        )
    }
}

/// The migration transaction as a transition function: the next state and the
/// next action, given the state and what came of the last action.
///
/// Once the transaction is open, every failure leads to a rollback before it
/// is reported, and the commit is asked for only after every record of the
/// batch is in. A sealed batch that has not one record for each entry counts as
/// a failure to seal, and an event that the state does not await as a refusal
/// of the store.
pub open spec fn transition(state: MigrationView, event: MigrationEventView) -> (
    MigrationView,
    MigrationActionView,
) {
    match state {
        MigrationView::Beginning { source } => match event {
            MigrationEventView::Done => match source {
                SourceView::Claim(selector) => (
                    MigrationView::Claiming,
                    MigrationActionView::Claim(selector),
                ),
                SourceView::Batch(entries) => take_batch(entries),
            },
            _ => finish(Err(MigrationError::PersistFailed)),
        },
        MigrationView::Claiming => match event {
            MigrationEventView::Claimed(entries) => take_batch(entries),
            _ => abandon(MigrationError::PersistFailed),
        },
        MigrationView::Sealing { claimed } => match event {
            MigrationEventView::Sealed(records) => if records.len() != claimed {
                abandon(MigrationError::EncryptionFailed)
            } else if records.len() == 0 {
                (MigrationView::Committing { count: 0 }, MigrationActionView::Commit)
            } else {
                (
                    MigrationView::Inserting { sealed: records, at: 0 },
                    MigrationActionView::Insert(records[0]),
                )
            },
            MigrationEventView::SealingFailed => abandon(MigrationError::EncryptionFailed),
            _ => abandon(MigrationError::PersistFailed),
        },
        MigrationView::Inserting { sealed, at } => match event {
            MigrationEventView::Done => if at + 1 < sealed.len() {
                (
                    MigrationView::Inserting { sealed, at: at + 1 },
                    MigrationActionView::Insert(sealed[at + 1]),
                )
            } else {
                (
                    MigrationView::Committing { count: sealed.len() as usize },
                    MigrationActionView::Commit,
                )
            },
            _ => abandon(MigrationError::PersistFailed),
        },
        MigrationView::Committing { count } => match event {
            MigrationEventView::Done => finish(Ok(count)),
            _ => finish(Err(MigrationError::PersistFailed)),
        },
        MigrationView::RollingBack { cause } => match event {
            MigrationEventView::Done => finish(Err(cause)),
            _ => finish(Err(MigrationError::PersistFailed)),
        },
        MigrationView::Finished { outcome } => finish(outcome),
    }
}

/// Rollback on failure: while the transaction is open and uncommitted, whatever
/// is not the awaited answer leads to a rollback, and the rollback to a report
/// of failure with no commit in between.
pub proof fn lemma_failure_rolls_back(state: MigrationView, event: MigrationEventView)
    requires
        state is Claiming || state is Sealing || state is Inserting,
        match state {
            MigrationView::Claiming => !(event is Claimed),
            MigrationView::Sealing { claimed } => !(event matches MigrationEventView::Sealed(
                records,
            ) && records.len() == claimed),
            _ => !(event is Done),
        },
    ensures
        transition(state, event).0 is RollingBack,
        transition(state, event).1 == MigrationActionView::Rollback,
        forall|answer: MigrationEventView| #[trigger]
            transition(transition(state, event).0, answer).1 is Finish && transition(
                transition(state, event).0,
                answer,
            ).1->Finish_0 is Err,
{
}

/// Commit last: the commit is asked for only when the batch is empty or its
/// last record is in, and success is reported only after the commit is done.
pub proof fn lemma_commit_follows_last_insert(state: MigrationView, event: MigrationEventView)
    requires
        state.wf(),
        transition(state, event).1 == MigrationActionView::Commit,
    ensures
        match state {
            MigrationView::Beginning { source } => source == SourceView::Batch(Seq::empty())
                && event is Done,
            MigrationView::Claiming => event == MigrationEventView::Claimed(Seq::empty()),
            MigrationView::Sealing { claimed } => event == MigrationEventView::Sealed(
                Seq::empty(),
            ) && claimed == 0,
            MigrationView::Inserting { sealed, at } => event is Done && at == sealed.len() - 1,
            _ => false,
        },
        transition(state, event).0 is Committing,
        forall|answer: MigrationEventView| #[trigger]
            transition(transition(state, event).0, answer).1 is Finish && (transition(
                transition(state, event).0,
                answer,
            ).1->Finish_0 is Ok <==> answer is Done),
{
    match state {
        MigrationView::Beginning { source } => {
            match source {
                SourceView::Batch(entries) => {
                    assert(entries =~= Seq::empty());
                },
                _ => {},
            }
        },
        MigrationView::Claiming => {
            match event {
                MigrationEventView::Claimed(entries) => {
                    assert(entries =~= Seq::empty());
                },
                _ => {},
            }
        },
        MigrationView::Sealing { claimed } => {
            match event {
                MigrationEventView::Sealed(records) => {
                    assert(records =~= Seq::empty());
                },
                _ => {},
            }
        },
        _ => {},
    }
}

/// One run of the migration transaction.
#[derive(Debug)]
pub struct Migration {
    phase: Phase,
}

impl View for Migration {
    type V = MigrationView;

    closed spec fn view(&self) -> MigrationView {
        match self.phase {
            Phase::Beginning { source } => MigrationView::Beginning { source: source@ },
            Phase::Claiming => MigrationView::Claiming,
            Phase::Sealing { claimed } => MigrationView::Sealing { claimed },
            Phase::Inserting { sealed, at } => MigrationView::Inserting {
                sealed: sealed.deep_view(),
                at: at as int,
            },
            Phase::Committing { count } => MigrationView::Committing { count },
            Phase::RollingBack { cause } => MigrationView::RollingBack { cause },
            Phase::Finished { outcome } => MigrationView::Finished { outcome },
        }
    }
}

impl Migration {
    #[verifier::type_invariant]
    spec fn well_formed(self) -> bool {
        self@.wf()
    }

    /// A migration of the entries that `selector` claims. Its first action
    /// opens the transaction.
    pub fn start(selector: Selector) -> (r: (Migration, MigrationAction))
        ensures
            r.0@ == (MigrationView::Beginning { source: SourceView::Claim(selector) }),
            r.1@ == MigrationActionView::Begin,
    {
        (
            Migration { phase: Phase::Beginning { source: Source::Claim(selector) } },
            MigrationAction::Begin,
        )
    }

    /// A migration of entries that the caller hands over, sealed and
    /// inserted as one batch. Its first action opens the transaction.
    pub fn import(entries: Vec<ActiveEntry>) -> (r: (Migration, MigrationAction))
        ensures
            r.0@ == (MigrationView::Beginning { source: SourceView::Batch(entries.deep_view()) }),
            r.1@ == MigrationActionView::Begin,
    {
        (
            Migration { phase: Phase::Beginning { source: Source::Batch(entries) } },
            MigrationAction::Begin,
        )
    }

    /// Takes what came of the last action and says what to do next.
    pub fn step(self, event: MigrationEvent) -> (r: (Migration, MigrationAction))
        ensures
            r.0@.wf(),
            (r.0@, r.1@) == transition(self@, event@),
    {
        proof {
            use_type_invariant(&self);
        }
        match self.phase {
            Phase::Beginning { source } => match event {
                MigrationEvent::Done => match source {
                    Source::Claim(selector) => (
                        Migration { phase: Phase::Claiming },
                        MigrationAction::Claim(selector),
                    ),
                    Source::Batch(entries) => take(entries),
                },
                _ => finished(Err(MigrationError::PersistFailed)),
            },
            Phase::Claiming => match event {
                MigrationEvent::Claimed(entries) => take(entries),
                _ => abandoned(MigrationError::PersistFailed),
            },
            Phase::Sealing { claimed } => match event {
                MigrationEvent::Sealed(records) => {
                    if records.len() != claimed {
                        abandoned(MigrationError::EncryptionFailed)
                    } else if records.len() == 0 {
                        (
                            Migration { phase: Phase::Committing { count: 0 } },
                            MigrationAction::Commit,
                        )
                    } else {
                        let first = records[0].clone();
                        (
                            Migration { phase: Phase::Inserting { sealed: records, at: 0 } },
                            MigrationAction::Insert(first),
                        )
                    }
                },
                MigrationEvent::SealingFailed => abandoned(MigrationError::EncryptionFailed),
                _ => abandoned(MigrationError::PersistFailed),
            },
            Phase::Inserting { sealed, at } => match event {
                MigrationEvent::Done => {
                    if at + 1 < sealed.len() {
                        let record = sealed[at + 1].clone();
                        (
                            Migration { phase: Phase::Inserting { sealed, at: at + 1 } },
                            MigrationAction::Insert(record),
                        )
                    } else {
                        let count = sealed.len();
                        (Migration { phase: Phase::Committing { count } }, MigrationAction::Commit)
                    }
                },
                _ => abandoned(MigrationError::PersistFailed),
            },
            Phase::Committing { count } => match event {
                MigrationEvent::Done => finished(Ok(count)),
                _ => finished(Err(MigrationError::PersistFailed)),
            },
            Phase::RollingBack { cause } => match event {
                MigrationEvent::Done => finished(Err(cause)),
                _ => finished(Err(MigrationError::PersistFailed)),
            },
            Phase::Finished { outcome } => finished(outcome),
        }
    }
}

/// The end of a migration.
fn finished(outcome: Result<usize, MigrationError>) -> (r: (Migration, MigrationAction))
    ensures
        (r.0@, r.1@) == finish(outcome),
{
    (Migration { phase: Phase::Finished { outcome } }, MigrationAction::Finish(outcome))
}

/// The way to a rollback.
fn abandoned(cause: MigrationError) -> (r: (Migration, MigrationAction))
    ensures
        (r.0@, r.1@) == abandon(cause),
{
    (Migration { phase: Phase::RollingBack { cause } }, MigrationAction::Rollback)
}

/// The way on from a batch that is known.
fn take(entries: Vec<ActiveEntry>) -> (r: (Migration, MigrationAction))
    ensures
        (r.0@, r.1@) == take_batch(entries.deep_view()),
{
    if entries.len() == 0 {
        (Migration { phase: Phase::Committing { count: 0 } }, MigrationAction::Commit)
    } else {
        let claimed = entries.len();
        (Migration { phase: Phase::Sealing { claimed } }, MigrationAction::Encrypt(entries))
    }
}

} // verus!
