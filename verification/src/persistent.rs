//! The persistence facade a consensus safety module talks to: named,
//! typed accessors over one owned store, an idempotent initialization
//! protocol, and an optional cache decorator applied without nesting.

use crate::author::{spec_author_text, spec_parse_author, Author, AUTHOR_LEN};
use crate::error::Error;
use crate::keys::{PrivateKey, PrivateKeyView, PublicKey};
use crate::safety_data::{spec_initial_safety_data, SafetyData, SafetyDataView};
use crate::storage::{key_at, spec_empty_store, spec_export, spec_get, spec_public_key, with_key,
    with_value, CachedStorage, InMemoryStorage, RecordName, Storage, StoreView};
use crate::value::{spec_safety_of, spec_string_of, Value, ValueView};
use crate::waypoint::{spec_parse_waypoint, spec_waypoint_text, spec_waypoint_wf, Waypoint,
    WaypointView};
use vstd::pervasive::unreached;
use vstd::prelude::*;

verus! {

/// An observability sink for voting progress: it remembers the most
/// recently reported epoch and rounds. The facade reports to it on every
/// progress write; it is held by the facade so tests can inspect it.
#[derive(Clone, Copy, PartialEq, Eq, Structural, Debug)]
pub struct ProgressCounters {
    pub epoch: Option<u64>,
    pub last_voted_round: Option<u64>,
    pub preferred_round: Option<u64>,
}

impl ProgressCounters {
    pub open spec fn spec_new() -> ProgressCounters {
        ProgressCounters { epoch: None, last_voted_round: None, preferred_round: None }
    }

    pub fn new() -> (r: Self)
        ensures
            r == Self::spec_new(),
    {
        ProgressCounters { epoch: None, last_voted_round: None, preferred_round: None }
    }

    /// Records the progress values of the latest write.
    pub fn record(&mut self, epoch: u64, last_voted_round: u64, preferred_round: u64)
        ensures
            *final(self) == (ProgressCounters {
                epoch: Some(epoch),
                last_voted_round: Some(last_voted_round),
                preferred_round: Some(preferred_round),
            }),
    {
        self.epoch = Some(epoch);
        self.last_voted_round = Some(last_voted_round);
        self.preferred_round = Some(preferred_round);
    }
}

// ---------------------------------------------------------------------
// What each accessor computes, at the level of store contents
// ---------------------------------------------------------------------

/// What reading the safety record yields: the stored record, a type
/// mismatch, or not-found before initialization.
pub open spec fn spec_safety_data_read(v: StoreView) -> Result<SafetyDataView, Error> {
    match spec_get(v, RecordName::SafetyData) {
        Ok(x) => spec_safety_of(x),
        Err(e) => Err(e),
    }
}

/// What reading the owner account yields: the stored text parsed as an
/// identifier, or the matching typed error.
pub open spec fn spec_author_read(v: StoreView) -> Result<Seq<u8>, Error> {
    match spec_get(v, RecordName::OwnerAccount) {
        Ok(x) => match spec_string_of(x) {
            Ok(s) => match spec_parse_author(s) {
                Some(a) => Ok(a),
                None => Err(Error::Parse(RecordName::OwnerAccount)),
            },
            Err(e) => Err(e),
        },
        Err(e) => Err(e),
    }
}

/// What reading the waypoint yields: the stored text parsed back, or the
/// matching typed error.
pub open spec fn spec_waypoint_read(v: StoreView) -> Result<WaypointView, Error> {
    match spec_get(v, RecordName::Waypoint) {
        Ok(x) => match spec_string_of(x) {
            Ok(s) => match spec_parse_waypoint(s) {
                Some(w) => Ok(w),
                None => Err(Error::Parse(RecordName::Waypoint)),
            },
            Err(e) => Err(e),
        },
        Err(e) => Err(e),
    }
}

/// The store after a full first-time initialization: both keys imported,
/// then the initial safety record, the owner text and the waypoint text
/// written.
pub open spec fn spec_initialized(
    v: StoreView,
    author: Seq<u8>,
    consensus_key: PrivateKeyView,
    execution_key: PrivateKeyView,
    w: WaypointView,
) -> StoreView {
    with_value(
        with_value(
            with_value(
                with_key(
                    with_key(v, RecordName::ConsensusKey, consensus_key),
                    RecordName::ExecutionKey,
                    execution_key,
                ),
                RecordName::SafetyData,
                ValueView::Safety(spec_initial_safety_data()),
            ),
            RecordName::OwnerAccount,
            ValueView::Text(spec_author_text(author)),
        ),
        RecordName::Waypoint,
        ValueView::Text(spec_waypoint_text(w)),
    )
}

/// The store after running initialization against it: untouched where a
/// consensus key already exists, fully initialized otherwise.
pub open spec fn spec_initialize_result(
    v: StoreView,
    author: Seq<u8>,
    consensus_key: PrivateKeyView,
    execution_key: PrivateKeyView,
    w: WaypointView,
) -> StoreView {
    if key_at(v, RecordName::ConsensusKey) is Some {
        v
    } else {
        spec_initialized(v, author, consensus_key, execution_key, w)
    }
}

/// The placeholder identity the in-memory constructor initializes with.
pub open spec fn spec_placeholder_author() -> Seq<u8> {
    Seq::new(AUTHOR_LEN as nat, |i: int| 0u8)
}

/// The persistence boundary for a consensus participant's safety-critical
/// state. It exclusively owns one store and exposes the five records
/// through typed accessors; every write completes against the store
/// before the call returns.
pub struct PersistentSafetyStorage {
    pub internal_store: Storage,
    pub counters: ProgressCounters,
}

impl View for PersistentSafetyStorage {
    type V = StoreView;

    open spec fn view(&self) -> StoreView {
        self.internal_store@
    }
}

impl PersistentSafetyStorage {
    pub open spec fn wf(&self) -> bool {
        self.internal_store.wf()
    }

    /// Initializes a fresh in-memory store with the given key pair and
    /// defaults: a placeholder identity and the default waypoint. For
    /// tests and other throwaway environments.
    pub fn in_memory(consensus_private_key: PrivateKey, execution_private_key: PrivateKey) -> (r:
        Self)
        ensures
            r.wf(),
            r@ == spec_initialized(
                spec_empty_store(),
                spec_placeholder_author(),
                consensus_private_key@,
                execution_private_key@,
                crate::waypoint::spec_default_waypoint(),
            ),
            r.counters == ProgressCounters::spec_new(),
    {
        let storage = Storage::InMemory(InMemoryStorage::new());
        let mut author_bytes: Vec<u8> = Vec::new();
        let mut i: usize = 0;
        while i < AUTHOR_LEN
            invariant
                i <= AUTHOR_LEN,
                author_bytes@ =~= Seq::new(i as nat, |j: int| 0u8),
            decreases AUTHOR_LEN - i,
        {
            author_bytes.push(0u8);
            i = i + 1;
        }
        let author = Author::new(author_bytes);
        Self::initialize(
            storage,
            author,
            consensus_private_key,
            execution_private_key,
            Waypoint::default(),
        )
    }

    /// Use this to instantiate the facade over a new data store, one that
    /// has no safety-rules values set yet.
    ///
    /// Re-running it against an already-initialized store is a safe
    /// no-op: the presence of a consensus key is taken to mean the whole
    /// store was initialized before, and nothing is overwritten. A store
    /// holding an execution key but no consensus key is partially
    /// written; initialization treats that as an unrecoverable logic
    /// error, so such a store is excluded here.
    pub fn initialize(
        internal_store: Storage,
        author: Author,
        consensus_private_key: PrivateKey,
        execution_private_key: PrivateKey,
        waypoint: Waypoint,
    ) -> (r: Self)
        requires
            internal_store.wf(),
            key_at(internal_store@, RecordName::ConsensusKey) is None ==> key_at(
                internal_store@,
                RecordName::ExecutionKey,
            ) is None,
        ensures
            r.wf(),
            r@ == spec_initialize_result(
                internal_store@,
                author@,
                consensus_private_key@,
                execution_private_key@,
                waypoint@,
            ),
            r.internal_store.is_cached() == internal_store.is_cached(),
            r.counters == ProgressCounters::spec_new(),
    {
        let mut store = internal_store;
        match Self::initialize_(
            &mut store,
            author,
            consensus_private_key,
            execution_private_key,
            waypoint,
        ) {
            Ok(()) => PersistentSafetyStorage {
                internal_store: store,
                counters: ProgressCounters::new(),
            },
            Err(_) => unreached(),
        }
    }

    fn initialize_(
        internal_store: &mut Storage,
        author: Author,
        consensus_private_key: PrivateKey,
        execution_private_key: PrivateKey,
        waypoint: Waypoint,
    ) -> (r: Result<(), Error>)
        requires
            old(internal_store).wf(),
        ensures
            final(internal_store).wf(),
            final(internal_store).is_cached() == old(internal_store).is_cached(),
            key_at(old(internal_store)@, RecordName::ConsensusKey) is Some ==> r is Ok
                && final(internal_store)@ == old(internal_store)@,
            key_at(old(internal_store)@, RecordName::ConsensusKey) is None && key_at(
                old(internal_store)@,
                RecordName::ExecutionKey,
            ) is None ==> r is Ok && final(internal_store)@ == spec_initialized(
                old(internal_store)@,
                author@,
                consensus_private_key@,
                execution_private_key@,
                waypoint@,
            ),
            key_at(old(internal_store)@, RecordName::ConsensusKey) is None && key_at(
                old(internal_store)@,
                RecordName::ExecutionKey,
            ) is Some ==> r == Err::<(), Error>(Error::KeyAlreadyExists(RecordName::ExecutionKey))
                && final(internal_store)@ == with_key(
                old(internal_store)@,
                RecordName::ConsensusKey,
                consensus_private_key@,
            ),
    {
        let result = internal_store.import_private_key(
            RecordName::ConsensusKey,
            consensus_private_key,
        );
        // A consensus key already stored means the store went through
        // initialization before. Recover by leaving every record as it
        // is rather than checking the remaining records one by one: a
        // partially configured store is a logic error, not a state this
        // protocol distinguishes.
        if let Err(Error::KeyAlreadyExists(_)) = result {
            return Ok(());
        }
        internal_store.import_private_key(RecordName::ExecutionKey, execution_private_key)?;
        internal_store.set(
            RecordName::SafetyData,
            Value::Safety(SafetyData::new(1, 0, 0, None)),
        )?;
        internal_store.set(RecordName::OwnerAccount, Value::Text(author.to_text()))?;
        internal_store.set(RecordName::Waypoint, Value::Text(waypoint.to_text()))?;
        Ok(())
    }

    /// Wraps the owned store in the cache decorator. Applying this to an
    /// already-cached store returns it unchanged, so composing the
    /// decorator twice yields a single cache layer, never two.
    pub fn into_cached(self) -> (r: PersistentSafetyStorage)
        requires
            self.wf(),
        ensures
            r.wf(),
            r@ == self@,
            r.internal_store.is_cached(),
            r.counters == self.counters,
            self.internal_store.is_cached() ==> r == self,
    {
        match self.internal_store {
            Storage::Cached(cached_storage) => PersistentSafetyStorage {
                internal_store: Storage::Cached(cached_storage),
                counters: self.counters,
            },
            Storage::InMemory(inner) => PersistentSafetyStorage {
                internal_store: Storage::Cached(CachedStorage::new(inner)),
                counters: self.counters,
            },
        }
    }

    /// Use this to instantiate the facade over an existing, already
    /// initialized data store, for constructed environments.
    pub fn new(internal_store: Storage) -> (r: Self)
        requires
            internal_store.wf(),
        ensures
            r.wf(),
            r@ == internal_store@,
            r.counters == ProgressCounters::spec_new(),
    {
        PersistentSafetyStorage { internal_store, counters: ProgressCounters::new() }
    }

    /// The validator identity this store was initialized with.
    pub fn author(&self) -> (r: Result<Author, Error>)
        requires
            self.wf(),
        ensures
            match r {
                Ok(a) => spec_author_read(self@) == Ok::<Seq<u8>, Error>(a@) && a.wf(),
                Err(e) => spec_author_read(self@) == Err::<Seq<u8>, Error>(e),
            },
    {
        let record = match self.internal_store.get(RecordName::OwnerAccount) {
            Ok(record) => record,
            Err(e) => {
                return Err(e);
            },
        };
        let text = match record.value.string() {
            Ok(text) => text,
            Err(e) => {
                return Err(e);
            },
        };
        match Author::from_text(text.as_str()) {
            Some(a) => Ok(a),
            None => Err(Error::Parse(RecordName::OwnerAccount)),
        }
    }

    /// The consensus private key whose public half matches the given
    /// version.
    pub fn consensus_key_for_version(&self, version: PublicKey) -> (r: Result<PrivateKey, Error>)
        requires
            self.wf(),
        ensures
            match r {
                Ok(k) => spec_export(self@, RecordName::ConsensusKey, version@)
                    == Ok::<PrivateKeyView, Error>(k@),
                Err(e) => spec_export(self@, RecordName::ConsensusKey, version@)
                    == Err::<PrivateKeyView, Error>(e),
            },
    {
        self.internal_store.export_private_key_for_version(RecordName::ConsensusKey, version)
    }

    /// The public half of the execution key.
    pub fn execution_public_key(&self) -> (r: Result<PublicKey, Error>)
        requires
            self.wf(),
        ensures
            match r {
                Ok(k) => spec_public_key(self@, RecordName::ExecutionKey) == Ok::<Seq<u8>, Error>(
                    k@,
                ),
                Err(e) => spec_public_key(self@, RecordName::ExecutionKey) == Err::<
                    Seq<u8>,
                    Error,
                >(e),
            },
    {
        match self.internal_store.get_public_key(RecordName::ExecutionKey) {
            Ok(resp) => Ok(resp.public_key),
            Err(e) => Err(e),
        }
    }

    /// The stored voting-progress record.
    pub fn safety_data(&self) -> (r: Result<SafetyData, Error>)
        requires
            self.wf(),
        ensures
            match r {
                Ok(d) => spec_safety_data_read(self@) == Ok::<SafetyDataView, Error>(d@),
                Err(e) => spec_safety_data_read(self@) == Err::<SafetyDataView, Error>(e),
            },
    {
        let record = match self.internal_store.get(RecordName::SafetyData) {
            Ok(record) => record,
            Err(e) => {
                return Err(e);
            },
        };
        record.value.safety_data()
    }

    /// Replaces the voting-progress record and reports the new values to
    /// the progress sink. Monotonicity is the caller's responsibility.
    pub fn set_safety_data(&mut self, data: SafetyData) -> (r: Result<(), Error>)
        requires
            old(self).wf(),
        ensures
            final(self).wf(),
            r is Ok,
            final(self)@ == with_value(old(self)@, RecordName::SafetyData, ValueView::Safety(data@)),
            final(self).counters == (ProgressCounters {
                epoch: Some(data.epoch),
                last_voted_round: Some(data.last_voted_round),
                preferred_round: Some(data.preferred_round),
            }),
    {
        self.counters.record(data.epoch, data.last_voted_round, data.preferred_round);
        self.internal_store.set(RecordName::SafetyData, Value::Safety(data))?;
        Ok(())
    }

    /// The stored waypoint, parsed back from its canonical text.
    pub fn waypoint(&self) -> (r: Result<Waypoint, Error>)
        requires
            self.wf(),
        ensures
            match r {
                Ok(w) => spec_waypoint_read(self@) == Ok::<WaypointView, Error>(w@) && w.wf(),
                Err(e) => spec_waypoint_read(self@) == Err::<WaypointView, Error>(e),
            },
    {
        let record = match self.internal_store.get(RecordName::Waypoint) {
            Ok(record) => record,
            Err(e) => {
                return Err(e);
            },
        };
        let text = match record.value.string() {
            Ok(text) => text,
            Err(e) => {
                return Err(e);
            },
        };
        match Waypoint::from_text(text.as_str()) {
            Some(w) => Ok(w),
            None => Err(Error::Parse(RecordName::Waypoint)),
        }
    }

    /// Replaces the stored waypoint with the canonical text of the given
    /// one.
    pub fn set_waypoint(&mut self, waypoint: &Waypoint) -> (r: Result<(), Error>)
        requires
            old(self).wf(),
        ensures
            final(self).wf(),
            r is Ok,
            final(self)@ == with_value(
                old(self)@,
                RecordName::Waypoint,
                ValueView::Text(spec_waypoint_text(waypoint@)),
            ),
            final(self).counters == old(self).counters,
    {
        self.internal_store.set(RecordName::Waypoint, Value::Text(waypoint.to_text()))?;
        Ok(())
    }

    /// Direct access to the wrapped store, for tests that need to inject
    /// or inspect raw records.
    pub fn internal_store(&mut self) -> (r: &mut Storage)
        ensures
            *r == old(self).internal_store,
            final(self).internal_store == *final(r),
            final(self).counters == old(self).counters,
    {
        &mut self.internal_store
    }
}

// ---------------------------------------------------------------------
// Laws
// ---------------------------------------------------------------------

/// Initializing a store without a consensus key writes records that read
/// back exactly as given: the initial safety record, the identity, the
/// waypoint, and both keys.
pub proof fn lemma_initialize_reads_back(
    v: StoreView,
    author: Seq<u8>,
    consensus_key: PrivateKeyView,
    execution_key: PrivateKeyView,
    w: WaypointView,
)
    requires
        key_at(v, RecordName::ConsensusKey) is None,
        author.len() == AUTHOR_LEN,
        spec_waypoint_wf(w),
    ensures
        spec_safety_data_read(spec_initialize_result(v, author, consensus_key, execution_key, w))
            == Ok::<SafetyDataView, Error>(spec_initial_safety_data()),
        spec_author_read(spec_initialize_result(v, author, consensus_key, execution_key, w))
            == Ok::<Seq<u8>, Error>(author),
        spec_waypoint_read(spec_initialize_result(v, author, consensus_key, execution_key, w))
            == Ok::<WaypointView, Error>(w),
        spec_public_key(
            spec_initialize_result(v, author, consensus_key, execution_key, w),
            RecordName::ExecutionKey,
        ) == Ok::<Seq<u8>, Error>(execution_key.public),
        spec_export(
            spec_initialize_result(v, author, consensus_key, execution_key, w),
            RecordName::ConsensusKey,
            consensus_key.public,
        ) == Ok::<PrivateKeyView, Error>(consensus_key),
{
    crate::author::lemma_author_text_round_trip(author);
    crate::waypoint::lemma_waypoint_text_round_trip(w);
}

/// Re-running initialization against an already-initialized store leaves
/// every record exactly as it was.
pub proof fn lemma_reinitialize_is_noop(
    v: StoreView,
    author: Seq<u8>,
    consensus_key: PrivateKeyView,
    execution_key: PrivateKeyView,
    w: WaypointView,
)
    requires
        key_at(v, RecordName::ConsensusKey) is Some,
    ensures
        spec_initialize_result(v, author, consensus_key, execution_key, w) == v,
{
}

/// Writing a safety record and reading it back yields the record
/// unchanged, whatever the store held before, and leaves the identity
/// and the waypoint records as they were.
pub proof fn lemma_safety_data_round_trip(v: StoreView, d: SafetyDataView)
    ensures
        spec_safety_data_read(with_value(v, RecordName::SafetyData, ValueView::Safety(d)))
            == Ok::<SafetyDataView, Error>(d),
        spec_author_read(with_value(v, RecordName::SafetyData, ValueView::Safety(d)))
            == spec_author_read(v),
        spec_waypoint_read(with_value(v, RecordName::SafetyData, ValueView::Safety(d)))
            == spec_waypoint_read(v),
{
}

/// Writing a waypoint and reading it back yields the waypoint unchanged,
/// through its canonical text form, and leaves the identity and the
/// safety records as they were.
pub proof fn lemma_waypoint_round_trip(v: StoreView, w: WaypointView)
    requires
        spec_waypoint_wf(w),
    ensures
        spec_waypoint_read(with_value(v, RecordName::Waypoint, ValueView::Text(spec_waypoint_text(w))))
            == Ok::<WaypointView, Error>(w),
        spec_author_read(with_value(v, RecordName::Waypoint, ValueView::Text(spec_waypoint_text(w))))
            == spec_author_read(v),
        spec_safety_data_read(
            with_value(v, RecordName::Waypoint, ValueView::Text(spec_waypoint_text(w))),
        ) == spec_safety_data_read(v),
{
    crate::waypoint::lemma_waypoint_text_round_trip(w);
}

/// Reading any record of an empty store fails with a not-found error,
/// never a default value.
pub proof fn lemma_read_before_initialize()
    ensures
        spec_safety_data_read(spec_empty_store()) == Err::<SafetyDataView, Error>(
            Error::KeyNotFound(RecordName::SafetyData),
        ),
        spec_author_read(spec_empty_store()) == Err::<Seq<u8>, Error>(
            Error::KeyNotFound(RecordName::OwnerAccount),
        ),
        spec_waypoint_read(spec_empty_store()) == Err::<WaypointView, Error>(
            Error::KeyNotFound(RecordName::Waypoint),
        ),
        spec_public_key(spec_empty_store(), RecordName::ExecutionKey) == Err::<Seq<u8>, Error>(
            Error::KeyNotFound(RecordName::ExecutionKey),
        ),
{
}

} // verus!
