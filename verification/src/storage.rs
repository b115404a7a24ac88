//! The abstract store and its two concrete forms: a plain in-memory backend
//! and the cache decorator that wraps it without changing observable
//! behaviour.

use crate::error::Error;
use crate::keys::{PrivateKey, PrivateKeyView, PublicKey};
use crate::value::{Record, Value, ValueView};
use vstd::prelude::*;

verus! {

/// The fixed names under which the five logical records are stored. The
/// exact strings returned by [`RecordName::text`] are a compatibility
/// surface with deployed backends and must not change.
#[derive(Clone, Copy, PartialEq, Eq, Structural, Debug)]
pub enum RecordName {
    ConsensusKey,
    ExecutionKey,
    SafetyData,
    OwnerAccount,
    Waypoint,
}

impl RecordName {
    /// The canonical text of this record name.
    pub open spec fn spec_text(self) -> Seq<char> {
        match self {
            RecordName::ConsensusKey => "consensus-key"@,
            RecordName::ExecutionKey => "execution-key"@,
            RecordName::SafetyData => "safety-data"@,
            RecordName::OwnerAccount => "owner-account"@,
            RecordName::Waypoint => "waypoint"@,
        }
    }

    /// The exact string under which this record is stored by a backend.
    pub fn text(&self) -> (r: &'static str)
        ensures
            r@ == self.spec_text(),
    {
        match self {
            RecordName::ConsensusKey => "consensus-key",
            RecordName::ExecutionKey => "execution-key",
            RecordName::SafetyData => "safety-data",
            RecordName::OwnerAccount => "owner-account",
            RecordName::Waypoint => "waypoint",
        }
    }
}

/// What a store holds under one record name: at most one typed value and
/// at most one private key.
pub struct Slot {
    pub value: Option<Value>,
    pub key: Option<PrivateKey>,
}

/// The mathematical content of a [`Slot`].
pub struct SlotView {
    pub value: Option<ValueView>,
    pub key: Option<PrivateKeyView>,
}

impl View for Slot {
    type V = SlotView;

    open spec fn view(&self) -> SlotView {
        SlotView {
            value: match self.value {
                Some(v) => Some(v@),
                None => None,
            },
            key: match self.key {
                Some(k) => Some(k@),
                None => None,
            },
        }
    }
}

impl Slot {
    pub fn empty() -> (r: Self)
        ensures
            r@ == spec_empty_slot(),
    {
        Slot { value: None, key: None }
    }
}

pub open spec fn spec_empty_slot() -> SlotView {
    SlotView { value: None, key: None }
}

/// The mathematical content of a whole store: one slot per record name.
pub struct StoreView {
    pub consensus: SlotView,
    pub execution: SlotView,
    pub safety: SlotView,
    pub owner: SlotView,
    pub waypoint: SlotView,
}

pub open spec fn spec_empty_store() -> StoreView {
    StoreView {
        consensus: spec_empty_slot(),
        execution: spec_empty_slot(),
        safety: spec_empty_slot(),
        owner: spec_empty_slot(),
        waypoint: spec_empty_slot(),
    }
}

pub open spec fn slot_at(v: StoreView, n: RecordName) -> SlotView {
    match n {
        RecordName::ConsensusKey => v.consensus,
        RecordName::ExecutionKey => v.execution,
        RecordName::SafetyData => v.safety,
        RecordName::OwnerAccount => v.owner,
        RecordName::Waypoint => v.waypoint,
    }
}

/// The value stored under a name, if any.
pub open spec fn value_at(v: StoreView, n: RecordName) -> Option<ValueView> {
    slot_at(v, n).value
}

/// The private key stored under a name, if any.
pub open spec fn key_at(v: StoreView, n: RecordName) -> Option<PrivateKeyView> {
    slot_at(v, n).key
}

pub open spec fn store_with_slot(v: StoreView, n: RecordName, s: SlotView) -> StoreView {
    match n {
        RecordName::ConsensusKey => StoreView { consensus: s, ..v },
        RecordName::ExecutionKey => StoreView { execution: s, ..v },
        RecordName::SafetyData => StoreView { safety: s, ..v },
        RecordName::OwnerAccount => StoreView { owner: s, ..v },
        RecordName::Waypoint => StoreView { waypoint: s, ..v },
    }
}

/// The store after replacing the value under a name.
pub open spec fn with_value(v: StoreView, n: RecordName, x: ValueView) -> StoreView {
    store_with_slot(v, n, SlotView { value: Some(x), ..slot_at(v, n) })
}

/// The store after storing a private key under a name.
pub open spec fn with_key(v: StoreView, n: RecordName, k: PrivateKeyView) -> StoreView {
    store_with_slot(v, n, SlotView { key: Some(k), ..slot_at(v, n) })
}

/// What reading a record yields: the stored value, or a not-found error —
/// never a default.
pub open spec fn spec_get(v: StoreView, n: RecordName) -> Result<ValueView, Error> {
    match value_at(v, n) {
        Some(x) => Ok(x),
        None => Err(Error::KeyNotFound(n)),
    }
}

/// What exporting a key version yields: the stored private key where its
/// public half matches the requested version.
pub open spec fn spec_export(v: StoreView, n: RecordName, version: Seq<u8>) -> Result<
    PrivateKeyView,
    Error,
> {
    match key_at(v, n) {
        None => Err(Error::KeyNotFound(n)),
        Some(k) => if k.public == version {
            Ok(k)
        } else {
            Err(Error::KeyVersionNotFound(n))
        },
    }
}

/// What asking for a public key yields: the public half of the stored
/// private key.
pub open spec fn spec_public_key(v: StoreView, n: RecordName) -> Result<Seq<u8>, Error> {
    match key_at(v, n) {
        Some(k) => Ok(k.public),
        None => Err(Error::KeyNotFound(n)),
    }
}

/// Writing a record and immediately reading the same record yields
/// exactly the written value, whatever the store held before — through
/// the cache decorator as much as the plain backend, since both meet the
/// same read and write contracts over the same store contents.
pub proof fn lemma_write_then_read(v: StoreView, n: RecordName, x: ValueView)
    ensures
        spec_get(with_value(v, n, x), n) == Ok::<ValueView, Error>(x),
{
}

/// A write to one record leaves every other record exactly as it was.
pub proof fn lemma_write_frames_others(v: StoreView, n: RecordName, x: ValueView, m: RecordName)
    requires
        n != m,
    ensures
        value_at(with_value(v, n, x), m) == value_at(v, m),
        key_at(with_value(v, n, x), m) == key_at(v, m),
        key_at(with_value(v, n, x), n) == key_at(v, n),
{
}

/// The public half of a stored key, as handed back by a store.
pub struct PublicKeyResponse {
    pub public_key: PublicKey,
}

/// The in-memory backend: one slot per record name, nothing durable.
/// Intended for tests and constructed environments.
pub struct InMemoryStorage {
    pub consensus: Slot,
    pub execution: Slot,
    pub safety: Slot,
    pub owner: Slot,
    pub waypoint: Slot,
}

impl View for InMemoryStorage {
    type V = StoreView;

    open spec fn view(&self) -> StoreView {
        StoreView {
            consensus: self.consensus@,
            execution: self.execution@,
            safety: self.safety@,
            owner: self.owner@,
            waypoint: self.waypoint@,
        }
    }
}

impl InMemoryStorage {
    pub fn new() -> (r: Self)
        ensures
            r@ == spec_empty_store(),
    {
        InMemoryStorage {
            consensus: Slot::empty(),
            execution: Slot::empty(),
            safety: Slot::empty(),
            owner: Slot::empty(),
            waypoint: Slot::empty(),
        }
    }

    pub fn get(&self, name: RecordName) -> (r: Result<Record, Error>)
        ensures
            match r {
                Ok(rec) => spec_get(self@, name) == Ok::<ValueView, Error>(rec.value@),
                Err(e) => spec_get(self@, name) == Err::<ValueView, Error>(e),
            },
    {
        let slot_value: &Option<Value> = match name {
            RecordName::ConsensusKey => &self.consensus.value,
            RecordName::ExecutionKey => &self.execution.value,
            RecordName::SafetyData => &self.safety.value,
            RecordName::OwnerAccount => &self.owner.value,
            RecordName::Waypoint => &self.waypoint.value,
        };
        match slot_value {
            Some(v) => Ok(Record { value: v.clone() }),
            None => Err(Error::KeyNotFound(name)),
        }
    }

    pub fn set(&mut self, name: RecordName, value: Value) -> (r: Result<(), Error>)
        ensures
            r is Ok,
            final(self)@ == with_value(old(self)@, name, value@),
    {
        match name {
            RecordName::ConsensusKey => self.consensus.value = Some(value),
            RecordName::ExecutionKey => self.execution.value = Some(value),
            RecordName::SafetyData => self.safety.value = Some(value),
            RecordName::OwnerAccount => self.owner.value = Some(value),
            RecordName::Waypoint => self.waypoint.value = Some(value),
        }
        Ok(())
    }

    pub fn import_private_key(&mut self, name: RecordName, key: PrivateKey) -> (r: Result<
        (),
        Error,
    >)
        ensures
            key_at(old(self)@, name) is Some ==> r == Err::<(), Error>(
                Error::KeyAlreadyExists(name),
            ) && *final(self) == *old(self),
            key_at(old(self)@, name) is None ==> r is Ok && final(self)@ == with_key(
                old(self)@,
                name,
                key@,
            ),
    {
        let existing: &Option<PrivateKey> = match name {
            RecordName::ConsensusKey => &self.consensus.key,
            RecordName::ExecutionKey => &self.execution.key,
            RecordName::SafetyData => &self.safety.key,
            RecordName::OwnerAccount => &self.owner.key,
            RecordName::Waypoint => &self.waypoint.key,
        };
        if existing.is_some() {
            return Err(Error::KeyAlreadyExists(name));
        }
        match name {
            RecordName::ConsensusKey => self.consensus.key = Some(key),
            RecordName::ExecutionKey => self.execution.key = Some(key),
            RecordName::SafetyData => self.safety.key = Some(key),
            RecordName::OwnerAccount => self.owner.key = Some(key),
            RecordName::Waypoint => self.waypoint.key = Some(key),
        }
        Ok(())
    }

    pub fn export_private_key_for_version(&self, name: RecordName, version: PublicKey) -> (r:
        Result<PrivateKey, Error>)
        ensures
            match r {
                Ok(k) => spec_export(self@, name, version@) == Ok::<PrivateKeyView, Error>(k@),
                Err(e) => spec_export(self@, name, version@) == Err::<PrivateKeyView, Error>(e),
            },
    {
        let stored: &Option<PrivateKey> = match name {
            RecordName::ConsensusKey => &self.consensus.key,
            RecordName::ExecutionKey => &self.execution.key,
            RecordName::SafetyData => &self.safety.key,
            RecordName::OwnerAccount => &self.owner.key,
            RecordName::Waypoint => &self.waypoint.key,
        };
        match stored {
            None => Err(Error::KeyNotFound(name)),
            Some(k) => {
                if crate::util::eq_bytes(&k.public.bytes, &version.bytes) {
                    Ok(k.clone())
                } else {
                    Err(Error::KeyVersionNotFound(name))
                }
            },
        }
    }

    pub fn get_public_key(&self, name: RecordName) -> (r: Result<PublicKeyResponse, Error>)
        ensures
            match r {
                Ok(resp) => spec_public_key(self@, name) == Ok::<Seq<u8>, Error>(
                    resp.public_key@,
                ),
                Err(e) => spec_public_key(self@, name) == Err::<Seq<u8>, Error>(e),
            },
    {
        let stored: &Option<PrivateKey> = match name {
            RecordName::ConsensusKey => &self.consensus.key,
            RecordName::ExecutionKey => &self.execution.key,
            RecordName::SafetyData => &self.safety.key,
            RecordName::OwnerAccount => &self.owner.key,
            RecordName::Waypoint => &self.waypoint.key,
        };
        match stored {
            Some(k) => Ok(PublicKeyResponse { public_key: k.public_key() }),
            None => Err(Error::KeyNotFound(name)),
        }
    }
}

/// The cache decorator. It answers reads of previously written or read
/// records from its own copy and forwards everything else, so a caller
/// never observes a value other than the backend's.
///
/// Writes go through to the backend and then refresh the copy, so no
/// staleness window follows a write. Reads that miss are answered by the
/// backend directly.
pub struct CachedStorage {
    pub inner: InMemoryStorage,
    pub cache: CacheSlots,
}

/// The decorator's own copies of stored values, one per record name.
pub struct CacheSlots {
    pub consensus: Option<Value>,
    pub execution: Option<Value>,
    pub safety: Option<Value>,
    pub owner: Option<Value>,
    pub waypoint: Option<Value>,
}

pub open spec fn cache_slot_ok(c: Option<Value>, v: StoreView, n: RecordName) -> bool {
    match c {
        Some(x) => value_at(v, n) == Some(x@),
        None => true,
    }
}

impl CachedStorage {
    /// Every cached copy agrees with the wrapped backend.
    pub open spec fn wf(&self) -> bool {
        &&& cache_slot_ok(self.cache.consensus, self.inner@, RecordName::ConsensusKey)
        &&& cache_slot_ok(self.cache.execution, self.inner@, RecordName::ExecutionKey)
        &&& cache_slot_ok(self.cache.safety, self.inner@, RecordName::SafetyData)
        &&& cache_slot_ok(self.cache.owner, self.inner@, RecordName::OwnerAccount)
        &&& cache_slot_ok(self.cache.waypoint, self.inner@, RecordName::Waypoint)
    }

    /// Wraps a backend with an empty cache.
    pub fn new(inner: InMemoryStorage) -> (r: Self)
        ensures
            r@ == inner@,
            r.wf(),
    {
        CachedStorage {
            inner,
            cache: CacheSlots {
                consensus: None,
                execution: None,
                safety: None,
                owner: None,
                waypoint: None,
            },
        }
    }

    pub fn get(&self, name: RecordName) -> (r: Result<Record, Error>)
        requires
            self.wf(),
        ensures
            match r {
                Ok(rec) => spec_get(self@, name) == Ok::<ValueView, Error>(rec.value@),
                Err(e) => spec_get(self@, name) == Err::<ValueView, Error>(e),
            },
    {
        let cached: &Option<Value> = match name {
            RecordName::ConsensusKey => &self.cache.consensus,
            RecordName::ExecutionKey => &self.cache.execution,
            RecordName::SafetyData => &self.cache.safety,
            RecordName::OwnerAccount => &self.cache.owner,
            RecordName::Waypoint => &self.cache.waypoint,
        };
        match cached {
            Some(v) => Ok(Record { value: v.clone() }),
            None => self.inner.get(name),
        }
    }

    pub fn set(&mut self, name: RecordName, value: Value) -> (r: Result<(), Error>)
        requires
            old(self).wf(),
        ensures
            final(self).wf(),
            r is Ok,
            final(self)@ == with_value(old(self)@, name, value@),
    {
        let copy = value.clone();
        let r = self.inner.set(name, value);
        match name {
            RecordName::ConsensusKey => self.cache.consensus = Some(copy),
            RecordName::ExecutionKey => self.cache.execution = Some(copy),
            RecordName::SafetyData => self.cache.safety = Some(copy),
            RecordName::OwnerAccount => self.cache.owner = Some(copy),
            RecordName::Waypoint => self.cache.waypoint = Some(copy),
        }
        r
    }

    pub fn import_private_key(&mut self, name: RecordName, key: PrivateKey) -> (r: Result<
        (),
        Error,
    >)
        requires
            old(self).wf(),
        ensures
            final(self).wf(),
            key_at(old(self)@, name) is Some ==> r == Err::<(), Error>(
                Error::KeyAlreadyExists(name),
            ) && final(self)@ == old(self)@,
            key_at(old(self)@, name) is None ==> r is Ok && final(self)@ == with_key(
                old(self)@,
                name,
                key@,
            ),
    {
        self.inner.import_private_key(name, key)
    }

    pub fn export_private_key_for_version(&self, name: RecordName, version: PublicKey) -> (r:
        Result<PrivateKey, Error>)
        ensures
            match r {
                Ok(k) => spec_export(self@, name, version@) == Ok::<PrivateKeyView, Error>(k@),
                Err(e) => spec_export(self@, name, version@) == Err::<PrivateKeyView, Error>(e),
            },
    {
        self.inner.export_private_key_for_version(name, version)
    }

    pub fn get_public_key(&self, name: RecordName) -> (r: Result<PublicKeyResponse, Error>)
        ensures
            match r {
                Ok(resp) => spec_public_key(self@, name) == Ok::<Seq<u8>, Error>(
                    resp.public_key@,
                ),
                Err(e) => spec_public_key(self@, name) == Err::<Seq<u8>, Error>(e),
            },
    {
        self.inner.get_public_key(name)
    }
}

impl View for CachedStorage {
    type V = StoreView;

    open spec fn view(&self) -> StoreView {
        self.inner@
    }
}

/// A store a [`crate::persistent::PersistentSafetyStorage`] can own:
/// either the plain in-memory backend or the cache decorator around it.
pub enum Storage {
    InMemory(InMemoryStorage),
    Cached(CachedStorage),
}

impl View for Storage {
    type V = StoreView;

    open spec fn view(&self) -> StoreView {
        match self {
            Storage::InMemory(m) => m@,
            Storage::Cached(c) => c@,
        }
    }
}

impl Storage {
    /// Whether this store already carries the cache decorator.
    pub open spec fn is_cached(&self) -> bool {
        self is Cached
    }

    pub open spec fn wf(&self) -> bool {
        match self {
            Storage::InMemory(_) => true,
            Storage::Cached(c) => c.wf(),
        }
    }

    pub fn get(&self, name: RecordName) -> (r: Result<Record, Error>)
        requires
            self.wf(),
        ensures
            match r {
                Ok(rec) => spec_get(self@, name) == Ok::<ValueView, Error>(rec.value@),
                Err(e) => spec_get(self@, name) == Err::<ValueView, Error>(e),
            },
    {
        match self {
            Storage::InMemory(m) => m.get(name),
            Storage::Cached(c) => c.get(name),
        }
    }

    pub fn set(&mut self, name: RecordName, value: Value) -> (r: Result<(), Error>)
        requires
            old(self).wf(),
        ensures
            final(self).wf(),
            final(self).is_cached() == old(self).is_cached(),
            r is Ok,
            final(self)@ == with_value(old(self)@, name, value@),
    {
        match self {
            Storage::InMemory(m) => m.set(name, value),
            Storage::Cached(c) => c.set(name, value),
        }
    }

    pub fn import_private_key(&mut self, name: RecordName, key: PrivateKey) -> (r: Result<
        (),
        Error,
    >)
        requires
            old(self).wf(),
        ensures
            final(self).wf(),
            final(self).is_cached() == old(self).is_cached(),
            key_at(old(self)@, name) is Some ==> r == Err::<(), Error>(
                Error::KeyAlreadyExists(name),
            ) && final(self)@ == old(self)@,
            key_at(old(self)@, name) is None ==> r is Ok && final(self)@ == with_key(
                old(self)@,
                name,
                key@,
            ),
    {
        match self {
            Storage::InMemory(m) => m.import_private_key(name, key),
            Storage::Cached(c) => c.import_private_key(name, key),
        }
    }

    pub fn export_private_key_for_version(&self, name: RecordName, version: PublicKey) -> (r:
        Result<PrivateKey, Error>)
        requires
            self.wf(),
        ensures
            match r {
                Ok(k) => spec_export(self@, name, version@) == Ok::<PrivateKeyView, Error>(k@),
                Err(e) => spec_export(self@, name, version@) == Err::<PrivateKeyView, Error>(e),
            },
    {
        match self {
            Storage::InMemory(m) => m.export_private_key_for_version(name, version),
            Storage::Cached(c) => c.export_private_key_for_version(name, version),
        }
    }

    pub fn get_public_key(&self, name: RecordName) -> (r: Result<PublicKeyResponse, Error>)
        requires
            self.wf(),
        ensures
            match r {
                Ok(resp) => spec_public_key(self@, name) == Ok::<Seq<u8>, Error>(
                    resp.public_key@,
                ),
                Err(e) => spec_public_key(self@, name) == Err::<Seq<u8>, Error>(e),
            },
    {
        match self {
            Storage::InMemory(m) => m.get_public_key(name),
            Storage::Cached(c) => c.get_public_key(name),
        }
    }
}

} // verus!
