use safety_storage::author::Author;
use safety_storage::error::Error;
use safety_storage::keys::{PrivateKey, PublicKey};
use safety_storage::persistent::{PersistentSafetyStorage, ProgressCounters};
use safety_storage::safety_data::SafetyData;
use safety_storage::storage::{InMemoryStorage, RecordName, Storage};
use safety_storage::value::Value;
use safety_storage::waypoint::Waypoint;

fn key(tag: u8) -> PrivateKey {
    PrivateKey::new(vec![tag; 32], PublicKey::new(vec![tag.wrapping_add(100); 32]))
}

fn author_a() -> Author {
    Author::new((0u8..16).collect())
}

fn digest(tag: u8) -> Vec<u8> {
    vec![tag; 32]
}

#[test]
fn test() {
    let private_key = key(1);
    let mut storage = PersistentSafetyStorage::in_memory(private_key, key(2));
    let safety_data = storage.safety_data().unwrap();
    assert_eq!(safety_data.epoch, 1);
    assert_eq!(safety_data.last_voted_round, 0);
    assert_eq!(safety_data.preferred_round, 0);
    storage.set_safety_data(SafetyData::new(9, 8, 1, None)).unwrap();
    let safety_data = storage.safety_data().unwrap();
    assert_eq!(safety_data.epoch, 9);
    assert_eq!(safety_data.last_voted_round, 8);
    assert_eq!(safety_data.preferred_round, 1);
}

#[test]
fn fresh_store_has_default_safety_data() {
    let storage = PersistentSafetyStorage::in_memory(key(1), key(2));
    let d = storage.safety_data().unwrap();
    assert_eq!(d.epoch, 1);
    assert_eq!(d.last_voted_round, 0);
    assert_eq!(d.preferred_round, 0);
    assert!(d.last_vote.is_none());
}

#[test]
fn safety_data_write_read_round_trip() {
    let mut storage = PersistentSafetyStorage::in_memory(key(1), key(2));
    let vote = vec![7u8, 11, 13];
    storage
        .set_safety_data(SafetyData::new(42, 41, 17, Some(vote.clone())))
        .unwrap();
    let d = storage.safety_data().unwrap();
    assert_eq!(d.epoch, 42);
    assert_eq!(d.last_voted_round, 41);
    assert_eq!(d.preferred_round, 17);
    assert_eq!(d.last_vote, Some(vote));
}

#[test]
fn set_safety_data_reports_progress() {
    let mut storage = PersistentSafetyStorage::in_memory(key(1), key(2));
    assert_eq!(
        storage.counters,
        ProgressCounters { epoch: None, last_voted_round: None, preferred_round: None }
    );
    storage.set_safety_data(SafetyData::new(9, 8, 1, None)).unwrap();
    assert_eq!(
        storage.counters,
        ProgressCounters { epoch: Some(9), last_voted_round: Some(8), preferred_round: Some(1) }
    );
}

#[test]
fn waypoint_write_read_round_trip() {
    let mut storage = PersistentSafetyStorage::in_memory(key(1), key(2));
    let w = Waypoint::new(31337, (0u8..32).collect());
    storage.set_waypoint(&w).unwrap();
    let got = storage.waypoint().unwrap();
    assert_eq!(got.version, 31337);
    assert_eq!(got.value, (0u8..32).collect::<Vec<u8>>());
}

#[test]
fn waypoint_text_exact_form() {
    let w = Waypoint::new(5, digest(0));
    let text = w.to_text();
    let mut expected = String::from("5:");
    for _ in 0..64 {
        expected.push('0');
    }
    assert_eq!(text, expected);
}

#[test]
fn waypoint_text_round_trips_largest_version() {
    let w = Waypoint::new(u64::MAX, (100u8..132).collect());
    let got = Waypoint::from_text(&w.to_text()).unwrap();
    assert_eq!(got.version, u64::MAX);
    assert_eq!(got.value, (100u8..132).collect::<Vec<u8>>());
}

#[test]
fn waypoint_parse_accepts_upper_case_and_leading_zeros() {
    let mut text = String::from("007:");
    for _ in 0..32 {
        text.push_str("AB");
    }
    let got = Waypoint::from_text(&text).unwrap();
    assert_eq!(got.version, 7);
    assert_eq!(got.value, vec![0xABu8; 32]);
}

#[test]
fn waypoint_parse_rejects_malformed_text() {
    assert!(Waypoint::from_text("").is_none());
    assert!(Waypoint::from_text("5").is_none());
    assert!(Waypoint::from_text(":").is_none());
    assert!(Waypoint::from_text("5:abcd").is_none());
    let mut bad_version = String::from("x:");
    let mut bad_digit = String::from("5:");
    let mut overflow = String::from("18446744073709551616:");
    let mut largest = String::from("18446744073709551615:");
    for _ in 0..64 {
        bad_version.push('0');
        bad_digit.push('g');
        overflow.push('0');
        largest.push('0');
    }
    assert!(Waypoint::from_text(&bad_version).is_none());
    assert!(Waypoint::from_text(&bad_digit).is_none());
    assert!(Waypoint::from_text(&overflow).is_none());
    assert_eq!(Waypoint::from_text(&largest).unwrap().version, u64::MAX);
}

#[test]
fn author_text_exact_form_and_round_trip() {
    let a = author_a();
    assert_eq!(a.to_text(), "000102030405060708090a0b0c0d0e0f");
    let back = Author::from_text(&a.to_text()).unwrap();
    assert_eq!(back.bytes, a.bytes);
    assert!(Author::from_text("00").is_none());
    assert!(Author::from_text("zz").is_none());
}

#[test]
fn reinitialize_preserves_existing_records() {
    let store = Storage::InMemory(InMemoryStorage::new());
    let mut storage =
        PersistentSafetyStorage::initialize(store, author_a(), key(1), key(2), Waypoint::new(3, digest(9)));
    storage.set_safety_data(SafetyData::new(5, 4, 2, None)).unwrap();

    let other_author = Author::new(vec![0xEEu8; 16]);
    let storage = PersistentSafetyStorage::initialize(
        storage.internal_store,
        other_author,
        key(7),
        key(8),
        Waypoint::new(99, digest(1)),
    );

    assert_eq!(storage.author().unwrap().bytes, author_a().bytes);
    let w = storage.waypoint().unwrap();
    assert_eq!(w.version, 3);
    assert_eq!(w.value, digest(9));
    let d = storage.safety_data().unwrap();
    assert_eq!(d.epoch, 5);
    assert_eq!(d.last_voted_round, 4);
    assert_eq!(d.preferred_round, 2);
    let pk = storage.consensus_key_for_version(key(1).public_key()).unwrap();
    assert_eq!(pk.secret, key(1).secret);
}

#[test]
fn cache_decorator_flattens_and_stays_transparent() {
    let storage = PersistentSafetyStorage::in_memory(key(1), key(2));
    let mut cached = storage.into_cached().into_cached();
    match &cached.internal_store {
        Storage::Cached(c) => {
            // A single decorator layer over the plain backend.
            let _: &InMemoryStorage = &c.inner;
        }
        Storage::InMemory(_) => panic!("expected the cache decorator"),
    }
    cached.set_safety_data(SafetyData::new(9, 8, 1, None)).unwrap();
    let d = cached.safety_data().unwrap();
    assert_eq!(d.epoch, 9);
    assert_eq!(d.last_voted_round, 8);
    assert_eq!(d.preferred_round, 1);
}

#[test]
fn cached_write_is_immediately_visible() {
    let mut cached = PersistentSafetyStorage::in_memory(key(1), key(2)).into_cached();
    let w = Waypoint::new(8, digest(3));
    cached.set_waypoint(&w).unwrap();
    let got = cached.waypoint().unwrap();
    assert_eq!(got.version, 8);
    assert_eq!(got.value, digest(3));
    // A repeated read, now answered from the cache, agrees.
    let again = cached.waypoint().unwrap();
    assert_eq!(again.version, 8);
    assert_eq!(again.value, digest(3));
}

#[test]
fn reads_before_initialization_fail_with_not_found() {
    let storage = PersistentSafetyStorage::new(Storage::InMemory(InMemoryStorage::new()));
    assert_eq!(storage.safety_data(), Err(Error::KeyNotFound(RecordName::SafetyData)));
    match storage.author() {
        Err(Error::KeyNotFound(RecordName::OwnerAccount)) => {}
        other => panic!("unexpected author result: {:?}", other.map(|a| a.bytes)),
    }
    match storage.waypoint() {
        Err(Error::KeyNotFound(RecordName::Waypoint)) => {}
        _ => panic!("unexpected waypoint result"),
    }
    assert_eq!(
        storage.execution_public_key().map(|k| k.bytes),
        Err(Error::KeyNotFound(RecordName::ExecutionKey))
    );
}

#[test]
fn initialize_then_update_scenario() {
    let store = Storage::InMemory(InMemoryStorage::new());
    let w0 = Waypoint::new(0, digest(0));
    let mut storage =
        PersistentSafetyStorage::initialize(store, author_a(), key(1), key(2), w0);
    storage.set_safety_data(SafetyData::new(9, 8, 1, None)).unwrap();
    let d = storage.safety_data().unwrap();
    assert_eq!((d.epoch, d.last_voted_round, d.preferred_round, d.last_vote), (9, 8, 1, None));
    assert_eq!(storage.author().unwrap().bytes, author_a().bytes);
    let w = storage.waypoint().unwrap();
    assert_eq!(w.version, 0);
    assert_eq!(w.value, digest(0));
}

#[test]
fn key_accessors_match_imported_keys() {
    let storage = PersistentSafetyStorage::in_memory(key(1), key(2));
    assert_eq!(storage.execution_public_key().unwrap().bytes, key(2).public.bytes);
    let pk = storage.consensus_key_for_version(key(1).public_key()).unwrap();
    assert_eq!(pk.secret, key(1).secret);
    assert_eq!(
        storage.consensus_key_for_version(key(9).public_key()).map(|k| k.secret),
        Err(Error::KeyVersionNotFound(RecordName::ConsensusKey))
    );
}

#[test]
fn importing_over_an_existing_key_is_refused() {
    let mut storage = PersistentSafetyStorage::in_memory(key(1), key(2));
    let r = storage.internal_store().import_private_key(RecordName::ConsensusKey, key(5));
    assert_eq!(r, Err(Error::KeyAlreadyExists(RecordName::ConsensusKey)));
    // The stored key is unchanged.
    let pk = storage.consensus_key_for_version(key(1).public_key()).unwrap();
    assert_eq!(pk.secret, key(1).secret);
}

#[test]
fn mismatched_value_variants_are_typed_errors() {
    let mut storage = PersistentSafetyStorage::in_memory(key(1), key(2));
    storage
        .internal_store()
        .set(RecordName::SafetyData, Value::Text(String::from("not a record")))
        .unwrap();
    assert_eq!(storage.safety_data(), Err(Error::UnexpectedValueType));
    storage
        .internal_store()
        .set(RecordName::Waypoint, Value::Safety(SafetyData::new(1, 0, 0, None)))
        .unwrap();
    match storage.waypoint() {
        Err(Error::UnexpectedValueType) => {}
        _ => panic!("expected a value-type mismatch"),
    }
}

#[test]
fn unparsable_stored_text_is_a_parse_error() {
    let mut storage = PersistentSafetyStorage::in_memory(key(1), key(2));
    storage
        .internal_store()
        .set(RecordName::Waypoint, Value::Text(String::from("not a waypoint")))
        .unwrap();
    match storage.waypoint() {
        Err(Error::Parse(RecordName::Waypoint)) => {}
        _ => panic!("expected a waypoint parse error"),
    }
    storage
        .internal_store()
        .set(RecordName::OwnerAccount, Value::Text(String::from("zz")))
        .unwrap();
    match storage.author() {
        Err(Error::Parse(RecordName::OwnerAccount)) => {}
        _ => panic!("expected an author parse error"),
    }
}

#[test]
fn record_names_are_the_fixed_strings() {
    assert_eq!(RecordName::ConsensusKey.text(), "consensus-key");
    assert_eq!(RecordName::ExecutionKey.text(), "execution-key");
    assert_eq!(RecordName::SafetyData.text(), "safety-data");
    assert_eq!(RecordName::OwnerAccount.text(), "owner-account");
    assert_eq!(RecordName::Waypoint.text(), "waypoint");
}

#[test]
fn default_waypoint_is_version_zero_all_zero_digest() {
    let w = Waypoint::default();
    assert_eq!(w.version, 0);
    assert_eq!(w.value, vec![0u8; 32]);
}
