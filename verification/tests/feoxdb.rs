use std::path::Path;
use std::time::Duration;

use tempfile::TempDir;

use hitbox::feoxdb::{
    write_request,
    device_path, encode_key, ttl_secs, unexpired_at, DeleteStatus, FeOxDbBackend, FeOxDbError,
};
use hitbox::key::{CacheKey, KeyPart};
use hitbox::raw::raw_from_vec;
use hitbox::status::BackendLabel;
use hitbox::time::Timestamp;
use hitbox::value::CacheValue;

fn one_hour() -> Option<Duration> {
    Some(Duration::from_secs(3600))
}

fn persistent(dir: &Path) -> FeOxDbBackend {
    FeOxDbBackend::builder().path(dir.to_str().unwrap()).build(dir.is_dir()).unwrap()
}

#[test]
fn test_write_and_read() {
    let temp_dir = TempDir::new().unwrap();
    let backend = persistent(temp_dir.path());

    let key = CacheKey::from_str("test-key", "1");
    backend.write_bytes(&key, &b"test-value".to_vec(), one_hour()).unwrap();

    let result = backend.read_bytes(&key).unwrap();
    assert!(result.is_some());
    assert_eq!(result.unwrap(), b"test-value".to_vec());
}

#[test]
fn test_delete() {
    let temp_dir = TempDir::new().unwrap();
    let backend = persistent(temp_dir.path());

    let key = CacheKey::from_str("delete-key", "1");
    backend.write_bytes(&key, &b"test-value".to_vec(), one_hour()).unwrap();

    let status = backend.remove(&key).unwrap();
    assert_eq!(status, DeleteStatus::Deleted(1));

    let result = backend.read_bytes(&key).unwrap();
    assert!(result.is_none());
}

#[test]
fn test_delete_missing() {
    let temp_dir = TempDir::new().unwrap();
    let backend = persistent(temp_dir.path());

    let key = CacheKey::from_str("nonexistent", "1");
    let status = backend.remove(&key).unwrap();
    assert_eq!(status, DeleteStatus::Missing);
}

#[test]
fn test_read_nonexistent() {
    let temp_dir = TempDir::new().unwrap();
    let backend = persistent(temp_dir.path());

    let key = CacheKey::from_str("nonexistent-read", "1");
    let result = backend.read_bytes(&key).unwrap();
    assert!(result.is_none());
}

#[test]
fn test_in_memory_backend() {
    let backend = FeOxDbBackend::in_memory().unwrap();

    let key = CacheKey::from_str("memory-key", "1");
    backend.write_bytes(&key, &b"memory-value".to_vec(), one_hour()).unwrap();

    let result = backend.read_bytes(&key).unwrap();
    assert!(result.is_some());
    assert_eq!(result.unwrap(), b"memory-value".to_vec());
}

#[test]
fn test_clone_shares_store() {
    let temp_dir = TempDir::new().unwrap();
    let backend1 = persistent(temp_dir.path());
    let backend2 = backend1.clone();

    let key = CacheKey::from_str("shared-key", "1");
    backend1.write_bytes(&key, &b"shared-value".to_vec(), one_hour()).unwrap();

    let result = backend2.read_bytes(&key).unwrap();
    assert!(result.is_some());
    assert_eq!(result.unwrap(), b"shared-value".to_vec());
}

#[test]
fn test_expired_entry_not_returned() {
    let backend = FeOxDbBackend::in_memory().unwrap();

    let key = CacheKey::from_str("expired-key", "1");
    let now = Timestamp::now().unwrap();
    let expired_time = Timestamp::from_nanos(now.nanos - 10_000_000_000);
    let value =
        CacheValue::new(raw_from_vec(b"expired".to_vec()), Some(expired_time), None).unwrap();
    // An entry that has already expired has no time-to-live left.
    assert_eq!(value.ttl(), Some(None));
    backend.write_bytes(&key, &b"expired".to_vec(), value.ttl().unwrap()).unwrap();

    assert!(backend.read_bytes(&key).unwrap().is_some());
    let result = unexpired_at(value, Timestamp::now().unwrap());
    assert!(result.is_none(), "Expired entry should not be returned");
}

#[test]
fn test_memory_limit_exceeded() {
    let backend = FeOxDbBackend::builder().max_memory(1024).build(false).unwrap();

    let key = CacheKey::from_str("big-key", "1");
    let large_data = vec![0u8; 2048];

    let result = backend.write_bytes(&key, &large_data, one_hour());
    assert!(result.is_err(), "Write should fail when exceeding memory limit");
}

#[test]
fn test_builder_with_label() {
    let backend = FeOxDbBackend::builder()
        .label(BackendLabel::new("custom-label"))
        .build(false)
        .unwrap();

    assert_eq!(backend.label().as_str(), "custom-label");
}

#[test]
fn default_label_is_feoxdb() {
    assert_eq!(FeOxDbBackend::in_memory().unwrap().label().as_str(), "feoxdb");
}

#[test]
fn empty_value_is_refused() {
    let backend = FeOxDbBackend::in_memory().unwrap();
    let key = CacheKey::from_str("k", "v");
    assert!(matches!(
        backend.write_bytes(&key, &Vec::new(), None),
        Err(FeOxDbError::FeOxDb(_))
    ));
}

#[test]
fn write_without_ttl_and_overwrite() {
    let backend = FeOxDbBackend::in_memory().unwrap();
    let key = CacheKey::from_str("k", "v");
    backend.write_bytes(&key, &b"one".to_vec(), None).unwrap();
    backend.write_bytes(&key, &b"two".to_vec(), None).unwrap();
    assert_eq!(backend.read_bytes(&key).unwrap(), Some(b"two".to_vec()));
    backend.flush();
}

#[test]
fn key_bytes_are_the_bincode_encoding_of_the_key_fields() {
    let key = CacheKey::new(
        "api",
        300,
        vec![KeyPart::new("id", Some("42")), KeyPart::new("flag", None)],
    );
    let expected = bincode::serde::encode_to_vec(
        &(
            vec![
                ("id".to_string(), Some("42".to_string())),
                ("flag".to_string(), None::<String>),
            ],
            300u32,
            "api".to_string(),
        ),
        bincode::config::standard(),
    )
    .unwrap();
    assert_eq!(encode_key(&key), expected);

    let simple = CacheKey::from_str("test-key", "1");
    let mut bytes = vec![1u8, 8];
    bytes.extend_from_slice(b"test-key");
    bytes.extend_from_slice(&[1, 1, b'1', 0, 0]);
    assert_eq!(encode_key(&simple), bytes);
}

#[test]
fn distinct_keys_get_distinct_bytes() {
    let a = encode_key(&CacheKey::from_str("a", "1"));
    let b = encode_key(&CacheKey::from_str("a", "2"));
    assert_ne!(a, b);
}

#[test]
fn directory_paths_get_a_database_file() {
    assert_eq!(device_path("/var/cache/app", true), "/var/cache/app/cache.db");
    assert_eq!(device_path("/var/cache/app/", true), "/var/cache/app/cache.db");
    assert_eq!(device_path("/var/cache/app.db", false), "/var/cache/app.db");
}

#[test]
fn ttl_is_counted_in_whole_seconds() {
    assert_eq!(ttl_secs(&Some(Duration::from_millis(3999))), Some(3));
    assert_eq!(ttl_secs(&Some(Duration::from_secs(3600))), Some(3600));
    assert_eq!(ttl_secs(&None), None);
}

#[test]
fn unexpired_entries_are_kept() {
    let now = Timestamp::from_nanos(1_000);
    let fresh = CacheValue::with_created(raw_from_vec(vec![1]), now, Some(now), None);
    assert!(unexpired_at(fresh, now).is_some());
    let forever = CacheValue::with_created(raw_from_vec(vec![1]), now, None, None);
    assert!(unexpired_at(forever, now).is_some());
    let old = CacheValue::with_created(
        raw_from_vec(vec![1]),
        now,
        Some(Timestamp::from_nanos(999)),
        None,
    );
    assert!(unexpired_at(old, now).is_none());
}

#[test]
fn test_per_key_ttl() {
    let temp_dir = TempDir::new().unwrap();
    let backend = persistent(temp_dir.path());

    let now = chrono::Utc::now();
    let expire_1h = now + chrono::Duration::hours(1);
    let expire_24h = now + chrono::Duration::hours(24);
    let encode = |data: &[u8], expire: chrono::DateTime<chrono::Utc>| {
        bincode::serde::encode_to_vec(
            &(data.to_vec(), None::<chrono::DateTime<chrono::Utc>>, Some(expire)),
            bincode::config::standard(),
        )
        .unwrap()
    };
    let ttl_of = |expire: chrono::DateTime<chrono::Utc>| {
        let value = CacheValue::new(
            raw_from_vec(vec![]),
            Some(Timestamp::from_parts(expire.timestamp(), expire.timestamp_subsec_nanos())),
            None,
        );
        value.unwrap().ttl().unwrap()
    };

    let key1 = CacheKey::from_str("key1", "1");
    backend.write_bytes(&key1, &encode(b"value1", expire_1h), ttl_of(expire_1h)).unwrap();
    let key2 = CacheKey::from_str("key2", "1");
    backend.write_bytes(&key2, &encode(b"value2", expire_24h), ttl_of(expire_24h)).unwrap();

    type Stored = (Vec<u8>, Option<chrono::DateTime<chrono::Utc>>, Option<chrono::DateTime<chrono::Utc>>);
    let read = |key: &CacheKey| -> Stored {
        let bytes = backend.read_bytes(key).unwrap().expect("key should exist");
        bincode::serde::decode_from_slice(&bytes, bincode::config::standard()).unwrap().0
    };
    let read1 = read(&key1);
    let read2 = read(&key2);

    let tolerance = chrono::Duration::seconds(1);
    assert!((read1.2.unwrap() - expire_1h).abs() < tolerance);
    assert!((read2.2.unwrap() - expire_24h).abs() < tolerance);
    assert_eq!(read1.0, b"value1".to_vec());
    assert_eq!(read2.0, b"value2".to_vec());
}

#[test]
fn test_flush_persists_data() {
    let temp_dir = TempDir::new().unwrap();
    let db_path = temp_dir.path().join("cache.db");

    {
        let backend = persistent(temp_dir.path());
        let key = CacheKey::from_str("persist-key", "1");
        backend.write_bytes(&key, &b"persist-value".to_vec(), one_hour()).unwrap();
        backend.flush();
    }

    let backend = persistent(&db_path);

    let key = CacheKey::from_str("persist-key", "1");
    let result = backend.read_bytes(&key).unwrap();
    assert!(result.is_some(), "Data should persist after flush and reopen");
    assert_eq!(result.unwrap(), b"persist-value".to_vec());
}

#[test]
fn test_file_size_limit_drops_excess_writes() {
    let temp_dir = TempDir::new().unwrap();
    let db_path = temp_dir.path().join("cache.db");

    let file_size_limit = 10 * 1024 * 1024;
    let chunk_size = 256 * 1024;
    let num_chunks = 60;

    {
        let backend = FeOxDbBackend::builder()
            .path(temp_dir.path().to_str().unwrap())
            .max_file_size(file_size_limit)
            .build(true)
            .unwrap();

        let chunk = vec![0u8; chunk_size];
        for i in 0..num_chunks {
            let key = CacheKey::from_str(&format!("chunk-{}", i), "1");
            let _ = backend.write_bytes(&key, &chunk, one_hour());
            if i % 5 == 4 {
                backend.flush();
            }
        }
        backend.flush();
    }

    let backend = FeOxDbBackend::builder()
        .path(db_path.to_str().unwrap())
        .max_file_size(file_size_limit)
        .build(false)
        .unwrap();

    let mut persisted_count = 0;
    for i in 0..num_chunks {
        let key = CacheKey::from_str(&format!("chunk-{}", i), "1");
        if backend.read_bytes(&key).unwrap().is_some() {
            persisted_count += 1;
        }
    }

    assert!(persisted_count > 0, "At least some chunks should persist");
    assert!(
        persisted_count < num_chunks,
        "Not all chunks should persist when exceeding file size limit. Persisted {}/{} chunks",
        persisted_count,
        num_chunks
    );
}

#[test]
fn write_requests_carry_the_ttl() {
    let key = CacheKey::from_str("k", "v");
    let req = write_request(&key, &b"x".to_vec(), &Some(Duration::from_millis(2500)));
    assert_eq!(req.key, encode_key(&key));
    assert_eq!(req.value, b"x".to_vec());
    assert_eq!(req.ttl_secs, Some(2));
    assert_eq!(write_request(&key, &b"x".to_vec(), &None).ttl_secs, None);
    let backend = FeOxDbBackend::in_memory().unwrap();
    backend.send_write(&req).unwrap();
    assert_eq!(backend.read_bytes(&key).unwrap(), Some(b"x".to_vec()));
}

#[test]
fn builder_settings_reach_the_store_settings() {
    let plain = FeOxDbBackend::builder().store_settings(false);
    assert!(plain.enable_ttl);
    assert_eq!(plain.device_path, None);
    assert_eq!(plain.file_size, None);
    assert_eq!(plain.max_memory, None);
    let set = FeOxDbBackend::builder()
        .path("/var/cache/app")
        .max_file_size(1 << 20)
        .max_memory(4096)
        .store_settings(true);
    assert!(set.enable_ttl);
    assert_eq!(set.device_path.as_deref(), Some("/var/cache/app/cache.db"));
    assert_eq!(set.file_size, Some(1 << 20));
    assert_eq!(set.max_memory, Some(4096));
    let file = FeOxDbBackend::builder().path("/tmp/x.db").store_settings(false);
    assert_eq!(file.device_path.as_deref(), Some("/tmp/x.db"));
}
