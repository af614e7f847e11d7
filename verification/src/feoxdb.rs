//! A disk-backed cache backend on FeOxDB.
//!
//! Keys are stored as the bincode encoding (standard configuration) of the
//! cache key's fields: its parts, its version and its prefix. Values are
//! stored as bytes that the caller has already encoded; this module decides
//! which store call a write makes, how a store answer becomes the backend's
//! answer, and when an entry read back has expired.

use std::sync::Arc;
use std::time::Duration;
use vstd::prelude::*;

use crate::key::{CacheKey, KeyPartView};
use crate::raw::Raw;
use crate::status::BackendLabel;
use crate::time::{duration_as_nanos, duration_nanos, Timestamp, NANOS_PER_SEC};
use crate::value::CacheValue;

verus! {

#[verifier::external_type_specification]
#[verifier::external_body]
pub struct ExFeoxStore(feoxdb::FeoxStore);

#[verifier::external_type_specification]
#[verifier::external_body]
pub struct ExStoreBuilder(feoxdb::StoreBuilder);

#[verifier::external_type_specification]
#[verifier::external_body]
pub struct ExFeoxError(feoxdb::FeoxError);

#[verifier::external_type_specification]
#[verifier::external_body]
pub struct ExEncodeError(bincode::error::EncodeError);

#[verifier::external_type_specification]
#[verifier::external_body]
pub struct ExDecodeError(bincode::error::DecodeError);

/// Errors of the FeOxDB backend.
#[derive(Debug)]
pub enum FeOxDbError {
    /// The store refused an operation.
    FeOxDb(feoxdb::FeoxError),
    /// A cache key could not be encoded.
    Serialization(bincode::error::EncodeError),
    /// Stored bytes could not be decoded.
    Deserialization(bincode::error::DecodeError),
    /// An I/O failure, by its message.
    Io(String),
    /// The backend was configured inconsistently.
    InvalidConfig(String),
}

/// How a removal went.
#[derive(Debug, Clone, Copy, PartialEq, Eq, Structural)]
pub enum DeleteStatus {
    /// This many entries were removed.
    Deleted(u32),
    /// There was nothing under the key.
    Missing,
}

/// A store answer with the one failure the backend treats as an answer told
/// apart from the others.
#[derive(Debug)]
pub enum StoreFailure {
    /// No entry is stored under the key.
    KeyNotFound,
    /// Any other failure of the store.
    Other(feoxdb::FeoxError),
}

/// The bytes that bincode's serde encoder, with `bincode::config::standard()`,
/// writes for the tuple `(parts, version, prefix)`, where `parts` is a
/// sequence of `(key, optional value)` string pairs.
pub uninterp spec fn bincode_key_bytes(
    parts: Seq<KeyPartView>,
    version: u32,
    prefix: Seq<char>,
) -> Seq<u8>;

/// The abstract value of a list of owned key/value string pairs.
pub open spec fn string_pairs_view(v: Seq<(String, Option<String>)>) -> Seq<KeyPartView> {
    v.map_values(
        |p: (String, Option<String>)|
            (
                p.0@,
                match p.1 {
                    Some(s) => Some(s@),
                    None => None,
                },
            ),
    )
}

/// Calls `bincode::serde::encode_to_vec` on `fields` with
/// `bincode::config::standard()`. The encoding is a function of the values
/// alone, named [`bincode_key_bytes`]. It always succeeds here: the vector
/// writer never fails, and strings, options, tuples and vectors (whose
/// length is known) encode without error.
#[verifier::external_body]
fn encode_key_fields(fields: &(Vec<(String, Option<String>)>, u32, String)) -> (r: Result<
    Vec<u8>,
    bincode::error::EncodeError,
>)
    ensures
        r is Ok,
        r matches Ok(b) ==> b@ == bincode_key_bytes(
            string_pairs_view(fields.0@),
            fields.1,
            fields.2@,
        ),
{
    bincode::serde::encode_to_vec(fields, bincode::config::standard())
}

/// Calls `FeoxStore::builder`. The builder is opaque here.
#[verifier::external_body]
fn store_builder() -> (r: feoxdb::StoreBuilder) {
    feoxdb::FeoxStore::builder()
}

/// Calls `StoreBuilder::enable_ttl`. The builder is opaque here.
#[verifier::external_body]
fn store_enable_ttl(b: feoxdb::StoreBuilder, enable: bool) -> (r: feoxdb::StoreBuilder) {
    b.enable_ttl(enable)
}

/// Calls `StoreBuilder::device_path`. The builder is opaque here.
#[verifier::external_body]
fn store_device_path(b: feoxdb::StoreBuilder, path: String) -> (r: feoxdb::StoreBuilder) {
    b.device_path(path)
}

/// Calls `StoreBuilder::file_size`. The builder is opaque here.
#[verifier::external_body]
fn store_file_size(b: feoxdb::StoreBuilder, size: u64) -> (r: feoxdb::StoreBuilder) {
    b.file_size(size)
}

/// Calls `StoreBuilder::max_memory`. The builder is opaque here.
#[verifier::external_body]
fn store_max_memory(b: feoxdb::StoreBuilder, limit: usize) -> (r: feoxdb::StoreBuilder) {
    b.max_memory(limit)
}

/// Calls `StoreBuilder::build`, which opens or creates the store; whether it
/// succeeds depends on the file system, so nothing is stated of the result.
#[verifier::external_body]
fn store_build(b: feoxdb::StoreBuilder) -> (r: Result<feoxdb::FeoxStore, feoxdb::FeoxError>) {
    b.build()
}

/// Calls `FeoxStore::get` and tells `KeyNotFound` apart from the other
/// failures. What comes back depends on what the store holds, which is not
/// modelled; stated is only what the source shows for any store: an empty
/// key is refused (`InvalidKeySize`).
#[verifier::external_body]
fn store_get(store: &feoxdb::FeoxStore, key: &Vec<u8>) -> (r: Result<Vec<u8>, StoreFailure>)
    ensures
        key@.len() == 0 ==> r matches Err(StoreFailure::Other(_)),
{
    match store.get(key.as_slice()) {
        Ok(v) => Ok(v),
        Err(feoxdb::FeoxError::KeyNotFound) => Err(StoreFailure::KeyNotFound),
        Err(e) => Err(StoreFailure::Other(e)),
    }
}

/// Calls `FeoxStore::delete` and tells `KeyNotFound` apart from the other
/// failures. Whether the key was there depends on the store; stated is only
/// that an empty key is refused (`InvalidKeySize`).
#[verifier::external_body]
fn store_delete(store: &feoxdb::FeoxStore, key: &Vec<u8>) -> (r: Result<(), StoreFailure>)
    ensures
        key@.len() == 0 ==> r matches Err(StoreFailure::Other(_)),
{
    match store.delete(key.as_slice()) {
        Ok(()) => Ok(()),
        Err(feoxdb::FeoxError::KeyNotFound) => Err(StoreFailure::KeyNotFound),
        Err(e) => Err(StoreFailure::Other(e)),
    }
}

/// Calls `FeoxStore::insert`. Success depends on the store (memory and
/// disk limits, timestamps); stated is only that an empty key or an empty
/// value is refused (`InvalidKeySize`, `InvalidValueSize`).
#[verifier::external_body]
fn store_insert(store: &feoxdb::FeoxStore, key: &Vec<u8>, value: &Vec<u8>) -> (r: Result<
    bool,
    feoxdb::FeoxError,
>)
    ensures
        key@.len() == 0 || value@.len() == 0 ==> r is Err,
{
    store.insert(key.as_slice(), value.as_slice())
}

/// Calls `FeoxStore::insert_with_ttl`. Success depends on the store; stated
/// is only that an empty key or an empty value is refused.
#[verifier::external_body]
fn store_insert_with_ttl(
    store: &feoxdb::FeoxStore,
    key: &Vec<u8>,
    value: &Vec<u8>,
    ttl_secs: u64,
) -> (r: Result<bool, feoxdb::FeoxError>)
    ensures
        key@.len() == 0 || value@.len() == 0 ==> r is Err,
{
    store.insert_with_ttl(key.as_slice(), value.as_slice(), ttl_secs)
}

/// Calls `FeoxStore::flush`, which writes buffered records to disk; its
/// outcome depends on the disk.
#[verifier::external_body]
fn store_flush(store: &feoxdb::FeoxStore) -> (r: Result<(), feoxdb::FeoxError>) {
    store.flush()
}

/// The file a persistent store lives in: `cache.db` inside `path` when
/// `path` names a directory, else `path` itself.
pub open spec fn spec_device_path(path: Seq<char>, is_dir: bool) -> Seq<char> {
    if !is_dir {
        path
    } else if path.len() > 0 && path.last() == '/' {
        path + "cache.db"@
    } else {
        path + "/cache.db"@
    }
}

/// The file a persistent store lives in: `cache.db` inside `path` when
/// `path` names a directory (as `PathBuf::push` joins them), else `path`.
pub fn device_path(path: &str, is_dir: bool) -> (r: String)
    ensures
        r@ == spec_device_path(path@, is_dir),
{
    let mut out = path.to_owned();
    if is_dir {
        let n = path.unicode_len();
        let ends_with_slash = n > 0 && path.get_char(n - 1) == '/';
        if ends_with_slash {
            out.append("cache.db");
        } else {
            out.append("/cache.db");
        }
    }
    proof {
        reveal_strlit("cache.db");
        reveal_strlit("/cache.db");
    }
    out
}

/// The time-to-live of a write in whole seconds (`Duration::as_secs`).
pub open spec fn spec_ttl_secs(ttl: Option<Duration>) -> Option<u64> {
    match ttl {
        Some(d) => Some((duration_nanos(d) / (NANOS_PER_SEC as u128)) as u64),
        None => None,
    }
}

/// The time-to-live of a write in whole seconds.
pub fn ttl_secs(ttl: &Option<Duration>) -> (r: Option<u64>)
    ensures
        r == spec_ttl_secs(*ttl),
{
    match ttl {
        Some(d) => {
            let n = duration_as_nanos(d);
            let secs = n / 1_000_000_000u128;
            assert(secs <= u64::MAX) by (nonlinear_arith)
                requires
                    secs == n / 1_000_000_000u128,
                    n <= 18_446_744_073_709_551_615_999_999_999u128,
            ;
            Some(secs as u64)
        },
        None => None,
    }
}

/// What a write asks of the store: the key bytes, the value bytes, and the
/// time-to-live in whole seconds when there is one.
pub struct StoreWrite {
    pub key: Vec<u8>,
    pub value: Vec<u8>,
    pub ttl_secs: Option<u64>,
}

/// The store request for writing `value` under `key` with the time-to-live
/// `ttl`.
pub fn write_request(key: &CacheKey, value: &Vec<u8>, ttl: &Option<Duration>) -> (r: StoreWrite)
    ensures
        r.key@ == bincode_key_bytes(key@.parts, key@.version, key@.prefix),
        r.value@ == value@,
        r.ttl_secs == spec_ttl_secs(*ttl),
{
    StoreWrite { key: encode_key(key), value: value.clone(), ttl_secs: ttl_secs(ttl) }
}

/// What opening a store asks of FeOxDB.
pub struct StoreSettings {
    pub enable_ttl: bool,
    pub device_path: Option<String>,
    pub file_size: Option<u64>,
    pub max_memory: Option<usize>,
}

/// Hands `settings` to a fresh store builder, one builder call for each
/// setting that is there, and opens the store.
fn open_store(settings: &StoreSettings) -> (r: Result<feoxdb::FeoxStore, feoxdb::FeoxError>) {
    let mut builder = store_builder();
    builder = store_enable_ttl(builder, settings.enable_ttl);
    match &settings.device_path {
        Some(p) => {
            builder = store_device_path(builder, p.clone());
        },
        None => {},
    }
    match settings.file_size {
        Some(size) => {
            builder = store_file_size(builder, size);
        },
        None => {},
    }
    match settings.max_memory {
        Some(limit) => {
            builder = store_max_memory(builder, limit);
        },
        None => {},
    }
    store_build(builder)
}

/// The backend's answer to a read, from the store's answer.
pub open spec fn spec_read_outcome(got: Result<Vec<u8>, StoreFailure>) -> Result<
    Option<Seq<u8>>,
    (),
> {
    match got {
        Ok(v) => Ok(Some(v@)),
        Err(StoreFailure::KeyNotFound) => Ok(None),
        Err(StoreFailure::Other(_)) => Err(()),
    }
}

/// The backend's answer to a read: the stored bytes, nothing when the key
/// is absent, the store's error otherwise.
pub fn read_outcome(got: Result<Vec<u8>, StoreFailure>) -> (r: Result<
    Option<Vec<u8>>,
    FeOxDbError,
>)
    ensures
        got matches Ok(v) ==> (r matches Ok(Some(w)) && w@ == v@),
        got matches Err(StoreFailure::KeyNotFound) ==> r matches Ok(None),
        got matches Err(StoreFailure::Other(e)) ==> r == Err::<Option<Vec<u8>>, FeOxDbError>(
            FeOxDbError::FeOxDb(e),
        ),
{
    match got {
        Ok(v) => Ok(Some(v)),
        Err(StoreFailure::KeyNotFound) => Ok(None),
        Err(StoreFailure::Other(e)) => Err(FeOxDbError::FeOxDb(e)),
    }
}

/// The backend's answer to a removal, from the store's answer.
pub fn remove_outcome(got: Result<(), StoreFailure>) -> (r: Result<DeleteStatus, FeOxDbError>)
    ensures
        got is Ok ==> r == Ok::<DeleteStatus, FeOxDbError>(DeleteStatus::Deleted(1)),
        got matches Err(StoreFailure::KeyNotFound) ==> r matches Ok(DeleteStatus::Missing),
        got matches Err(StoreFailure::Other(e)) ==> r == Err::<DeleteStatus, FeOxDbError>(
            FeOxDbError::FeOxDb(e),
        ),
{
    match got {
        Ok(()) => Ok(DeleteStatus::Deleted(1)),
        Err(StoreFailure::KeyNotFound) => Ok(DeleteStatus::Missing),
        Err(StoreFailure::Other(e)) => Err(FeOxDbError::FeOxDb(e)),
    }
}

/// The backend's answer to a write, from the store's answer.
pub fn write_outcome(got: Result<bool, feoxdb::FeoxError>) -> (r: Result<(), FeOxDbError>)
    ensures
        got is Ok ==> r is Ok,
        got matches Err(e) ==> r == Err::<(), FeOxDbError>(FeOxDbError::FeOxDb(e)),
{
    match got {
        Ok(_) => Ok(()),
        Err(e) => Err(FeOxDbError::FeOxDb(e)),
    }
}

/// Whether an entry read back at `now` has expired: its expiry lies
/// strictly before `now`.
pub open spec fn expired_at(expire: Option<Timestamp>, now: Timestamp) -> bool {
    match expire {
        Some(e) => e.nanos < now.nanos,
        None => false,
    }
}

/// An entry read back at `now`: dropped once its expiry lies before `now`.
pub fn unexpired_at(value: CacheValue<Raw>, now: Timestamp) -> (r: Option<CacheValue<Raw>>)
    ensures
        expired_at(value.spec_expire(), now) ==> r is None,
        !expired_at(value.spec_expire(), now) ==> r == Some(value),
{
    match value.expire() {
        Some(e) => {
            if e.nanos < now.nanos {
                None
            } else {
                Some(value)
            }
        },
        None => Some(value),
    }
}

/// The key bytes under which an entry for `key` is stored.
pub fn encode_key(key: &CacheKey) -> (r: Vec<u8>)
    ensures
        r@ == bincode_key_bytes(key@.parts, key@.version, key@.prefix),
{
    let parts = key.parts();
    let mut pairs: Vec<(String, Option<String>)> = Vec::new();
    let mut i: usize = 0;
    while i < parts.len()
        invariant
            i <= parts.len(),
            crate::key::parts_view(parts@) == key@.parts,
            string_pairs_view(pairs@) == key@.parts.take(i as int),
        decreases parts.len() - i,
    {
        let k = parts[i].key().to_owned();
        let v = match parts[i].value() {
            Some(s) => Some(s.to_owned()),
            None => None,
        };
        let ghost before = pairs@;
        pairs.push((k, v));
        proof {
            assert(key@.parts.take(i + 1) =~= key@.parts.take(i as int).push(key@.parts[i as int]));
            assert(string_pairs_view(pairs@) =~= string_pairs_view(before).push(
                string_pairs_view(pairs@)[i as int],
            ));
        }
        i = i + 1;
    }
    proof {
        assert(key@.parts.take(i as int) =~= key@.parts);
    }
    let fields = (pairs, key.version(), key.prefix().to_owned());
    match encode_key_fields(&fields) {
        Ok(b) => b,
        Err(_) => {
            assert(false);
            Vec::new()
        },
    }
}

/// Disk-based cache backend on FeOxDB. Clones share one store.
#[derive(Clone)]
pub struct FeOxDbBackend {
    store: Arc<feoxdb::FeoxStore>,
    label: BackendLabel,
}

/// Builder for [`FeOxDbBackend`].
pub struct FeOxDbBackendBuilder {
    path: Option<String>,
    max_file_size: Option<u64>,
    max_memory: Option<usize>,
    label: BackendLabel,
}

impl FeOxDbBackendBuilder {
    /// The path of a persistent store, if one was set.
    pub closed spec fn spec_path(self) -> Option<Seq<char>> {
        match self.path {
            Some(p) => Some(p@),
            None => None,
        }
    }

    /// The disk space limit, if one was set.
    pub closed spec fn spec_max_file_size(self) -> Option<u64> {
        self.max_file_size
    }

    /// The memory limit, if one was set.
    pub closed spec fn spec_max_memory(self) -> Option<usize> {
        self.max_memory
    }

    /// The label of the backend to build.
    pub closed spec fn spec_label(self) -> Seq<char> {
        self.label@
    }

    /// A builder for an in-memory store labelled `feoxdb`, with no limits set.
    pub fn new() -> (r: Self)
        ensures
            r.spec_path() is None,
            r.spec_max_file_size() is None,
            r.spec_max_memory() is None,
            r.spec_label() == "feoxdb"@,
    {
        FeOxDbBackendBuilder {
            path: None,
            max_file_size: None,
            max_memory: None,
            label: BackendLabel::new("feoxdb"),
        }
    }

    /// Enables persistent storage at the given path.
    pub fn path(self, path: &str) -> (r: Self)
        ensures
            r.spec_path() == Some(path@),
            r.spec_max_file_size() == self.spec_max_file_size(),
            r.spec_max_memory() == self.spec_max_memory(),
            r.spec_label() == self.spec_label(),
    {
        FeOxDbBackendBuilder { path: Some(path.to_owned()), ..self }
    }

    /// Caps the disk space of a persistent store.
    pub fn max_file_size(self, bytes: u64) -> (r: Self)
        ensures
            r.spec_path() == self.spec_path(),
            r.spec_max_file_size() == Some(bytes),
            r.spec_max_memory() == self.spec_max_memory(),
            r.spec_label() == self.spec_label(),
    {
        FeOxDbBackendBuilder { max_file_size: Some(bytes), ..self }
    }

    /// Limits the memory the store uses.
    pub fn max_memory(self, bytes: usize) -> (r: Self)
        ensures
            r.spec_path() == self.spec_path(),
            r.spec_max_file_size() == self.spec_max_file_size(),
            r.spec_max_memory() == Some(bytes),
            r.spec_label() == self.spec_label(),
    {
        FeOxDbBackendBuilder { max_memory: Some(bytes), ..self }
    }

    /// Names the backend in multi-tier setups and metrics.
    pub fn label(self, label: BackendLabel) -> (r: Self)
        ensures
            r.spec_path() == self.spec_path(),
            r.spec_max_file_size() == self.spec_max_file_size(),
            r.spec_max_memory() == self.spec_max_memory(),
            r.spec_label() == label@,
    {
        FeOxDbBackendBuilder { label, ..self }
    }

    /// What opening the store asks of FeOxDB: TTL support always; the device
    /// path of a persistent store, which is `cache.db` inside the configured
    /// path when `path_is_dir` tells that it names an existing directory; and
    /// the limits that were set.
    pub fn store_settings(&self, path_is_dir: bool) -> (r: StoreSettings)
        ensures
            r.enable_ttl,
            match self.spec_path() {
                Some(p) => r.device_path matches Some(d) && d@ == spec_device_path(p, path_is_dir),
                None => r.device_path is None,
            },
            r.file_size == self.spec_max_file_size(),
            r.max_memory == self.spec_max_memory(),
    {
        let device = match &self.path {
            Some(p) => Some(device_path(p.as_str(), path_is_dir)),
            None => None,
        };
        StoreSettings {
            enable_ttl: true,
            device_path: device,
            file_size: self.max_file_size,
            max_memory: self.max_memory,
        }
    }

    /// Opens the store with the settings of [`Self::store_settings`]; see
    /// there for `path_is_dir`. Opening can fail on the file system, so only
    /// the label of a built backend is stated.
    pub fn build(self, path_is_dir: bool) -> (r: Result<FeOxDbBackend, FeOxDbError>)
        ensures
            r matches Ok(b) ==> b.spec_label() == self.spec_label(),
            r matches Err(e) ==> e is FeOxDb,
    {
        let settings = self.store_settings(path_is_dir);
        match open_store(&settings) {
            Ok(store) => Ok(FeOxDbBackend { store: Arc::new(store), label: self.label }),
            Err(e) => Err(FeOxDbError::FeOxDb(e)),
        }
    }
}

impl Default for FeOxDbBackendBuilder {
    fn default() -> (r: Self)
        ensures
            r.spec_path() is None,
            r.spec_max_file_size() is None,
            r.spec_max_memory() is None,
            r.spec_label() == "feoxdb"@,
    {
        FeOxDbBackendBuilder::new()
    }
}

impl FeOxDbBackend {
    /// The backend's label.
    pub closed spec fn spec_label(self) -> Seq<char> {
        self.label@
    }

    /// Starts building a new backend.
    pub fn builder() -> (r: FeOxDbBackendBuilder)
        ensures
            r.spec_path() is None,
            r.spec_max_file_size() is None,
            r.spec_max_memory() is None,
            r.spec_label() == "feoxdb"@,
    {
        FeOxDbBackendBuilder::new()
    }

    /// An in-memory backend labelled `feoxdb`; its data is lost when dropped.
    pub fn in_memory() -> (r: Result<FeOxDbBackend, FeOxDbError>)
        ensures
            r matches Ok(b) ==> b.spec_label() == "feoxdb"@,
            r matches Err(e) ==> e is FeOxDb,
    {
        FeOxDbBackendBuilder::new().build(false)
    }

    /// The backend's label.
    pub fn label(&self) -> (r: BackendLabel)
        ensures
            r@ == self.spec_label(),
    {
        BackendLabel::new(self.label.as_str())
    }

    /// Forces pending writes to disk; a no-op in memory-only mode.
    pub fn flush(&self) {
        let _ = store_flush(&self.store);
    }

    /// The bytes stored under `key`: nothing when the key is absent. What the
    /// store holds is not modelled, so a found entry is not stated; a failure
    /// is the store's.
    pub fn read_bytes(&self, key: &CacheKey) -> (r: Result<Option<Vec<u8>>, FeOxDbError>)
        ensures
            r matches Err(e) ==> e is FeOxDb,
    {
        let key_bytes = encode_key(key);
        read_outcome(store_get(&self.store, &key_bytes))
    }

    /// Sends a write to the store: `insert_with_ttl` when the request
    /// carries a time-to-live, `insert` otherwise. Whether the store accepts
    /// it depends on its state; an empty value is always refused.
    pub fn send_write(&self, req: &StoreWrite) -> (r: Result<(), FeOxDbError>)
        ensures
            req.value@.len() == 0 ==> r is Err,
            r matches Err(e) ==> e is FeOxDb,
    {
        let got = match req.ttl_secs {
            Some(secs) => store_insert_with_ttl(&self.store, &req.key, &req.value, secs),
            None => store_insert(&self.store, &req.key, &req.value),
        };
        write_outcome(got)
    }

    /// Stores `value_bytes` under `key`, with the time-to-live `ttl` in
    /// whole seconds when there is one (the request of [`write_request`]).
    /// Whether the store accepts the write depends on its state; an empty
    /// value is always refused.
    pub fn write_bytes(&self, key: &CacheKey, value_bytes: &Vec<u8>, ttl: Option<Duration>) -> (r:
        Result<(), FeOxDbError>)
        ensures
            value_bytes@.len() == 0 ==> r is Err,
            r matches Err(e) ==> e is FeOxDb,
    {
        let req = write_request(key, value_bytes, &ttl);
        self.send_write(&req)
    }

    /// Removes the entry under `key`: `Deleted(1)` when there was one,
    /// `Missing` when there was none. Which of them holds depends on the
    /// store.
    pub fn remove(&self, key: &CacheKey) -> (r: Result<DeleteStatus, FeOxDbError>)
        ensures
            r matches Ok(DeleteStatus::Deleted(n)) ==> n == 1,
            r matches Err(e) ==> e is FeOxDb,
    {
        let key_bytes = encode_key(key);
        remove_outcome(store_delete(&self.store, &key_bytes))
    }
}

} // verus!
