//! The device cache, seen from the gateway: which entry a device is stored
//! under, what a failed command means, and what a sequence of writes leaves
//! in the store. The store itself is the caller's.

use vstd::prelude::*;
use vstd::utf8::encode_utf8;
use crate::api_error::{cache_command_failed, ApiError, ApiErrorView};
use crate::device::{cacheable, CacheableDevice, UISPDevice, UISPDeviceView};

verus! {

/// One key and its value, as the store is asked to hold them.
#[derive(Debug, Clone)]
pub struct CacheEntry {
    pub key: String,
    pub value: String,
}

/// What a `CacheEntry` holds, as plain values.
pub struct CacheEntryView {
    pub key: Seq<char>,
    pub value: Seq<char>,
}

impl View for CacheEntry {
    type V = CacheEntryView;

    open spec fn view(&self) -> CacheEntryView {
        CacheEntryView { key: self.key@, value: self.value@ }
    }
}

/// Why a cache command did not succeed, with the backend's own words.
#[derive(Debug, Clone)]
pub enum CacheFailure {
    /// No connection to the backend could be had.
    Unavailable(String),
    /// The backend was reached and the command failed.
    Rejected(String),
}

/// The error for a backend to which no connection could be had: status 500.
pub open spec fn connection_failed(detail: Seq<char>) -> ApiErrorView {
    ApiErrorView { status_code: 500, message: "Failed getting redis connection: "@ + detail }
}

/// The error for a write that the backend did not take: status 500.
pub open spec fn write_failed() -> ApiErrorView {
    ApiErrorView { status_code: 500, message: "Unable to cache device in Redis"@ }
}

/// The error that a failed read is reported as.
pub open spec fn read_failure_error(failure: CacheFailure) -> ApiErrorView {
    match failure {
        CacheFailure::Unavailable(detail) => connection_failed(detail@),
        CacheFailure::Rejected(detail) => cache_command_failed(detail@),
    }
}

/// The error that a failed write is reported as.
pub open spec fn write_failure_error(failure: CacheFailure) -> ApiErrorView {
    match failure {
        CacheFailure::Unavailable(detail) => connection_failed(detail@),
        CacheFailure::Rejected(_) => write_failed(),
    }
}

/// No connection to the backend could be had; `detail` says why.
pub fn connection_error(detail: &str) -> (error: ApiError)
    ensures
        error@ == connection_failed(detail@),
{
    let mut message = String::from_str("Failed getting redis connection: ");
    message.append(detail);
    ApiError::new(500, message)
}

/// The error for a read that failed.
pub fn read_error(failure: CacheFailure) -> (error: ApiError)
    ensures
        error@ == read_failure_error(failure),
{
    match failure {
        CacheFailure::Unavailable(detail) => connection_error(detail.as_str()),
        CacheFailure::Rejected(detail) => ApiError::redis_error(detail.as_str()),
    }
}

/// The error for a write that failed.
pub fn write_error(failure: CacheFailure) -> (error: ApiError)
    ensures
        error@ == write_failure_error(failure),
{
    match failure {
        CacheFailure::Unavailable(detail) => connection_error(detail.as_str()),
        CacheFailure::Rejected(_) => ApiError::new(
            500,
            String::from_str("Unable to cache device in Redis"),
        ),
    }
}

// ---------------------------------------------------------------------------
// The store as a map from keys to the bytes held under them.

/// The store after one write: the entry's value, in UTF-8, replaces whatever
/// was held under its key; nothing else changes.
pub open spec fn stored(cache: Map<Seq<char>, Seq<u8>>, entry: CacheEntryView) -> Map<
    Seq<char>,
    Seq<u8>,
> {
    cache.insert(entry.key, encode_utf8(entry.value))
}

/// What a read of `key` finds.
pub open spec fn looked_up(cache: Map<Seq<char>, Seq<u8>>, key: Seq<char>) -> Option<Seq<u8>> {
    if cache.contains_key(key) {
        Some(cache[key])
    } else {
        None
    }
}

/// The store after a sequence of writes, made in order.
pub open spec fn stored_all(cache: Map<Seq<char>, Seq<u8>>, entries: Seq<CacheEntryView>) -> Map<
    Seq<char>,
    Seq<u8>,
>
    decreases entries.len(),
{
    if entries.len() == 0 {
        cache
    } else {
        stored(stored_all(cache, entries.drop_last()), entries.last())
    }
}

/// The value that the last write to `key` among `entries` gave it.
pub open spec fn last_written(entries: Seq<CacheEntryView>, key: Seq<char>) -> Option<Seq<u8>>
    decreases entries.len(),
{
    if entries.len() == 0 {
        None
    } else if entries.last().key == key {
        Some(encode_utf8(entries.last().value))
    } else {
        last_written(entries.drop_last(), key)
    }
}

/// After a sequence of writes a key holds what was last written to it, or,
/// if nothing was, what it held before.
pub proof fn lemma_stored_all_last_write_wins(
    cache: Map<Seq<char>, Seq<u8>>,
    entries: Seq<CacheEntryView>,
    key: Seq<char>,
)
    ensures
        looked_up(stored_all(cache, entries), key) == match last_written(entries, key) {
            Some(bytes) => Some(bytes),
            None => looked_up(cache, key),
        },
    decreases entries.len(),
{
    if entries.len() > 0 {
        lemma_stored_all_last_write_wins(cache, entries.drop_last(), key);
    }
}

/// Writing a sequence of entries is writing its first entry and then the
/// others: a run that makes its writes one by one ends where `stored_all`
/// says.
pub proof fn lemma_stored_all_first_then_rest(
    cache: Map<Seq<char>, Seq<u8>>,
    entries: Seq<CacheEntryView>,
)
    requires
        entries.len() > 0,
    ensures
        stored_all(cache, entries) == stored_all(stored(cache, entries[0]), entries.drop_first()),
    decreases entries.len(),
{
    if entries.len() == 1 {
        assert(entries.drop_last() =~= Seq::<CacheEntryView>::empty());
        assert(entries.drop_first() =~= Seq::<CacheEntryView>::empty());
        assert(stored_all(cache, entries.drop_last()) == cache);
    } else {
        lemma_stored_all_first_then_rest(cache, entries.drop_last());
        assert(entries.drop_last().drop_first() =~= entries.drop_first().drop_last());
        assert(entries.drop_last()[0] == entries[0]);
        assert(entries.drop_first().last() == entries.last());
    }
}

/// Writing the same entries a second time leaves the store as the first
/// time left it.
pub proof fn lemma_stored_all_idempotent(
    cache: Map<Seq<char>, Seq<u8>>,
    entries: Seq<CacheEntryView>,
)
    ensures
        stored_all(stored_all(cache, entries), entries) == stored_all(cache, entries),
{
    let once = stored_all(cache, entries);
    let twice = stored_all(once, entries);
    assert forall|key: Seq<char>| looked_up(twice, key) == looked_up(once, key) by {
        lemma_stored_all_last_write_wins(cache, entries, key);
        lemma_stored_all_last_write_wins(once, entries, key);
    }
    assert forall|key: Seq<char>| twice.contains_key(key) == once.contains_key(key) by {
        assert(looked_up(twice, key) == looked_up(once, key));
    }
    assert forall|key: Seq<char>| twice.contains_key(key) implies twice[key] == once[key] by {
        assert(looked_up(twice, key) == looked_up(once, key));
    }
    assert(twice =~= once);
}

/// A write is found again under its key, and changes no other key.
pub proof fn lemma_stored_then_looked_up(
    cache: Map<Seq<char>, Seq<u8>>,
    entry: CacheEntryView,
    key: Seq<char>,
)
    ensures
        looked_up(stored(cache, entry), key) == if key == entry.key {
            Some(encode_utf8(entry.value))
        } else {
            looked_up(cache, key)
        },
{
}

// ---------------------------------------------------------------------------
// The sync job: every device that has an address is written, in the order
// of the device list; a failed write ends the run. A run on `devices` in
// which every write succeeds takes a store `cache` to
// `stored_all(cache, sync_entries(devices))`.

/// The devices of a list, as plain values.
pub open spec fn device_views(devices: Seq<UISPDevice>) -> Seq<UISPDeviceView> {
    devices.map_values(|device: UISPDevice| device@)
}

/// The entries that a sync of `devices` writes, in order: one for each
/// device whose address field holds an address, none for the others.
pub open spec fn sync_entries(devices: Seq<UISPDeviceView>) -> Seq<CacheEntryView>
    decreases devices.len(),
{
    if devices.len() == 0 {
        Seq::empty()
    } else {
        let earlier = sync_entries(devices.drop_last());
        match cacheable(devices.last()) {
            Some(device) => earlier.push(device.entry()),
            None => earlier,
        }
    }
}

/// The entries of `waiting`, last first.
spec fn last_first(waiting: Seq<CacheEntry>) -> Seq<CacheEntryView> {
    Seq::new(waiting.len(), |i: int| waiting[waiting.len() - 1 - i]@)
}

/// A sync that is under way: the writes that are still to be made.
pub struct SyncJob {
    /// The entries still to be written; the last one is the next.
    waiting: Vec<CacheEntry>,
}

/// What the caller of a sync job is to do next.
pub enum SyncStep {
    /// Write `entry` to the store, then hand the outcome to `job`.
    Put { entry: CacheEntry, job: SyncJob },
    /// The run is over: every write was made, or one failed.
    Finished(Result<(), ApiError>),
}

impl SyncJob {
    /// The writes that are still to be made, in order.
    pub closed spec fn pending(&self) -> Seq<CacheEntryView> {
        last_first(self.waiting@)
    }

    /// A job that writes the entries of `devices`.
    pub fn new(devices: Vec<UISPDevice>) -> (job: SyncJob)
        ensures
            job.pending() == sync_entries(device_views(devices@)),
    {
        let ghost all = device_views(devices@);
        let mut devices = devices;
        let mut waiting: Vec<CacheEntry> = Vec::new();
        assert(sync_entries(all) + last_first(waiting@) =~= sync_entries(all));
        while devices.len() > 0
            invariant
                sync_entries(all) == sync_entries(device_views(devices@)) + last_first(waiting@),
            decreases devices.len(),
        {
            let ghost before = device_views(devices@);
            let ghost written = last_first(waiting@);
            let device = devices.pop().unwrap();
            assert(device_views(devices@) =~= before.drop_last());
            assert(device@ == before.last());
            match CacheableDevice::try_from(device) {
                Ok(found) => {
                    waiting.push(found.to_cache());
                    assert(last_first(waiting@) =~= seq![found@.entry()] + written);
                    assert(sync_entries(before.drop_last()).push(found@.entry()) + written
                        =~= sync_entries(before.drop_last()) + (seq![found@.entry()] + written));
                },
                Err(_) => {},
            }
        }
        assert(sync_entries(device_views(devices@)) + last_first(waiting@) =~= last_first(
            waiting@,
        ));
        SyncJob { waiting }
    }

    /// One step of the run. `last_put` is the outcome of the write that the
    /// step before asked for, if it asked for one. After a failed write the
    /// run is over, with that failure as its error; what was written before
    /// stays written. Otherwise the next entry is to be written, or, where
    /// none is left, the run is over and has succeeded.
    pub fn advance(self, last_put: Option<Result<(), CacheFailure>>) -> (step: SyncStep)
        ensures
            match last_put {
                Some(Err(failure)) => step matches SyncStep::Finished(Err(error)) && error@
                    == write_failure_error(failure),
                _ => if self.pending().len() == 0 {
                    step matches SyncStep::Finished(Ok(_))
                } else {
                    step matches SyncStep::Put { entry, job } && entry@ == self.pending()[0]
                        && job.pending() == self.pending().drop_first()
                },
            },
    {
        match last_put {
            Some(Err(failure)) => SyncStep::Finished(Err(write_error(failure))),
            _ => {
                let mut job = self;
                match job.waiting.pop() {
                    Some(entry) => {
                        assert(job.pending() =~= self.pending().drop_first());
                        SyncStep::Put { entry, job }
                    },
                    None => SyncStep::Finished(Ok(())),
                }
            },
        }
    }
}

/// The first step of a run, given what fetching the device list brought.
/// A list that could not be fetched ends the run with the error of the
/// fetch, and nothing is written.
pub fn populate(fetched: Result<Vec<UISPDevice>, ApiError>) -> (step: SyncStep)
    ensures
        match fetched {
            Ok(devices) => {
                let entries = sync_entries(device_views(devices@));
                if entries.len() == 0 {
                    step matches SyncStep::Finished(Ok(_))
                } else {
                    step matches SyncStep::Put { entry, job } && entry@ == entries[0]
                        && job.pending() == entries.drop_first()
                }
            },
            Err(error) => step matches SyncStep::Finished(Err(reported)) && reported@ == error@,
        },
{
    match fetched {
        Ok(devices) => SyncJob::new(devices).advance(None),
        Err(error) => SyncStep::Finished(Err(error)),
    }
}

/// Running the sync a second time on the same device list leaves the store
/// as the first run left it.
pub proof fn lemma_sync_idempotent(cache: Map<Seq<char>, Seq<u8>>, devices: Seq<UISPDeviceView>)
    ensures
        stored_all(stored_all(cache, sync_entries(devices)), sync_entries(devices)) == stored_all(
            cache,
            sync_entries(devices),
        ),
{
    lemma_stored_all_idempotent(cache, sync_entries(devices));
}

/// A device whose address field holds no address adds nothing to what a
/// sync writes; any other device adds its entry after those of the devices
/// before it.
pub proof fn lemma_sync_entries_push(devices: Seq<UISPDeviceView>, device: UISPDeviceView)
    ensures
        sync_entries(devices.push(device)) == match cacheable(device) {
            Some(found) => sync_entries(devices).push(found.entry()),
            None => sync_entries(devices),
        },
{
    assert(devices.push(device).drop_last() =~= devices);
}

} // verus!
