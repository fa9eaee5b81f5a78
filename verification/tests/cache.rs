use std::collections::HashMap;

use uisp_login::api_error::ApiError;
use uisp_login::cache::{
    connection_error, populate, read_error, write_error, CacheEntry, CacheFailure, SyncStep,
};
use uisp_login::device::{CacheableDevice, UISPDevice, UISPDeviceIdentification};

/// A store that holds what it is given, in place of the cache backend.
fn put(store: &mut HashMap<String, Vec<u8>>, entry: CacheEntry) {
    store.insert(entry.key, entry.value.into_bytes());
}

fn get(store: &HashMap<String, Vec<u8>>, key: &str) -> Result<Option<Vec<u8>>, CacheFailure> {
    Ok(store.get(key).cloned())
}

fn device(ip_address: Option<&str>, id: &str) -> UISPDevice {
    UISPDevice {
        ip_address: ip_address.map(|text| text.to_string()),
        identification: UISPDeviceIdentification { id: id.to_string() },
    }
}

/// Runs a sync of `devices` against `store`, every write succeeding.
fn sync(store: &mut HashMap<String, Vec<u8>>, devices: Vec<UISPDevice>) -> Result<(), ApiError> {
    let mut step = populate(Ok(devices));
    loop {
        match step {
            SyncStep::Put { entry, job } => {
                put(store, entry);
                step = job.advance(Some(Ok(())));
            }
            SyncStep::Finished(result) => return result,
        }
    }
}

#[test]
fn test_to_cache() -> Result<(), ApiError> {
    let device = CacheableDevice::new("0.0.0.0".to_string(), "123456".to_string());
    let entry = device.to_cache();
    assert_eq!(entry.key, "0.0.0.0");
    assert_eq!(entry.value, "123456");
    Ok(())
}

#[test]
fn test_cache_get() -> Result<(), ApiError> {
    let mut store = HashMap::new();
    let expected = CacheableDevice::new("0.0.0.0".to_string(), "123456".to_string());
    put(&mut store, expected.to_cache());
    let reply = get(&store, expected.ip_address());
    let fetched_device = CacheableDevice::find_in_cache(expected.ip_address().clone(), reply)?;

    assert!(fetched_device.is_some());

    let actual = fetched_device.expect("Failed to fetch device from cache");
    assert_eq!(expected.device_id(), actual.device_id());
    assert_eq!(expected.ip_address(), actual.ip_address());
    Ok(())
}

#[test]
fn test_populate() -> Result<(), ApiError> {
    let mut store = HashMap::new();
    let devices = vec![
        device(Some("10.0.0.5/24"), "dev-1"),
        device(None, "dev-2"),
        device(Some("192.168.1.10"), "dev-42"),
    ];
    sync(&mut store, devices)?;
    assert_eq!(store.len(), 2);
    assert_eq!(store.get("10.0.0.5"), Some(&b"dev-1".to_vec()));
    assert_eq!(store.get("192.168.1.10"), Some(&b"dev-42".to_vec()));
    Ok(())
}

#[test]
fn put_then_get_returns_the_device() {
    let mut store = HashMap::new();
    put(&mut store, CacheableDevice::new("10.0.0.5".to_string(), "dev-1".to_string()).to_cache());
    let found = CacheableDevice::find_in_cache("10.0.0.5".to_string(), get(&store, "10.0.0.5"))
        .expect("a read that succeeded is no error")
        .expect("the key was written");
    assert_eq!(found.ip_address(), "10.0.0.5");
    assert_eq!(found.device_id(), "dev-1");
}

#[test]
fn put_overwrites_what_was_there() {
    let mut store = HashMap::new();
    put(&mut store, CacheableDevice::new("10.0.0.5".to_string(), "dev-1".to_string()).to_cache());
    put(&mut store, CacheableDevice::new("10.0.0.5".to_string(), "dev-2".to_string()).to_cache());
    let found = CacheableDevice::find_in_cache("10.0.0.5".to_string(), get(&store, "10.0.0.5"))
        .expect("a read that succeeded is no error")
        .expect("the key was written");
    assert_eq!(found.device_id(), "dev-2");
    assert_eq!(store.len(), 1);
}

#[test]
fn get_of_a_key_never_written_is_none_and_no_error() {
    let store = HashMap::new();
    let found = CacheableDevice::find_in_cache("10.0.0.5".to_string(), get(&store, "10.0.0.5"));
    assert!(matches!(found, Ok(None)));
}

#[test]
fn undecodable_value_counts_as_a_miss() {
    let reply = Ok(Some(vec![0x64, 0x65, 0x76, 0xff, 0xfe]));
    let found = CacheableDevice::find_in_cache("10.0.0.5".to_string(), reply);
    assert!(matches!(found, Ok(None)));
    let reply = Ok(Some(vec![0xc3]));
    let found = CacheableDevice::find_in_cache("10.0.0.5".to_string(), reply);
    assert!(matches!(found, Ok(None)));
}

#[test]
fn value_is_decoded_as_utf8() {
    let reply = Ok(Some("gerät-7".as_bytes().to_vec()));
    let found = CacheableDevice::find_in_cache("10.0.0.5".to_string(), reply)
        .expect("a read that succeeded is no error")
        .expect("the bytes are UTF-8");
    assert_eq!(found.device_id(), "gerät-7");
    let found = CacheableDevice::find_in_cache("10.0.0.5".to_string(), Ok(Some(Vec::new())))
        .expect("a read that succeeded is no error")
        .expect("no bytes are UTF-8 too");
    assert_eq!(found.device_id(), "");
}

#[test]
fn failed_read_is_a_500() {
    let reply = Err(CacheFailure::Unavailable("timed out".to_string()));
    let error = CacheableDevice::find_in_cache("10.0.0.5".to_string(), reply)
        .expect_err("the read failed");
    assert_eq!(error.status_code, 500);
    assert_eq!(error.message, "Failed getting redis connection: timed out");

    let reply = Err(CacheFailure::Rejected("broken pipe".to_string()));
    let error = CacheableDevice::find_in_cache("10.0.0.5".to_string(), reply)
        .expect_err("the read failed");
    assert_eq!(error.status_code, 500);
    assert_eq!(error.message, "Redis error: broken pipe");
}

#[test]
fn cache_errors_have_their_messages() {
    let error = connection_error("pool is empty");
    assert_eq!(error.status_code, 500);
    assert_eq!(error.message, "Failed getting redis connection: pool is empty");

    let error = read_error(CacheFailure::Rejected("wrong type".to_string()));
    assert_eq!((error.status_code, error.message.as_str()), (500, "Redis error: wrong type"));

    let error = write_error(CacheFailure::Unavailable("pool is empty".to_string()));
    assert_eq!(error.status_code, 500);
    assert_eq!(error.message, "Failed getting redis connection: pool is empty");

    let error = write_error(CacheFailure::Rejected("read only".to_string()));
    assert_eq!(error.status_code, 500);
    assert_eq!(error.message, "Unable to cache device in Redis");
}

#[test]
fn device_with_an_address_is_cacheable() {
    let found = CacheableDevice::try_from(device(Some("10.0.0.5/24"), "dev-1"))
        .expect("the field holds an address");
    assert_eq!(found.ip_address(), "10.0.0.5");
    assert_eq!(found.device_id(), "dev-1");
}

#[test]
fn device_without_an_address_is_not_cacheable() {
    for field in [None, Some(""), Some("unknown")] {
        let error = CacheableDevice::try_from(device(field, "dev-1"))
            .expect_err("the field holds no address");
        assert_eq!(error.status_code, 500);
        assert_eq!(error.message, "UISP Device does not have an IP assignment");
    }
}

#[test]
fn sync_writes_one_entry_for_one_null_and_one_valid_address() {
    let mut store = HashMap::new();
    let devices = vec![device(None, "dev-1"), device(Some("10.0.0.5"), "dev-2")];
    assert!(sync(&mut store, devices).is_ok());
    assert_eq!(store.len(), 1);
    assert_eq!(store.get("10.0.0.5"), Some(&b"dev-2".to_vec()));
}

#[test]
fn sync_twice_leaves_the_same_entries() {
    let devices = vec![
        device(Some("10.0.0.5/24"), "dev-1"),
        device(Some(""), "dev-2"),
        device(Some("10.0.0.6"), "dev-3"),
        device(Some("10.0.0.5"), "dev-4"),
    ];
    let mut store = HashMap::new();
    store.insert("172.16.0.1".to_string(), b"old".to_vec());
    assert!(sync(&mut store, devices.clone()).is_ok());
    let after_first = store.clone();
    assert!(sync(&mut store, devices).is_ok());
    assert_eq!(store, after_first);
    assert_eq!(store.len(), 3);
    assert_eq!(store.get("10.0.0.5"), Some(&b"dev-4".to_vec()));
    assert_eq!(store.get("10.0.0.6"), Some(&b"dev-3".to_vec()));
    assert_eq!(store.get("172.16.0.1"), Some(&b"old".to_vec()));
}

#[test]
fn sync_writes_in_the_order_of_the_list() {
    let devices = vec![
        device(Some("10.0.0.1"), "a"),
        device(None, "b"),
        device(Some("10.0.0.3"), "c"),
    ];
    let mut written = Vec::new();
    let mut step = populate(Ok(devices));
    while let SyncStep::Put { entry, job } = step {
        written.push((entry.key, entry.value));
        step = job.advance(Some(Ok(())));
    }
    assert!(matches!(step, SyncStep::Finished(Ok(()))));
    assert_eq!(
        written,
        vec![
            ("10.0.0.1".to_string(), "a".to_string()),
            ("10.0.0.3".to_string(), "c".to_string()),
        ]
    );
}

#[test]
fn sync_of_nothing_finishes_at_once() {
    assert!(matches!(populate(Ok(Vec::new())), SyncStep::Finished(Ok(()))));
    assert!(matches!(populate(Ok(vec![device(None, "dev-1")])), SyncStep::Finished(Ok(()))));
}

#[test]
fn failed_write_ends_the_sync_and_keeps_what_was_written() {
    let devices = vec![
        device(Some("10.0.0.1"), "a"),
        device(Some("10.0.0.2"), "b"),
        device(Some("10.0.0.3"), "c"),
    ];
    let mut store = HashMap::new();
    let mut step = populate(Ok(devices));
    let mut writes = 0;
    let result = loop {
        match step {
            SyncStep::Put { entry, job } => {
                writes += 1;
                if writes == 2 {
                    let failure = CacheFailure::Rejected("out of memory".to_string());
                    step = job.advance(Some(Err(failure)));
                } else {
                    put(&mut store, entry);
                    step = job.advance(Some(Ok(())));
                }
            }
            SyncStep::Finished(result) => break result,
        }
    };
    let error = result.expect_err("the second write failed");
    assert_eq!(error.status_code, 500);
    assert_eq!(error.message, "Unable to cache device in Redis");
    assert_eq!(writes, 2);
    assert_eq!(store.len(), 1);
    assert_eq!(store.get("10.0.0.1"), Some(&b"a".to_vec()));
}

#[test]
fn failed_fetch_ends_the_sync_with_its_error() {
    let step = populate(Err(ApiError::request_error("connection refused")));
    match step {
        SyncStep::Finished(Err(error)) => {
            assert_eq!(error.status_code, 500);
            assert_eq!(error.message, "Request error: connection refused");
        }
        _ => panic!("the run was to end with the error of the fetch"),
    }
}
