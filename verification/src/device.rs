//! Devices as the inventory service lists them, and as the cache holds them.

use vstd::prelude::*;
use vstd::utf8::{decode_utf8, encode_utf8_decode_utf8, encode_utf8_valid_utf8, valid_utf8};
use crate::api_error::{ApiError, ApiErrorView};
use crate::cache::{looked_up, read_error, read_failure_error, stored, CacheEntry, CacheEntryView, CacheFailure};
use crate::ip_address::{field_text, is_quad_text, lemma_normalized_is_quad, normalize_ip_address, normalized_field};

verus! {

/// How the inventory service names a device.
#[derive(Debug, Clone)]
pub struct UISPDeviceIdentification {
    pub id: String,
}

/// A device of the inventory service. Its address field may be absent or
/// empty, and may carry more than the address, such as a CIDR suffix.
#[derive(Debug, Clone)]
pub struct UISPDevice {
    pub ip_address: Option<String>,
    pub identification: UISPDeviceIdentification,
}

/// What a `UISPDevice` holds, as plain values.
pub struct UISPDeviceView {
    pub ip_address: Option<Seq<char>>,
    pub id: Seq<char>,
}

impl View for UISPDevice {
    type V = UISPDeviceView;

    open spec fn view(&self) -> UISPDeviceView {
        UISPDeviceView { ip_address: field_text(self.ip_address), id: self.identification.id@ }
    }
}

/// A device that the cache can hold: the address it is found under, and its
/// identifier.
#[derive(Debug, Clone)]
pub struct CacheableDevice {
    ip_address: String,
    device_id: String,
}

/// What a `CacheableDevice` holds, as plain values.
pub struct CacheableDeviceView {
    pub ip_address: Seq<char>,
    pub device_id: Seq<char>,
}

impl CacheableDeviceView {
    /// The cache entry of the device: its identifier, under its address.
    pub open spec fn entry(self) -> CacheEntryView {
        CacheEntryView { key: self.ip_address, value: self.device_id }
    }
}

impl View for CacheableDevice {
    type V = CacheableDeviceView;

    closed spec fn view(&self) -> CacheableDeviceView {
        CacheableDeviceView { ip_address: self.ip_address@, device_id: self.device_id@ }
    }
}

/// The cacheable form of a device: its normalised address with its
/// identifier, where the address field holds an address at all.
pub open spec fn cacheable(device: UISPDeviceView) -> Option<CacheableDeviceView> {
    match normalized_field(device.ip_address) {
        Some(ip_address) => Some(CacheableDeviceView { ip_address, device_id: device.id }),
        None => None,
    }
}

/// The error for a device whose address field holds no address: status 500.
pub open spec fn no_ip_assignment() -> ApiErrorView {
    ApiErrorView { status_code: 500, message: "UISP Device does not have an IP assignment"@ }
}

/// The device that the bytes held under `ip_address` stand for: none where
/// nothing is held, and none where the bytes are not UTF-8.
pub open spec fn decoded_device(ip_address: Seq<char>, held: Option<Seq<u8>>) -> Option<
    CacheableDeviceView,
> {
    match held {
        Some(bytes) => if valid_utf8(bytes) {
            Some(CacheableDeviceView { ip_address, device_id: decode_utf8(bytes) })
        } else {
            None
        },
        None => None,
    }
}

/// The bytes of a reply, where it holds any.
pub open spec fn held_bytes(held: Option<Vec<u8>>) -> Option<Seq<u8>> {
    match held {
        Some(bytes) => Some(bytes@),
        None => None,
    }
}

/// What a read of `ip_address` amounts to, given the store's reply.
pub open spec fn found_in_cache(
    ip_address: Seq<char>,
    reply: Result<Option<Vec<u8>>, CacheFailure>,
) -> Result<Option<CacheableDeviceView>, ApiErrorView> {
    match reply {
        Ok(held) => Ok(decoded_device(ip_address, held_bytes(held))),
        Err(failure) => Err(read_failure_error(failure)),
    }
}

/// `String::from_utf8` of std: the text that `bytes` encode, if they are
/// UTF-8, and nothing if they are not.
#[verifier::external_body]
fn string_from_utf8(bytes: Vec<u8>) -> (text: Option<String>)
    ensures
        match text {
            Some(text) => valid_utf8(bytes@) && text@ == decode_utf8(bytes@),
            None => !valid_utf8(bytes@),
        },
{
    match String::from_utf8(bytes) {
        Ok(text) => Some(text),
        Err(_) => None,
    }
}

impl CacheableDevice {
    /// True where the address is a dotted quad, as it is for every device
    /// that `try_from` returns.
    pub open spec fn has_normalized_address(&self) -> bool {
        is_quad_text(self@.ip_address)
    }

    pub fn new(ip_address: String, device_id: String) -> (device: CacheableDevice)
        ensures
            device@ == (CacheableDeviceView { ip_address: ip_address@, device_id: device_id@ }),
    {
        CacheableDevice { ip_address, device_id }
    }

    /// The address that the device is cached under.
    pub fn ip_address(&self) -> (ip_address: &String)
        ensures
            ip_address@ == self@.ip_address,
    {
        &self.ip_address
    }

    /// The identifier of the device.
    pub fn device_id(&self) -> (device_id: &String)
        ensures
            device_id@ == self@.device_id,
    {
        &self.device_id
    }

    /// The cacheable form of `value`: its address, normalised, with its
    /// identifier. A device whose address field is absent or holds no dotted
    /// quad has none, which is an error of status 500.
    pub fn try_from(value: UISPDevice) -> (result: Result<CacheableDevice, ApiError>)
        ensures
            match cacheable(value@) {
                Some(device) => result matches Ok(found) && found@ == device
                    && found.has_normalized_address(),
                None => result matches Err(error) && error@ == no_ip_assignment(),
            },
    {
        let UISPDevice { ip_address, identification } = value;
        proof {
            if normalized_field(field_text(ip_address)) is Some {
                lemma_normalized_is_quad(field_text(ip_address)->0);
            }
        }
        match normalize_ip_address(ip_address) {
            Some(ip_address) => Ok(CacheableDevice::new(ip_address, identification.id)),
            None => Err(
                ApiError::new(500, String::from_str("UISP Device does not have an IP assignment")),
            ),
        }
    }

    /// The entry to write to the cache for this device: its identifier,
    /// under its address.
    pub fn to_cache(&self) -> (entry: CacheEntry)
        ensures
            entry@ == self@.entry(),
    {
        CacheEntry { key: self.ip_address.clone(), value: self.device_id.clone() }
    }

    /// Makes of the store's reply to a read of `ip_address` the device that
    /// is cached there. Nothing held under the key is no device and no error;
    /// bytes that are not UTF-8 count as nothing held. A read that failed is
    /// an error of status 500.
    pub fn find_in_cache(ip_address: String, reply: Result<Option<Vec<u8>>, CacheFailure>) -> (result:
        Result<Option<CacheableDevice>, ApiError>)
        ensures
            match found_in_cache(ip_address@, reply) {
                Ok(Some(device)) => result matches Ok(Some(found)) && found@ == device,
                Ok(None) => result matches Ok(None),
                Err(failure) => result matches Err(error) && error@ == failure,
            },
    {
        match reply {
            Ok(Some(bytes)) => match string_from_utf8(bytes) {
                Some(device_id) => Ok(Some(CacheableDevice::new(ip_address, device_id))),
                None => Ok(None),
            },
            Ok(None) => Ok(None),
            Err(failure) => Err(read_error(failure)),
        }
    }
}

/// A device that was written to the cache is found again under its address,
/// as it was written.
pub proof fn lemma_cached_device_is_found(
    cache: Map<Seq<char>, Seq<u8>>,
    device: CacheableDeviceView,
)
    ensures
        decoded_device(
            device.ip_address,
            looked_up(stored(cache, device.entry()), device.ip_address),
        ) == Some(device),
{
    encode_utf8_valid_utf8(device.device_id);
    encode_utf8_decode_utf8(device.device_id);
}

/// Under a key that the cache does not hold, no device is found.
pub proof fn lemma_absent_key_is_no_device(cache: Map<Seq<char>, Seq<u8>>, ip_address: Seq<char>)
    requires
        !cache.contains_key(ip_address),
    ensures
        decoded_device(ip_address, looked_up(cache, ip_address)) is None,
{
}

} // verus!
