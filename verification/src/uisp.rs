//! The inventory service, as far as the gateway talks to it: where the
//! device list and the redirect tickets are, and how a request is
//! authenticated. Sending the requests is left to the caller.

use vstd::prelude::*;

verus! {

/// Where the inventory service is and the token that opens it.
pub struct UISP {
    base_url: String,
    api_token: String,
}

/// What a `UISP` holds, as plain values.
pub struct UISPView {
    pub base_url: Seq<char>,
    pub api_token: Seq<char>,
}

impl View for UISP {
    type V = UISPView;

    closed spec fn view(&self) -> UISPView {
        UISPView { base_url: self.base_url@, api_token: self.api_token@ }
    }
}

/// The two kinds of request that the inventory service is sent.
#[derive(Debug, Clone, Copy, PartialEq, Eq, Structural)]
pub enum HttpMethod {
    Get,
    Post,
}

/// A request to the inventory service, ready to be sent: every request
/// carries the token in one header.
#[derive(Debug, Clone)]
pub struct InventoryRequest {
    pub method: HttpMethod,
    pub url: String,
    pub header_name: String,
    pub header_value: String,
}

/// What an `InventoryRequest` holds, as plain values.
pub struct InventoryRequestView {
    pub method: HttpMethod,
    pub url: Seq<char>,
    pub header_name: Seq<char>,
    pub header_value: Seq<char>,
}

impl View for InventoryRequest {
    type V = InventoryRequestView;

    open spec fn view(&self) -> InventoryRequestView {
        InventoryRequestView {
            method: self.method,
            url: self.url@,
            header_name: self.header_name@,
            header_value: self.header_value@,
        }
    }
}

/// The URL of the device collection.
pub open spec fn device_list_url(base_url: Seq<char>) -> Seq<char> {
    base_url + "/devices"@
}

/// The URL that exchanges a device identifier for a redirect ticket.
pub open spec fn redirect_url(base_url: Seq<char>, device_id: Seq<char>) -> Seq<char> {
    base_url + "/devices/"@ + device_id + "/iplink/redirect"@
}

/// The request that lists all devices.
pub open spec fn device_list_request(uisp: UISPView) -> InventoryRequestView {
    InventoryRequestView {
        method: HttpMethod::Get,
        url: device_list_url(uisp.base_url),
        header_name: "x-auth-token"@,
        header_value: uisp.api_token,
    }
}

/// The request that asks for a redirect ticket for one device.
pub open spec fn login_request(uisp: UISPView, device_id: Seq<char>) -> InventoryRequestView {
    InventoryRequestView {
        method: HttpMethod::Post,
        url: redirect_url(uisp.base_url, device_id),
        header_name: "x-auth-token"@,
        header_value: uisp.api_token,
    }
}

impl UISP {
    pub fn new(base_url: String, api_token: String) -> (uisp: UISP)
        ensures
            uisp@ == (UISPView { base_url: base_url@, api_token: api_token@ }),
    {
        UISP { base_url, api_token }
    }

    pub fn get_redirect_url(&self, device_id: String) -> (url: String)
        ensures
            url@ == redirect_url(self@.base_url, device_id@),
    {
        let mut url = self.base_url.clone();
        url.append("/devices/");
        url.append(device_id.as_str());
        url.append("/iplink/redirect");
        url
    }

    pub fn get_base_url(&self) -> (base_url: &String)
        ensures
            base_url@ == self@.base_url,
    {
        &self.base_url
    }

    pub fn get_api_token(&self) -> (api_token: &String)
        ensures
            api_token@ == self@.api_token,
    {
        &self.api_token
    }

    pub fn get_device_list_url(&self) -> (url: String)
        ensures
            url@ == device_list_url(self@.base_url),
    {
        let mut url = self.base_url.clone();
        url.append("/devices");
        url
    }

    /// The request that lists all devices: a GET of the device collection.
    pub fn device_list_request(&self) -> (request: InventoryRequest)
        ensures
            request@ == device_list_request(self@),
    {
        InventoryRequest {
            method: HttpMethod::Get,
            url: self.get_device_list_url(),
            header_name: String::from_str("x-auth-token"),
            header_value: self.api_token.clone(),
        }
    }

    /// The request that exchanges `device_id` for a redirect ticket: a POST
    /// to the device's redirect endpoint.
    pub fn login_request(&self, device_id: String) -> (request: InventoryRequest)
        ensures
            request@ == login_request(self@, device_id@),
    {
        InventoryRequest {
            method: HttpMethod::Post,
            url: self.get_redirect_url(device_id),
            header_name: String::from_str("x-auth-token"),
            header_value: self.api_token.clone(),
        }
    }
}

} // verus!
