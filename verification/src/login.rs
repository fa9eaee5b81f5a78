//! The login flow: from the IP address of a request to the redirect that
//! answers it. The flow decides; the caller reads the cache, asks the
//! inventory service for the ticket, and reports what came back.

use vstd::prelude::*;
use crate::api_error::{device_not_found, internal_server_error, ApiError, ApiErrorView};
use crate::cache::CacheFailure;
use crate::device::{found_in_cache, CacheableDevice};
use crate::text::{decimal_string, decimal_text};
use crate::uisp::{login_request, InventoryRequest, InventoryRequestView, UISPView, UISP};

verus! {

/// The ticket that the inventory service issues for one login: it is used
/// once, and never cached.
#[derive(Debug, Clone)]
pub struct UISPRedirectResult {
    pub ticketid: String,
    pub https_port: u16,
}

/// What a `UISPRedirectResult` holds, as plain values.
pub struct UISPRedirectResultView {
    pub ticketid: Seq<char>,
    pub https_port: u16,
}

impl View for UISPRedirectResult {
    type V = UISPRedirectResultView;

    open spec fn view(&self) -> UISPRedirectResultView {
        UISPRedirectResultView { ticketid: self.ticketid@, https_port: self.https_port }
    }
}

/// The URL on the device that logs the caller in with `ticket`.
pub open spec fn authenticated_url(ip_address: Seq<char>, ticket: UISPRedirectResultView) -> Seq<
    char,
> {
    "https://"@ + ip_address + ":"@ + decimal_text(ticket.https_port as nat)
        + "/ticket.cgi?ticketid="@ + ticket.ticketid
}

/// Where a login stands.
#[derive(Debug, Clone)]
pub enum LoginState {
    /// The cache was asked for the device at `ip_address`.
    AwaitingDevice { ip_address: String },
    /// The inventory service was asked for a ticket for the device at
    /// `ip_address`.
    AwaitingTicket { ip_address: String },
    /// The request was answered.
    Closed,
}

/// What the caller reports to a login.
pub enum LoginEvent {
    /// What the cache replied to the read, or why the read failed.
    CacheReply(Result<Option<Vec<u8>>, CacheFailure>),
    /// The ticket of the inventory service, or why none came.
    TicketReply(Result<UISPRedirectResult, ApiError>),
}

/// What the caller of a login is to do next.
#[derive(Debug, Clone)]
pub enum LoginAction {
    /// Read `key` from the cache.
    FindDevice { key: String },
    /// Send the request to the inventory service.
    ExchangeTicket(InventoryRequest),
    /// Answer the request with a redirect to the URL.
    Redirect(String),
    /// Answer the request with the error.
    Fail(ApiError),
}

/// A `LoginState` as plain values.
pub enum LoginStateView {
    AwaitingDevice { ip_address: Seq<char> },
    AwaitingTicket { ip_address: Seq<char> },
    Closed,
}

/// A `LoginAction` as plain values.
pub enum LoginActionView {
    FindDevice { key: Seq<char> },
    ExchangeTicket(InventoryRequestView),
    Redirect(Seq<char>),
    Fail(ApiErrorView),
}

impl View for LoginState {
    type V = LoginStateView;

    open spec fn view(&self) -> LoginStateView {
        match *self {
            LoginState::AwaitingDevice { ip_address } => LoginStateView::AwaitingDevice {
                ip_address: ip_address@,
            },
            LoginState::AwaitingTicket { ip_address } => LoginStateView::AwaitingTicket {
                ip_address: ip_address@,
            },
            LoginState::Closed => LoginStateView::Closed,
        }
    }
}

impl View for LoginAction {
    type V = LoginActionView;

    open spec fn view(&self) -> LoginActionView {
        match *self {
            LoginAction::FindDevice { key } => LoginActionView::FindDevice { key: key@ },
            LoginAction::ExchangeTicket(request) => LoginActionView::ExchangeTicket(request@),
            LoginAction::Redirect(url) => LoginActionView::Redirect(url@),
            LoginAction::Fail(error) => LoginActionView::Fail(error@),
        }
    }
}

/// The step that a login takes on an event.
///
/// The reply of the cache leads to the ticket exchange where it holds a
/// device; where it holds none, cannot be decoded, or the read failed, the
/// login fails with "device not found". The reply of the inventory service
/// leads to the redirect where it is a ticket, and to the same "device not
/// found" where it is not: the caller is not told which of the two stores
/// did not know the device. An event that the login was not waiting for
/// fails it with an internal error.
pub open spec fn login_step_spec(uisp: UISPView, state: LoginStateView, event: LoginEvent) -> (
    LoginStateView,
    LoginActionView,
) {
    match state {
        LoginStateView::AwaitingDevice { ip_address } => match event {
            LoginEvent::CacheReply(reply) => match found_in_cache(ip_address, reply) {
                Ok(Some(device)) => (
                    LoginStateView::AwaitingTicket { ip_address },
                    LoginActionView::ExchangeTicket(login_request(uisp, device.device_id)),
                ),
                _ => (
                    LoginStateView::Closed,
                    LoginActionView::Fail(device_not_found(ip_address)),
                ),
            },
            LoginEvent::TicketReply(_) => (
                LoginStateView::Closed,
                LoginActionView::Fail(internal_server_error()),
            ),
        },
        LoginStateView::AwaitingTicket { ip_address } => match event {
            LoginEvent::TicketReply(Ok(ticket)) => (
                LoginStateView::Closed,
                LoginActionView::Redirect(authenticated_url(ip_address, ticket@)),
            ),
            LoginEvent::TicketReply(Err(_)) => (
                LoginStateView::Closed,
                LoginActionView::Fail(device_not_found(ip_address)),
            ),
            LoginEvent::CacheReply(_) => (
                LoginStateView::Closed,
                LoginActionView::Fail(internal_server_error()),
            ),
        },
        LoginStateView::Closed => (
            LoginStateView::Closed,
            LoginActionView::Fail(internal_server_error()),
        ),
    }
}

/// Builds the URL on the device that logs the caller in with `ticket`:
/// `https://{ip}:{port}/ticket.cgi?ticketid={ticket}`.
pub fn redirect_target(ip_address: &str, ticket: &UISPRedirectResult) -> (url: String)
    ensures
        url@ == authenticated_url(ip_address@, ticket@),
{
    let mut url = String::from_str("https://");
    url.append(ip_address);
    url.append(":");
    url.append(decimal_string(ticket.https_port).as_str());
    url.append("/ticket.cgi?ticketid=");
    url.append(ticket.ticketid.as_str());
    url
}

/// Begins the login of a request for `ip_address`: the cache is to be read
/// under that address.
pub fn login(ip_address: String) -> (begun: (LoginState, LoginAction))
    ensures
        begun.0@ == (LoginStateView::AwaitingDevice { ip_address: ip_address@ }),
        begun.1@ == (LoginActionView::FindDevice { key: ip_address@ }),
{
    let key = ip_address.clone();
    (LoginState::AwaitingDevice { ip_address }, LoginAction::FindDevice { key })
}

/// Takes the login one step further on `event`, and says what to do next.
/// The cache is never written on this path.
pub fn login_step(uisp: &UISP, state: LoginState, event: LoginEvent) -> (next: (
    LoginState,
    LoginAction,
))
    ensures
        (next.0@, next.1@) == login_step_spec(uisp@, state@, event),
{
    match state {
        LoginState::AwaitingDevice { ip_address } => match event {
            LoginEvent::CacheReply(reply) => match CacheableDevice::find_in_cache(
                ip_address.clone(),
                reply,
            ) {
                Ok(Some(device)) => {
                    let request = uisp.login_request(device.device_id().clone());
                    (LoginState::AwaitingTicket { ip_address }, LoginAction::ExchangeTicket(request))
                },
                _ => (
                    LoginState::Closed,
                    LoginAction::Fail(ApiError::uisp_device_not_found(ip_address)),
                ),
            },
            LoginEvent::TicketReply(_) => (
                LoginState::Closed,
                LoginAction::Fail(ApiError::internal_error()),
            ),
        },
        LoginState::AwaitingTicket { ip_address } => match event {
            LoginEvent::TicketReply(Ok(ticket)) => (
                LoginState::Closed,
                LoginAction::Redirect(redirect_target(ip_address.as_str(), &ticket)),
            ),
            LoginEvent::TicketReply(Err(_)) => (
                LoginState::Closed,
                LoginAction::Fail(ApiError::uisp_device_not_found(ip_address)),
            ),
            LoginEvent::CacheReply(_) => (
                LoginState::Closed,
                LoginAction::Fail(ApiError::internal_error()),
            ),
        },
        LoginState::Closed => (LoginState::Closed, LoginAction::Fail(ApiError::internal_error())),
    }
}

} // verus!
