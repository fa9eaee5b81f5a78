//! Device-login gateway core: address normalisation, cache synchronisation
//! and the login redirect flow, free of any I/O.

pub mod api_error;
pub mod cache;
pub mod device;
pub mod ip_address;
pub mod login;
pub mod text;
pub mod uisp;
