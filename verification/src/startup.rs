//! What the server needs to know before it starts: its public base URL
//! and the address it listens on.

use vstd::prelude::*;
use crate::text::decimal;

verus! {

/// The base URL under which the application is reachable; confirmation
/// links sent to subscribers start with it.
pub struct ApplicationBaseUrl(pub String);

/// The `host:port` address that the server binds, as built from the
/// application settings.
pub fn server_address(host: &str, port: u16) -> (address: String)
    ensures
        address@ == host@ + seq![':'] + decimal(port as nat),
{
    let mut address = String::from_str(host);
    address.push(':');
    crate::text::push_decimal(&mut address, port);
    address
}

} // verus!
