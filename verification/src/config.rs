//! The persisted pairing record: the address, token and friendly name that
//! seed a future session. Writing it to disk happens outside this library.

use vstd::prelude::*;
use crate::Ipv4Address;

verus! {

/// One paired device's configuration record.
pub struct ConfigFile {
    pub ip_addr: Ipv4Address,
    pub auth_token: String,
    pub friendly_name: String,
}

impl ConfigFile {
    /// Builds the record for one paired device.
    pub fn new(ip_addr: Ipv4Address, token: String, name: String) -> (c: ConfigFile)
        ensures
            c.ip_addr == ip_addr,
            c.auth_token == token,
            c.friendly_name == name,
    {
        ConfigFile { ip_addr, auth_token: token, friendly_name: name }
    }
}

} // verus!
