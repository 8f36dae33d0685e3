//! Devices seen on the local network.

use vstd::prelude::*;
use vstd::string::*;

verus! {

/// A device connected to the router.
#[derive(Debug, Clone, PartialEq, Eq)]
pub struct Device {
    pub mac: String,
    pub ip: String,
    pub hostname: Option<String>,
    pub connection_type: String,
}

impl Device {
    pub fn new(mac: &str, ip: &str, hostname: Option<String>, connection_type: &str) -> (r: Device)
        ensures
            r.mac@ == mac@,
            r.ip@ == ip@,
            r.hostname == hostname,
            r.connection_type@ == connection_type@,
    {
        Device {
            mac: String::from_str(mac),
            ip: String::from_str(ip),
            hostname,
            connection_type: String::from_str(connection_type),
        }
    }
}

} // verus!
