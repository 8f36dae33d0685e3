//! The bridge to the OpenWrt ubus server. The server runtime links to the system's ubus
//! libraries, which only OpenWrt (musl) builds have; elsewhere loading the bridge fails.

use vstd::prelude::*;
use vstd::string::*;

verus! {

/// A failure of the ubus bridge.
#[derive(Debug, Clone)]
pub struct BridgeError(pub String);

impl BridgeError {
    /// The message of the failure.
    pub fn message(&self) -> (r: &str)
        ensures
            r@ == self.0@,
    {
        self.0.as_str()
    }
}

/// A handle on the ubus runtime.
#[derive(Debug)]
pub struct Bridge;

impl Bridge {
    /// Loads the ubus runtime. Builds without the OpenWrt libraries cannot serve ubus.
    pub fn load() -> (r: Result<Bridge, BridgeError>)
        ensures
            r matches Err(e) && e.0@ == "the OpenWrt ubus server is only available on musl targets"@,
    {
        Err(BridgeError(String::from_str("the OpenWrt ubus server is only available on musl targets")))
    }
}

} // verus!
