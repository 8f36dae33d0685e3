//! Start-up: which desired configuration the core starts from, and in which life-cycle state.

use vstd::prelude::*;
use vstd::string::*;

use crate::backend::{DiscoveredWifi, RouterBackend};
use crate::errors::{DomainError, ErrorCode, ErrorStage, is_plain_error};
use crate::operation::{Lifecycle, STATE_SCHEMA_VERSION};
use crate::state::{CoreState, DesiredConfig};
use crate::wan::{WanDesired, WanView, default_wan_view};
use crate::wifi::{WifiNetworkConfig, WifiView};

verus! {

/// The configuration the core starts from, its life-cycle state and the error to report.
#[derive(Debug)]
pub struct Startup {
    pub config: DesiredConfig,
    pub lifecycle: Lifecycle,
    pub error: Option<DomainError>,
}

/// What the stored configuration decides at start-up.
#[derive(Debug)]
pub enum StoredConfig {
    /// Start from this configuration.
    Use(Startup),
    /// Nothing is stored: discover the configuration on the router.
    Discover,
}

/// The stored configuration: a current-schema one is used as it is, booting; one of another
/// schema or one that cannot be read leaves the core degraded on an empty configuration; none
/// at all calls for discovery.
pub fn from_stored_config(loaded: Result<Option<DesiredConfig>, DomainError>) -> (r: StoredConfig)
    ensures
        match loaded {
            Ok(Some(c)) => if c.schema_version == STATE_SCHEMA_VERSION {
                r matches StoredConfig::Use(s) && s.config == c && s.lifecycle == Lifecycle::Booting
                    && s.error is None
            } else {
                r matches StoredConfig::Use(s) && s.config.revision == 0 && s.lifecycle == Lifecycle::Degraded
                    && (s.error matches Some(e) && is_plain_error(
                    e,
                    ErrorCode::StateCorrupt,
                    ErrorStage::Bootstrap,
                    "unsupported desired-state schema"@,
                ))
            },
            Ok(None) => r is Discover,
            Err(e) => r matches StoredConfig::Use(s) && s.config.revision == 0 && s.lifecycle == Lifecycle::Degraded
                && s.error == Some(e),
        },
{
    match loaded {
        Ok(Some(config)) => {
            if config.schema_version == STATE_SCHEMA_VERSION {
                StoredConfig::Use(Startup { config, lifecycle: Lifecycle::Booting, error: None })
            } else {
                StoredConfig::Use(
                    Startup {
                        config: DesiredConfig::empty(),
                        lifecycle: Lifecycle::Degraded,
                        error: Some(
                            DomainError::from_message(
                                ErrorCode::StateCorrupt,
                                ErrorStage::Bootstrap,
                                "unsupported desired-state schema",
                            ),
                        ),
                    },
                )
            }
        },
        Ok(None) => StoredConfig::Discover,
        Err(error) => StoredConfig::Use(
            Startup { config: DesiredConfig::empty(), lifecycle: Lifecycle::Degraded, error: Some(error) },
        ),
    }
}

/// The primary network a discovery found: its SSID on its radios, open until configured.
pub open spec fn discovered_network(d: DiscoveredWifi) -> WifiView {
    WifiView { ssid: d.ssid@, encryption: "none"@, key: None, targets: crate::text::strs_view(d.targets@) }
}

/// A first configuration: revision one, the given primary network and WAN, and nothing else
/// set up yet.
pub open spec fn is_fresh_config(c: DesiredConfig, primary: WifiView, wan: WanView) -> bool {
    &&& c.revision == 1
    &&& c.schema_version == STATE_SCHEMA_VERSION
    &&& c.wifi.primary@ == primary
    &&& c.wifi.backhaul is None
    &&& c.wifi.radio_channels@.len() == 0
    &&& c.wan@ == wan
    &&& !c.ddns.enabled
    &&& c.extenders@.len() == 0
    &&& c.extender_auth_token is None
    &&& c.registered_devices@.len() == 0
}

/// The configuration built from what was discovered: the discovered network, and the
/// discovered WAN or, when that failed, a disabled WAN.
pub fn config_from_discovery(wifi: DiscoveredWifi, wan: Result<WanDesired, DomainError>) -> (r: DesiredConfig)
    ensures
        is_fresh_config(
            r,
            discovered_network(wifi),
            match wan {
                Ok(w) => w@,
                Err(_) => default_wan_view(),
            },
        ),
{
    let wan = match wan {
        Ok(w) => w,
        Err(_) => WanDesired::disabled(),
    };
    let primary = WifiNetworkConfig {
        ssid: wifi.ssid,
        encryption: String::from_str("none"),
        key: None,
        targets: wifi.targets,
    };
    DesiredConfig::new(primary, wan)
}

/// Discovers the default configuration on the router: the primary Wi-Fi network, which must be
/// found, and the WAN, which may not be.
pub fn discover_default_config<B: RouterBackend>(backend: &B) -> (r: Result<DesiredConfig, DomainError>)
    ensures
        match backend.primary_wifi_view() {
            Err(e) => r matches Err(x) && x@ == e,
            Ok((ssid, targets)) => r matches Ok(c) && is_fresh_config(
                c,
                WifiView { ssid, encryption: "none"@, key: None, targets },
                match backend.primary_wan_view() {
                    Ok(w) => w,
                    Err(_) => default_wan_view(),
                },
            ),
        },
{
    let wifi = backend.discover_primary_wifi()?;
    let wan = backend.discover_primary_wan();
    Ok(config_from_discovery(wifi, wan))
}

/// Start-up after discovery: a discovered configuration that was saved boots; one that could
/// not be saved leaves the core degraded with that error; a failed discovery waits for setup
/// on an empty configuration.
pub fn after_discovery(discovered: Result<DesiredConfig, DomainError>, saved: Result<(), DomainError>) -> (r: Startup)
    ensures
        match discovered {
            Ok(c) => r.config == c && match saved {
                Ok(()) => r.lifecycle == Lifecycle::Booting && r.error is None,
                Err(e) => r.lifecycle == Lifecycle::Degraded && r.error == Some(e),
            },
            Err(e) => r.config.revision == 0 && r.lifecycle == Lifecycle::NeedsSetup && r.error == Some(e),
        },
{
    match discovered {
        Ok(config) => match saved {
            Ok(()) => Startup { config, lifecycle: Lifecycle::Booting, error: None },
            Err(e) => Startup { config, lifecycle: Lifecycle::Degraded, error: Some(e) },
        },
        Err(e) => Startup { config: DesiredConfig::empty(), lifecycle: Lifecycle::NeedsSetup, error: Some(e) },
    }
}

/// The error reported at start-up: a state directory that cannot be prepared comes first.
pub fn startup_error(store_error: Option<DomainError>, init_error: Option<DomainError>) -> (r: Option<DomainError>)
    ensures
        r == match store_error {
            Some(e) => Some(e),
            None => init_error,
        },
{
    match store_error {
        Some(e) => Some(e),
        None => init_error,
    }
}

/// Once start-up work is done a booting core becomes ready; other states stay.
pub fn finish_startup(state: &mut CoreState)
    ensures
        *final(state) == (CoreState {
            lifecycle: if old(state).lifecycle == Lifecycle::Booting {
                Lifecycle::Ready
            } else {
                old(state).lifecycle
            },
            ..*old(state)
        }),
{
    if state.lifecycle == Lifecycle::Booting {
        state.lifecycle = Lifecycle::Ready;
    }
}

} // verus!
