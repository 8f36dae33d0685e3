//! Dynamic DNS: provider settings, their validation and the update status.

use vstd::prelude::*;
use vstd::string::*;

use crate::errors::{DomainError, ErrorCode, ErrorStage, is_plain_error};
use crate::text::{is_blank, is_blank_spec};

verus! {

/// The dynamic-DNS service to update.
#[derive(Debug, Clone, Copy, PartialEq, Eq, Structural)]
pub enum DdnsProvider {
    /// No provider selected.
    Disabled,
    Cloudflare,
    DuckDns,
}

#[derive(Debug, Clone)]
pub struct CloudflareConfig {
    pub zone_id: String,
    pub record_id: String,
    pub api_token: String,
    pub hostname: String,
}

#[derive(Debug, Clone)]
pub struct DuckDnsConfig {
    pub token: String,
    pub domain: String,
}

#[derive(Debug, Clone)]
pub struct DdnsConfig {
    pub enabled: bool,
    pub provider: DdnsProvider,
    pub cloudflare: Option<CloudflareConfig>,
    pub duckdns: Option<DuckDnsConfig>,
}

/// The result of the last dynamic-DNS update.
#[derive(Debug, Clone)]
pub struct DdnsStatus {
    pub last_ip: Option<String>,
    pub last_update_ts: Option<u64>,
    pub last_error: Option<String>,
}

impl Default for DdnsConfig {
    fn default() -> (r: DdnsConfig)
        ensures
            !r.enabled,
            r.provider == DdnsProvider::Disabled,
            r.cloudflare is None,
            r.duckdns is None,
    {
        DdnsConfig { enabled: false, provider: DdnsProvider::Disabled, cloudflare: None, duckdns: None }
    }
}

impl Default for DdnsStatus {
    fn default() -> (r: DdnsStatus)
        ensures
            r.last_ip is None,
            r.last_update_ts is None,
            r.last_error is None,
    {
        DdnsStatus { last_ip: None, last_update_ts: None, last_error: None }
    }
}

/// Every value has a character that is not white space.
pub open spec fn all_present_spec(values: Seq<Seq<char>>) -> bool {
    forall|i: int| 0 <= i < values.len() ==> !is_blank_spec(#[trigger] values[i])
}

/// Whether every value is present: non-empty after trimming white space.
pub fn all_present(values: &[&String]) -> (r: bool)
    ensures
        r == all_present_spec(values@.map_values(|s: &String| s@)),
{
    let ghost vs = values@.map_values(|s: &String| s@);
    let mut i: usize = 0;
    while i < values.len()
        invariant
            vs == values@.map_values(|s: &String| s@),
            i <= values.len(),
            forall|j: int| 0 <= j < i ==> !is_blank_spec(#[trigger] vs[j]),
        decreases values.len() - i,
    {
        if is_blank(values[i].as_str()) {
            assert(is_blank_spec(vs[i as int]));
            return false;
        }
        i += 1;
    }
    true
}

/// An enabled configuration names a provider and fills in every field that provider needs.
pub open spec fn ddns_config_complete(c: DdnsConfig) -> bool {
    !c.enabled || match c.provider {
        DdnsProvider::Cloudflare => c.cloudflare matches Some(cf) && !is_blank_spec(cf.zone_id@)
            && !is_blank_spec(cf.record_id@) && !is_blank_spec(cf.api_token@) && !is_blank_spec(
            cf.hostname@,
        ),
        DdnsProvider::DuckDns => c.duckdns matches Some(d) && !is_blank_spec(d.token@)
            && !is_blank_spec(d.domain@),
        DdnsProvider::Disabled => false,
    }
}

/// Accepts a disabled configuration, or an enabled one whose provider settings are complete.
pub fn validate_ddns_config(config: &DdnsConfig) -> (r: Result<(), DomainError>)
    ensures
        r is Ok <==> ddns_config_complete(*config),
        r matches Err(e) ==> is_plain_error(
            e,
            ErrorCode::InvalidArgument,
            ErrorStage::Validate,
            "enabled DDNS provider configuration is incomplete"@,
        ),
{
    if !config.enabled {
        return Ok(());
    }
    let valid = match config.provider {
        DdnsProvider::Cloudflare => match &config.cloudflare {
            Some(cf) => {
                let values = [&cf.zone_id, &cf.record_id, &cf.api_token, &cf.hostname];
                let ok = all_present(&values);
                proof {
                    let vs = values@.map_values(|s: &String| s@);
                    assert(vs[0] == cf.zone_id@);
                    assert(vs[1] == cf.record_id@);
                    assert(vs[2] == cf.api_token@);
                    assert(vs[3] == cf.hostname@);
                }
                ok
            },
            None => false,
        },
        DdnsProvider::DuckDns => match &config.duckdns {
            Some(d) => {
                let values = [&d.token, &d.domain];
                let ok = all_present(&values);
                proof {
                    let vs = values@.map_values(|s: &String| s@);
                    assert(vs[0] == d.token@);
                    assert(vs[1] == d.domain@);
                }
                ok
            },
            None => false,
        },
        DdnsProvider::Disabled => false,
    };
    if valid {
        Ok(())
    } else {
        Err(
            DomainError::from_message(
                ErrorCode::InvalidArgument,
                ErrorStage::Validate,
                "enabled DDNS provider configuration is incomplete",
            ),
        )
    }
}

/// The status recorded after an update attempt for `ip` at `now_secs`.
pub fn ddns_status_after_update(ip: String, result: Result<(), String>, now_secs: u64) -> (r:
    DdnsStatus)
    ensures
        r.last_ip == Some(ip),
        r.last_update_ts == Some(now_secs),
        r.last_error == match result {
            Ok(_) => None,
            Err(e) => Some(e),
        },
{
    DdnsStatus {
        last_ip: Some(ip),
        last_update_ts: Some(now_secs),
        last_error: match result {
            Ok(_) => None,
            Err(e) => Some(e),
        },
    }
}

/// The settings of a dynamic-DNS configuration, field by field.
pub open spec fn ddns_view(c: DdnsConfig) -> (
    bool,
    DdnsProvider,
    Option<(Seq<char>, Seq<char>, Seq<char>, Seq<char>)>,
    Option<(Seq<char>, Seq<char>)>,
) {
    (
        c.enabled,
        c.provider,
        match c.cloudflare {
            Some(cf) => Some((cf.zone_id@, cf.record_id@, cf.api_token@, cf.hostname@)),
            None => None,
        },
        match c.duckdns {
            Some(d) => Some((d.token@, d.domain@)),
            None => None,
        },
    )
}

fn same_ddns_config(a: &DdnsConfig, b: &DdnsConfig) -> (r: bool)
    ensures
        r == (ddns_view(*a) == ddns_view(*b)),
{
    let cloudflare = match (&a.cloudflare, &b.cloudflare) {
        (Some(x), Some(y)) => x.zone_id == y.zone_id && x.record_id == y.record_id && x.api_token
            == y.api_token && x.hostname == y.hostname,
        (None, None) => true,
        _ => false,
    };
    let duckdns = match (&a.duckdns, &b.duckdns) {
        (Some(x), Some(y)) => x.token == y.token && x.domain == y.domain,
        (None, None) => true,
        _ => false,
    };
    a.enabled == b.enabled && a.provider == b.provider && cloudflare && duckdns
}

/// A copy of dynamic-DNS settings.
pub fn copy_ddns_config(c: &DdnsConfig) -> (r: DdnsConfig)
    ensures
        ddns_view(r) == ddns_view(*c),
{
    DdnsConfig {
        enabled: c.enabled,
        provider: c.provider,
        cloudflare: match &c.cloudflare {
            Some(cf) => Some(
                CloudflareConfig {
                    zone_id: cf.zone_id.clone(),
                    record_id: cf.record_id.clone(),
                    api_token: cf.api_token.clone(),
                    hostname: cf.hostname.clone(),
                },
            ),
            None => None,
        },
        duckdns: match &c.duckdns {
            Some(d) => Some(DuckDnsConfig { token: d.token.clone(), domain: d.domain.clone() }),
            None => None,
        },
    }
}

/// The dynamic-DNS watcher: the settings and address of the last update it asked for.
#[derive(Debug)]
pub struct DdnsWatcher {
    pub last_request: Option<(DdnsConfig, String)>,
}

/// The watcher last asked for an update with these settings and this address.
pub open spec fn last_request_is(w: DdnsWatcher, config: DdnsConfig, ip: Seq<char>) -> bool {
    w.last_request matches Some(r) && ddns_view(r.0) == ddns_view(config) && r.1@ == ip
}

impl DdnsWatcher {
    pub fn new() -> (r: DdnsWatcher)
        ensures
            r.last_request is None,
    {
        DdnsWatcher { last_request: None }
    }

    /// Looks at a published state: its dynamic-DNS settings and its WAN address. Tells whether to
    /// update the provider now. A disabled configuration forgets the last request; without an
    /// address nothing happens; an update is asked for once per settings and address.
    pub fn observe(&mut self, config: &DdnsConfig, wan_ip: &Option<String>) -> (update: bool)
        ensures
            !config.enabled ==> !update && final(self).last_request is None,
            config.enabled ==> match *wan_ip {
                None => !update && *final(self) == *old(self),
                Some(ip) => {
                    &&& update == !last_request_is(*old(self), *config, ip@)
                    &&& update ==> last_request_is(*final(self), *config, ip@)
                    &&& !update ==> *final(self) == *old(self)
                },
            },
    {
        if !config.enabled {
            self.last_request = None;
            return false;
        }
        let ip = match wan_ip {
            Some(ip) => ip,
            None => return false,
        };
        let repeated = match &self.last_request {
            Some(r) => same_ddns_config(&r.0, config) && r.1 == *ip,
            None => false,
        };
        if repeated {
            return false;
        }
        self.last_request = Some((copy_ddns_config(config), ip.clone()));
        true
    }
}

/// The update a configuration calls for.
#[derive(Debug, Clone)]
pub enum DdnsUpdate {
    /// Update the Cloudflare record with these settings.
    Cloudflare(CloudflareConfig),
    /// Update the DuckDNS domain with these settings.
    DuckDns(DuckDnsConfig),
    /// The provider's settings are missing: the update fails with this message.
    Missing(String),
    /// No provider: nothing to update, which counts as success.
    Nothing,
}

/// The update a configuration calls for: the selected provider with its settings.
pub fn plan_ddns_update(config: &DdnsConfig) -> (r: DdnsUpdate)
    ensures
        match config.provider {
            DdnsProvider::Cloudflare => match config.cloudflare {
                Some(cf) => r matches DdnsUpdate::Cloudflare(x) && x.zone_id@ == cf.zone_id@
                    && x.record_id@ == cf.record_id@ && x.api_token@ == cf.api_token@ && x.hostname@
                    == cf.hostname@,
                None => r matches DdnsUpdate::Missing(m) && m@ == "missing cloudflare config"@,
            },
            DdnsProvider::DuckDns => match config.duckdns {
                Some(d) => r matches DdnsUpdate::DuckDns(x) && x.token@ == d.token@ && x.domain@
                    == d.domain@,
                None => r matches DdnsUpdate::Missing(m) && m@ == "missing duckdns config"@,
            },
            DdnsProvider::Disabled => r is Nothing,
        },
{
    match config.provider {
        DdnsProvider::Cloudflare => match &config.cloudflare {
            Some(cf) => DdnsUpdate::Cloudflare(
                CloudflareConfig {
                    zone_id: cf.zone_id.clone(),
                    record_id: cf.record_id.clone(),
                    api_token: cf.api_token.clone(),
                    hostname: cf.hostname.clone(),
                },
            ),
            None => DdnsUpdate::Missing(String::from_str("missing cloudflare config")),
        },
        DdnsProvider::DuckDns => match &config.duckdns {
            Some(d) => DdnsUpdate::DuckDns(DuckDnsConfig { token: d.token.clone(), domain: d.domain.clone() }),
            None => DdnsUpdate::Missing(String::from_str("missing duckdns config")),
        },
        DdnsProvider::Disabled => DdnsUpdate::Nothing,
    }
}


/// A copy of the dynamic-DNS update status.
pub fn copy_ddns_status(s: &DdnsStatus) -> (r: DdnsStatus)
    ensures
        r == *s,
{
    DdnsStatus {
        last_ip: crate::text::clone_opt_str(&s.last_ip),
        last_update_ts: s.last_update_ts,
        last_error: crate::text::clone_opt_str(&s.last_error),
    }
}

} // verus!
