//! Edits of the desired configuration outside Wi-Fi and WAN changes: DNS and DHCP settings,
//! local DNS records and dynamic DNS. Each accepted edit bumps the revision.

use vstd::prelude::*;
use vstd::string::*;

use crate::ddns::{DdnsConfig, ddns_config_complete, validate_ddns_config};
use crate::dns::{
    DnsConfig, DnsRecord, clashes, dns_config_rejection, identifier_ok, record_rejection, records_view,
    validate_dns_config, with_record_added, with_record_removed, without_id,
};
use crate::errors::{DomainError, ErrorCode, ErrorStage, is_plain_error};
use crate::state::DesiredConfig;
use crate::wan::rejected_as;

verus! {

/// The revision after an edit; it stays at the largest value once reached.
pub open spec fn next_revision(r: u64) -> u64 {
    if r == u64::MAX {
        r
    } else {
        (r + 1) as u64
    }
}

/// The configuration with new DNS settings and the next revision.
pub fn config_with_dns(config: DesiredConfig, dns: DnsConfig) -> (r: DesiredConfig)
    ensures
        r == (DesiredConfig { dns, revision: next_revision(config.revision), ..config }),
{
    let mut config = config;
    config.dns = dns;
    config.revision = config.revision.saturating_add(1);
    config
}

/// `ddns_set`: an enabled configuration must be complete; it then replaces the dynamic DNS
/// settings and the revision advances.
pub fn ddns_set(config: DesiredConfig, ddns: DdnsConfig) -> (r: Result<DesiredConfig, DomainError>)
    ensures
        r is Ok <==> ddns_config_complete(ddns),
        r matches Ok(c) ==> c == (DesiredConfig { ddns, revision: next_revision(config.revision), ..config }),
        r matches Err(e) ==> is_plain_error(
            e,
            ErrorCode::InvalidArgument,
            ErrorStage::Validate,
            "enabled DDNS provider configuration is incomplete"@,
        ),
{
    validate_ddns_config(&ddns)?;
    let mut config = config;
    config.ddns = ddns;
    config.revision = config.revision.saturating_add(1);
    Ok(config)
}

/// `dns_set`: valid settings replace the DNS settings and the revision advances.
pub fn dns_set(config: DesiredConfig, dns: DnsConfig) -> (r: Result<DesiredConfig, DomainError>)
    ensures
        rejected_as(
            match r {
                Ok(_) => Ok(()),
                Err(e) => Err(e),
            },
            dns_config_rejection(dns),
        ),
        r matches Ok(c) ==> c == (DesiredConfig { dns, revision: next_revision(config.revision), ..config }),
{
    match validate_dns_config(&dns) {
        Ok(()) => Ok(config_with_dns(config, dns)),
        Err(e) => Err(e),
    }
}

/// `dns_add_record`: a valid record that clashes with none is appended and the revision
/// advances.
pub fn dns_add_record(config: DesiredConfig, record: DnsRecord) -> (r: Result<DesiredConfig, DomainError>)
    ensures
        match r {
            Ok(c) => {
                &&& record_rejection(record@) is None
                &&& forall|i: int| 0 <= i < config.dns.custom_records@.len() ==> !clashes(
                    #[trigger] config.dns.custom_records@[i]@,
                    record@,
                )
                &&& records_view(c.dns.custom_records@) == records_view(config.dns.custom_records@).push(record@)
                &&& c == (DesiredConfig {
                    dns: DnsConfig { custom_records: c.dns.custom_records, ..config.dns },
                    revision: next_revision(config.revision),
                    ..config
                })
            },
            Err(e) => if record_rejection(record@) is Some {
                is_plain_error(e, ErrorCode::InvalidArgument, ErrorStage::Validate, record_rejection(record@)->0)
            } else {
                &&& exists|i: int| 0 <= i < config.dns.custom_records@.len() && clashes(
                    #[trigger] config.dns.custom_records@[i]@,
                    record@,
                )
                &&& is_plain_error(e, ErrorCode::InvalidArgument, ErrorStage::Validate, "duplicate DNS record"@)
            },
        },
{
    match with_record_added(&config.dns.custom_records, record) {
        Ok(records) => {
            let mut config = config;
            config.dns.custom_records = records;
            config.revision = config.revision.saturating_add(1);
            Ok(config)
        },
        Err(e) => Err(e),
    }
}

/// `dns_remove_record`: the records with this identifier go and the revision advances; an
/// invalid or unknown identifier is refused.
pub fn dns_remove_record(config: DesiredConfig, id: &str) -> (r: Result<DesiredConfig, DomainError>)
    ensures
        match r {
            Ok(c) => {
                &&& identifier_ok(id@)
                &&& records_view(c.dns.custom_records@) == without_id(records_view(config.dns.custom_records@), id@)
                &&& c.dns.custom_records@.len() < config.dns.custom_records@.len()
                &&& c == (DesiredConfig {
                    dns: DnsConfig { custom_records: c.dns.custom_records, ..config.dns },
                    revision: next_revision(config.revision),
                    ..config
                })
            },
            Err(e) => if !identifier_ok(id@) {
                is_plain_error(e, ErrorCode::InvalidArgument, ErrorStage::Validate, "invalid DNS record ID"@)
            } else {
                &&& without_id(records_view(config.dns.custom_records@), id@) == records_view(config.dns.custom_records@)
                &&& is_plain_error(e, ErrorCode::NotFound, ErrorStage::Validate, "DNS record not found"@)
            },
        },
{
    match with_record_removed(&config.dns.custom_records, id) {
        Ok(records) => {
            let mut config = config;
            config.dns.custom_records = records;
            config.revision = config.revision.saturating_add(1);
            Ok(config)
        },
        Err(e) => Err(e),
    }
}

/// The configuration with the extender's authentication token set or cleared; the revision
/// stays.
pub fn config_with_extender_token(config: DesiredConfig, token: Option<String>) -> (r: DesiredConfig)
    ensures
        r == (DesiredConfig { extender_auth_token: token, ..config }),
{
    let mut config = config;
    config.extender_auth_token = token;
    config
}

} // verus!
