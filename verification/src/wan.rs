//! WAN uplink settings: their model, validation, normalisation and comparison.

use vstd::prelude::*;
use vstd::string::*;

use crate::errors::{DomainError, ErrorCode, ErrorStage, is_plain_error, opt_str_view};
use crate::net::{
    contiguous_mask, eq_ignore_ascii_case, eq_ignore_case_spec, find_bad_octet, first_bad_octet,
    is_contiguous_mask, is_reserved, is_reserved_ipv4, parse_ipv4, parse_ipv4_spec,
};
use crate::text::{
    byte_len, clone_opt_str, clone_strs, concat, concat3, is_blank, is_blank_spec, opt_str_eq,
    split, split_char, str_eq, strs_eq, strs_view, utf8_len,
};

verus! {

/// How the WAN interface obtains its address.
#[derive(Debug, Clone, Copy, PartialEq, Eq, Structural)]
pub enum WanProtocol {
    Disabled,
    Dhcp,
    Static,
    Pppoe,
    /// The device is a mesh extender whose uplink is DHCP on the master's LAN.
    Extender,
}

/// Static addressing of the WAN interface.
#[derive(Debug, Clone, PartialEq, Eq)]
pub struct WanStaticConfig {
    pub ip_address: String,
    pub netmask: String,
    pub gateway: String,
    pub dns: Vec<String>,
}

/// PPPoE credentials of the WAN interface.
#[derive(Debug, Clone, PartialEq, Eq)]
pub struct WanPppoeConfig {
    pub username: String,
    pub password: Option<String>,
}

/// The desired WAN configuration.
#[derive(Debug, Clone, PartialEq, Eq)]
pub struct WanDesired {
    pub present: bool,
    pub proto: WanProtocol,
    pub device: Option<String>,
    pub custom_mac: Option<String>,
    pub custom_mtu: Option<u16>,
    pub custom_dns: Vec<String>,
    pub static_config: Option<WanStaticConfig>,
    pub pppoe_config: Option<WanPppoeConfig>,
}

pub struct StaticView {
    pub ip_address: Seq<char>,
    pub netmask: Seq<char>,
    pub gateway: Seq<char>,
    pub dns: Seq<Seq<char>>,
}

pub struct PppoeView {
    pub username: Seq<char>,
    pub password: Option<Seq<char>>,
}

/// The mathematical content of a [`WanDesired`].
pub struct WanView {
    pub present: bool,
    pub proto: WanProtocol,
    pub device: Option<Seq<char>>,
    pub custom_mac: Option<Seq<char>>,
    pub custom_mtu: Option<u16>,
    pub custom_dns: Seq<Seq<char>>,
    pub static_config: Option<StaticView>,
    pub pppoe_config: Option<PppoeView>,
}

impl View for WanStaticConfig {
    type V = StaticView;

    open spec fn view(&self) -> StaticView {
        StaticView {
            ip_address: self.ip_address@,
            netmask: self.netmask@,
            gateway: self.gateway@,
            dns: strs_view(self.dns@),
        }
    }
}

impl View for WanPppoeConfig {
    type V = PppoeView;

    open spec fn view(&self) -> PppoeView {
        PppoeView { username: self.username@, password: opt_str_view(self.password) }
    }
}

pub open spec fn opt_static_view(o: Option<WanStaticConfig>) -> Option<StaticView> {
    match o {
        Some(c) => Some(c@),
        None => None,
    }
}

pub open spec fn opt_pppoe_view(o: Option<WanPppoeConfig>) -> Option<PppoeView> {
    match o {
        Some(c) => Some(c@),
        None => None,
    }
}

impl View for WanDesired {
    type V = WanView;

    open spec fn view(&self) -> WanView {
        WanView {
            present: self.present,
            proto: self.proto,
            device: opt_str_view(self.device),
            custom_mac: opt_str_view(self.custom_mac),
            custom_mtu: self.custom_mtu,
            custom_dns: strs_view(self.custom_dns@),
            static_config: opt_static_view(self.static_config),
            pppoe_config: opt_pppoe_view(self.pppoe_config),
        }
    }
}

/// The disabled WAN with nothing configured.
pub open spec fn default_wan_view() -> WanView {
    WanView {
        present: false,
        proto: WanProtocol::Disabled,
        device: None,
        custom_mac: None,
        custom_mtu: None,
        custom_dns: Seq::empty(),
        static_config: None,
        pppoe_config: None,
    }
}

impl WanDesired {
    /// The disabled WAN with nothing configured.
    pub fn disabled() -> (r: WanDesired)
        ensures
            r@ == default_wan_view(),
    {
        let r = WanDesired {
            present: false,
            proto: WanProtocol::Disabled,
            device: None,
            custom_mac: None,
            custom_mtu: None,
            custom_dns: Vec::new(),
            static_config: None,
            pppoe_config: None,
        };
        assert(r@.custom_dns =~= Seq::<Seq<char>>::empty());
        r
    }
}

impl Default for WanDesired {
    fn default() -> (r: WanDesired)
        ensures
            r@ == default_wan_view(),
    {
        WanDesired::disabled()
    }
}

impl WanStaticConfig {
    pub fn copy(&self) -> (r: WanStaticConfig)
        ensures
            r@ == self@,
    {
        WanStaticConfig {
            ip_address: self.ip_address.clone(),
            netmask: self.netmask.clone(),
            gateway: self.gateway.clone(),
            dns: clone_strs(&self.dns),
        }
    }
}

impl WanPppoeConfig {
    pub fn copy(&self) -> (r: WanPppoeConfig)
        ensures
            r@ == self@,
    {
        WanPppoeConfig { username: self.username.clone(), password: clone_opt_str(&self.password) }
    }
}

fn copy_opt_static(o: &Option<WanStaticConfig>) -> (r: Option<WanStaticConfig>)
    ensures
        opt_static_view(r) == opt_static_view(*o),
{
    match o {
        Some(c) => Some(c.copy()),
        None => None,
    }
}

fn copy_opt_pppoe(o: &Option<WanPppoeConfig>) -> (r: Option<WanPppoeConfig>)
    ensures
        opt_pppoe_view(r) == opt_pppoe_view(*o),
{
    match o {
        Some(c) => Some(c.copy()),
        None => None,
    }
}

impl WanDesired {
    pub fn copy(&self) -> (r: WanDesired)
        ensures
            r@ == self@,
    {
        WanDesired {
            present: self.present,
            proto: self.proto,
            device: clone_opt_str(&self.device),
            custom_mac: clone_opt_str(&self.custom_mac),
            custom_mtu: self.custom_mtu,
            custom_dns: clone_strs(&self.custom_dns),
            static_config: copy_opt_static(&self.static_config),
            pppoe_config: copy_opt_pppoe(&self.pppoe_config),
        }
    }
}

fn static_eq(a: &WanStaticConfig, b: &WanStaticConfig) -> (r: bool)
    ensures
        r == (a@ == b@),
{
    a.ip_address == b.ip_address && a.netmask == b.netmask && a.gateway == b.gateway && strs_eq(
        &a.dns,
        &b.dns,
    )
}

fn pppoe_eq(a: &WanPppoeConfig, b: &WanPppoeConfig) -> (r: bool)
    ensures
        r == (a@ == b@),
{
    a.username == b.username && opt_str_eq(&a.password, &b.password)
}

/// Equality of two WAN configurations by content.
pub fn wan_desired_eq(a: &WanDesired, b: &WanDesired) -> (r: bool)
    ensures
        r == (a@ == b@),
{
    let static_same = match (&a.static_config, &b.static_config) {
        (Some(x), Some(y)) => static_eq(x, y),
        (None, None) => true,
        _ => false,
    };
    let pppoe_same = match (&a.pppoe_config, &b.pppoe_config) {
        (Some(x), Some(y)) => pppoe_eq(x, y),
        (None, None) => true,
        _ => false,
    };
    a.present == b.present && a.proto == b.proto && opt_str_eq(&a.device, &b.device) && opt_str_eq(
        &a.custom_mac,
        &b.custom_mac,
    ) && a.custom_mtu == b.custom_mtu && strs_eq(&a.custom_dns, &b.custom_dns) && static_same
        && pppoe_same
}

} // verus!

verus! {

/// An `InvalidArgument` validation error with message `m` when `rej` is `Some(m)`, `Ok`
/// otherwise.
pub open spec fn rejected_as<T>(r: Result<T, DomainError>, rej: Option<Seq<char>>) -> bool {
    match rej {
        None => r is Ok,
        Some(m) => r matches Err(e) && is_plain_error(e, ErrorCode::InvalidArgument, ErrorStage::Validate, m),
    }
}

/// Why `validate_ipv4` rejects `value` for the field named `field`.
pub open spec fn ipv4_rejection(value: Seq<char>, field: Seq<char>) -> Option<Seq<char>> {
    match parse_ipv4_spec(value) {
        None => Some("invalid IPv4 format for "@ + field + ": '"@ + value + "'"@),
        Some(ip) => if is_reserved_ipv4(ip) {
            Some(field + " cannot be unspecified, loopback, or multicast"@)
        } else {
            None
        },
    }
}

/// Parses a usable unicast IPv4 address.
pub fn validate_ipv4(value: &str, field_name: &str) -> (r: Result<u32, DomainError>)
    ensures
        rejected_as(r, ipv4_rejection(value@, field_name@)),
        r matches Ok(ip) ==> parse_ipv4_spec(value@) == Some(ip),
{
    let ip = match parse_ipv4(value) {
        Some(ip) => ip,
        None => {
            let head = concat3("invalid IPv4 format for ", field_name, ": '");
            let message = concat3(head.as_str(), value, "'");
            return Err(DomainError::new(ErrorCode::InvalidArgument, ErrorStage::Validate, message));
        },
    };
    if is_reserved(ip) {
        let message = concat(field_name, " cannot be unspecified, loopback, or multicast");
        return Err(DomainError::new(ErrorCode::InvalidArgument, ErrorStage::Validate, message));
    }
    Ok(ip)
}

/// Why `validate_netmask` rejects `value`.
pub open spec fn netmask_rejection(value: Seq<char>) -> Option<Seq<char>> {
    match parse_ipv4_spec(value) {
        None => Some("invalid netmask format: '"@ + value + "'"@),
        Some(raw) => if !is_contiguous_mask(raw) {
            Some("netmask '"@ + value + "' is not contiguous"@)
        } else {
            None
        },
    }
}

/// Parses a contiguous, non-zero netmask.
pub fn validate_netmask(value: &str) -> (r: Result<u32, DomainError>)
    ensures
        rejected_as(r, netmask_rejection(value@)),
        r matches Ok(m) ==> parse_ipv4_spec(value@) == Some(m),
{
    let mask = match parse_ipv4(value) {
        Some(m) => m,
        None => {
            let message = concat3("invalid netmask format: '", value, "'");
            return Err(DomainError::new(ErrorCode::InvalidArgument, ErrorStage::Validate, message));
        },
    };
    if !contiguous_mask(mask) {
        let message = concat3("netmask '", value, "' is not contiguous");
        return Err(DomainError::new(ErrorCode::InvalidArgument, ErrorStage::Validate, message));
    }
    Ok(mask)
}

/// Why the first rejected entry of a DNS server list is rejected.
pub open spec fn dns_list_rejection(dns: Seq<Seq<char>>, field: Seq<char>) -> Option<Seq<char>>
    decreases dns.len(),
{
    if dns.len() == 0 {
        None
    } else if ipv4_rejection(dns[0], field) is Some {
        ipv4_rejection(dns[0], field)
    } else {
        dns_list_rejection(dns.drop_first(), field)
    }
}

fn validate_dns_list(dns: &Vec<String>, field_name: &str) -> (r: Result<(), DomainError>)
    ensures
        rejected_as(r, dns_list_rejection(strs_view(dns@), field_name@)),
{
    let ghost ds = strs_view(dns@);
    let mut i: usize = 0;
    assert(ds.skip(0) =~= ds);
    while i < dns.len()
        invariant
            ds == strs_view(dns@),
            i <= dns.len(),
            dns_list_rejection(ds, field_name@) == dns_list_rejection(ds.skip(i as int), field_name@),
        decreases dns.len() - i,
    {
        assert(ds.skip(i as int)[0] == dns@[i as int]@);
        assert(ds.skip(i as int).drop_first() =~= ds.skip(i + 1));
        match validate_ipv4(dns[i].as_str(), field_name) {
            Ok(_) => {},
            Err(e) => {
                return Err(e);
            },
        }
        i += 1;
    }
    Ok(())
}

/// Why `validate_static_config` rejects a static configuration.
pub open spec fn static_rejection(c: StaticView) -> Option<Seq<char>> {
    if ipv4_rejection(c.ip_address, "IP address"@) is Some {
        ipv4_rejection(c.ip_address, "IP address"@)
    } else if netmask_rejection(c.netmask) is Some {
        netmask_rejection(c.netmask)
    } else if ipv4_rejection(c.gateway, "gateway"@) is Some {
        ipv4_rejection(c.gateway, "gateway"@)
    } else {
        let ip = parse_ipv4_spec(c.ip_address)->0;
        let mask = parse_ipv4_spec(c.netmask)->0;
        let gw = parse_ipv4_spec(c.gateway)->0;
        if (ip & mask) != (gw & mask) {
            Some("gateway IP is outside the specified subnet"@)
        } else {
            dns_list_rejection(c.dns, "static DNS"@)
        }
    }
}

/// Validates static addressing: address, netmask, gateway inside the subnet, DNS servers.
pub fn validate_static_config(config: &WanStaticConfig) -> (r: Result<(), DomainError>)
    ensures
        rejected_as(r, static_rejection(config@)),
{
    let ip = validate_ipv4(config.ip_address.as_str(), "IP address")?;
    let mask = validate_netmask(config.netmask.as_str())?;
    let gw = validate_ipv4(config.gateway.as_str(), "gateway")?;
    if (ip & mask) != (gw & mask) {
        return Err(
            DomainError::from_message(
                ErrorCode::InvalidArgument,
                ErrorStage::Validate,
                "gateway IP is outside the specified subnet",
            ),
        );
    }
    validate_dns_list(&config.dns, "static DNS")
}

/// Why `validate_pppoe_config` rejects PPPoE credentials.
pub open spec fn pppoe_rejection(c: PppoeView) -> Option<Seq<char>> {
    if is_blank_spec(c.username) || byte_len(c.username) > 128 {
        Some("PPPoE username must be between 1 and 128 characters"@)
    } else {
        match c.password {
            Some(p) => if byte_len(p) > 128 {
                Some("PPPoE password must be at most 128 characters"@)
            } else {
                None
            },
            None => None,
        }
    }
}

pub fn validate_pppoe_config(config: &WanPppoeConfig) -> (r: Result<(), DomainError>)
    ensures
        rejected_as(r, pppoe_rejection(config@)),
{
    if is_blank(config.username.as_str()) || utf8_len(config.username.as_str()) > 128 {
        return Err(
            DomainError::from_message(
                ErrorCode::InvalidArgument,
                ErrorStage::Validate,
                "PPPoE username must be between 1 and 128 characters",
            ),
        );
    }
    if let Some(pass) = &config.password {
        if utf8_len(pass.as_str()) > 128 {
            return Err(
                DomainError::from_message(
                    ErrorCode::InvalidArgument,
                    ErrorStage::Validate,
                    "PPPoE password must be at most 128 characters",
                ),
            );
        }
    }
    Ok(())
}

/// Why `validate_mac_address` rejects `mac`.
pub open spec fn mac_rejection(mac: Seq<char>) -> Option<Seq<char>> {
    let parts = split_char(mac, ':');
    if parts.len() != 6 {
        Some("MAC address must have 6 octets separated by colons"@)
    } else if first_bad_octet(parts) is Some {
        Some("invalid MAC octet: '"@ + first_bad_octet(parts)->0 + "'"@)
    } else if mac == "00:00:00:00:00:00"@ || eq_ignore_case_spec(mac, "ff:ff:ff:ff:ff:ff"@) {
        Some("MAC address cannot be all zeros or broadcast"@)
    } else {
        None
    }
}

/// Validates a unicast MAC address written as six colon-separated hexadecimal octets.
pub fn validate_mac_address(mac: &str) -> (r: Result<(), DomainError>)
    ensures
        rejected_as(r, mac_rejection(mac@)),
{
    let parts = split(mac, ':');
    if parts.len() != 6 {
        return Err(
            DomainError::from_message(
                ErrorCode::InvalidArgument,
                ErrorStage::Validate,
                "MAC address must have 6 octets separated by colons",
            ),
        );
    }
    if let Some(i) = find_bad_octet(&parts) {
        let message = concat3("invalid MAC octet: '", parts[i].as_str(), "'");
        return Err(DomainError::new(ErrorCode::InvalidArgument, ErrorStage::Validate, message));
    }
    if str_eq(mac, "00:00:00:00:00:00") || eq_ignore_ascii_case(mac, "ff:ff:ff:ff:ff:ff") {
        return Err(
            DomainError::from_message(
                ErrorCode::InvalidArgument,
                ErrorStage::Validate,
                "MAC address cannot be all zeros or broadcast",
            ),
        );
    }
    Ok(())
}

/// The `Debug` name of a protocol.
pub open spec fn proto_name(p: WanProtocol) -> Seq<char> {
    match p {
        WanProtocol::Disabled => "Disabled"@,
        WanProtocol::Dhcp => "Dhcp"@,
        WanProtocol::Static => "Static"@,
        WanProtocol::Pppoe => "Pppoe"@,
        WanProtocol::Extender => "Extender"@,
    }
}

pub fn proto_label(p: WanProtocol) -> (r: &'static str)
    ensures
        r@ == proto_name(p),
{
    match p {
        WanProtocol::Disabled => "Disabled",
        WanProtocol::Dhcp => "Dhcp",
        WanProtocol::Static => "Static",
        WanProtocol::Pppoe => "Pppoe",
        WanProtocol::Extender => "Extender",
    }
}

/// The largest MTU the protocol allows: PPPoE carries an 8-byte header.
pub open spec fn max_mtu(p: WanProtocol) -> u16 {
    if p == WanProtocol::Pppoe {
        1492
    } else {
        1500
    }
}

/// Why `validate_mtu` rejects `mtu` for protocol `p`.
pub open spec fn mtu_rejection(mtu: u16, p: WanProtocol) -> Option<Seq<char>> {
    if 576 <= mtu <= max_mtu(p) {
        None
    } else if p == WanProtocol::Pppoe {
        Some("MTU must be between 576 and 1492 for "@ + proto_name(p))
    } else {
        Some("MTU must be between 576 and 1500 for "@ + proto_name(p))
    }
}

pub fn validate_mtu(mtu: u16, proto: WanProtocol) -> (r: Result<(), DomainError>)
    ensures
        rejected_as(r, mtu_rejection(mtu, proto)),
{
    let max: u16 = if proto == WanProtocol::Pppoe {
        1492
    } else {
        1500
    };
    if 576 <= mtu && mtu <= max {
        return Ok(());
    }
    let message = if proto == WanProtocol::Pppoe {
        concat("MTU must be between 576 and 1492 for ", proto_label(proto))
    } else {
        concat("MTU must be between 576 and 1500 for ", proto_label(proto))
    };
    Err(DomainError::new(ErrorCode::InvalidArgument, ErrorStage::Validate, message))
}

/// Why `validate_wan_desired` rejects a WAN configuration, in the order the checks run.
pub open spec fn wan_rejection(d: WanView) -> Option<Seq<char>> {
    if !d.present {
        None
    } else {
        let proto_rejection = match d.proto {
            WanProtocol::Disabled => Some("WAN protocol must be specified when WAN is present"@),
            WanProtocol::Dhcp | WanProtocol::Extender => None,
            WanProtocol::Static => match d.static_config {
                None => Some("static_config is required when WAN protocol is static"@),
                Some(c) => static_rejection(c),
            },
            WanProtocol::Pppoe => match d.pppoe_config {
                None => Some("pppoe_config is required when WAN protocol is pppoe"@),
                Some(c) => pppoe_rejection(c),
            },
        };
        if proto_rejection is Some {
            proto_rejection
        } else if d.custom_mac is Some && mac_rejection(d.custom_mac->0) is Some {
            mac_rejection(d.custom_mac->0)
        } else if d.custom_mtu is Some && mtu_rejection(d.custom_mtu->0, d.proto) is Some {
            mtu_rejection(d.custom_mtu->0, d.proto)
        } else {
            dns_list_rejection(d.custom_dns, "custom DNS"@)
        }
    }
}

/// Validates a desired WAN configuration.
pub fn validate_wan_desired(desired: &WanDesired) -> (r: Result<(), DomainError>)
    ensures
        rejected_as(r, wan_rejection(desired@)),
{
    if !desired.present {
        return Ok(());
    }
    match desired.proto {
        WanProtocol::Disabled => {
            return Err(
                DomainError::from_message(
                    ErrorCode::InvalidArgument,
                    ErrorStage::Validate,
                    "WAN protocol must be specified when WAN is present",
                ),
            );
        },
        WanProtocol::Dhcp | WanProtocol::Extender => {},
        WanProtocol::Static => {
            match &desired.static_config {
                None => {
                    return Err(
                        DomainError::from_message(
                            ErrorCode::InvalidArgument,
                            ErrorStage::Validate,
                            "static_config is required when WAN protocol is static",
                        ),
                    );
                },
                Some(c) => {
                    validate_static_config(c)?;
                },
            }
        },
        WanProtocol::Pppoe => {
            match &desired.pppoe_config {
                None => {
                    return Err(
                        DomainError::from_message(
                            ErrorCode::InvalidArgument,
                            ErrorStage::Validate,
                            "pppoe_config is required when WAN protocol is pppoe",
                        ),
                    );
                },
                Some(c) => {
                    validate_pppoe_config(c)?;
                },
            }
        },
    }
    if let Some(mac) = &desired.custom_mac {
        validate_mac_address(mac.as_str())?;
    }
    if let Some(mtu) = desired.custom_mtu {
        validate_mtu(mtu, desired.proto)?;
    }
    validate_dns_list(&desired.custom_dns, "custom DNS")
}

} // verus!

verus! {

/// `normalize_wan_desired`: a disabled WAN keeps no settings; an enabled WAN keeps only the
/// settings of its protocol, and static addressing supplies the DNS servers.
pub open spec fn normalize_spec(d: WanView) -> WanView {
    if !d.present || d.proto == WanProtocol::Disabled {
        default_wan_view()
    } else {
        match d.proto {
            WanProtocol::Static => WanView {
                custom_dns: match d.static_config {
                    Some(c) => c.dns,
                    None => Seq::empty(),
                },
                pppoe_config: None,
                ..d
            },
            WanProtocol::Pppoe => WanView { static_config: None, ..d },
            _ => WanView { static_config: None, pppoe_config: None, ..d },
        }
    }
}

/// Drops the settings a configuration does not use.
pub fn normalize_wan_desired(wan: WanDesired) -> (r: WanDesired)
    ensures
        r@ == normalize_spec(wan@),
{
    if !wan.present || wan.proto == WanProtocol::Disabled {
        return WanDesired::disabled();
    }
    let mut wan = wan;
    match wan.proto {
        WanProtocol::Static => {
            let ghost v0 = wan@;
            let dns = match &wan.static_config {
                Some(c) => clone_strs(&c.dns),
                None => Vec::new(),
            };
            assert(strs_view(dns@) =~= match v0.static_config {
                Some(c) => c.dns,
                None => Seq::empty(),
            });
            wan.custom_dns = dns;
            wan.pppoe_config = None;
        },
        WanProtocol::Pppoe => {
            wan.static_config = None;
        },
        _ => {
            wan.static_config = None;
            wan.pppoe_config = None;
        },
    }
    wan
}

/// `wan_config_matches`: the two configurations agree after normalisation, where an extender
/// uplink is also met by the DHCP uplink that represents it in UCI.
pub open spec fn wan_matches_spec(observed: WanView, expected: WanView) -> bool {
    let o = normalize_spec(observed);
    let e = normalize_spec(expected);
    let o2 = if e.proto == WanProtocol::Extender && o.proto == WanProtocol::Dhcp {
        WanView { proto: WanProtocol::Extender, ..o }
    } else {
        o
    };
    o2 == e
}

/// Whether an observed WAN configuration realises the expected one.
pub fn wan_config_matches(observed: &WanDesired, expected: &WanDesired) -> (r: bool)
    ensures
        r == wan_matches_spec(observed@, expected@),
{
    let mut observed = normalize_wan_desired(observed.copy());
    let expected = normalize_wan_desired(expected.copy());
    if expected.proto == WanProtocol::Extender && observed.proto == WanProtocol::Dhcp {
        observed.proto = WanProtocol::Extender;
    }
    wan_desired_eq(&observed, &expected)
}

/// Normalising twice is normalising once.
pub proof fn lemma_normalize_idempotent(d: WanView)
    ensures
        normalize_spec(normalize_spec(d)) == normalize_spec(d),
{
}

/// Every configuration matches itself.
pub proof fn lemma_matches_reflexive(d: WanView)
    ensures
        wan_matches_spec(d, d),
{
}

/// Whether a configuration matches depends only on its normalised form.
pub proof fn lemma_matches_normalized(observed: WanView, expected: WanView)
    ensures
        wan_matches_spec(observed, expected) == wan_matches_spec(
            normalize_spec(observed),
            normalize_spec(expected),
        ),
{
    lemma_normalize_idempotent(observed);
    lemma_normalize_idempotent(expected);
}

proof fn lemma_dns_rejection_field_free(dns: Seq<Seq<char>>, f1: Seq<char>, f2: Seq<char>)
    ensures
        dns_list_rejection(dns, f1) is None <==> dns_list_rejection(dns, f2) is None,
    decreases dns.len(),
{
    if dns.len() > 0 {
        lemma_dns_rejection_field_free(dns.drop_first(), f1, f2);
    }
}

/// Normalising a valid configuration keeps it valid.
pub proof fn lemma_normalize_preserves_validity(d: WanView)
    requires
        wan_rejection(d) is None,
    ensures
        wan_rejection(normalize_spec(d)) is None,
{
    if d.present && d.proto == WanProtocol::Static {
        let c = d.static_config->0;
        lemma_dns_rejection_field_free(c.dns, "static DNS"@, "custom DNS"@);
    }
}

} // verus!

verus! {

/// The highest bandwidth limit, in kbit/s, that QoS accepts (10 Gbit/s).
pub const MAX_WAN_QOS_KBPS: u32 = 10_000_000;

/// Traffic shaping on the WAN uplink.
#[derive(Debug, Clone, Copy, PartialEq, Eq, Structural)]
pub struct WanQos {
    pub enabled: bool,
    pub download_kbps: Option<u32>,
    pub upload_kbps: Option<u32>,
}

/// Why `validate_limit` rejects a bandwidth limit in the given direction.
pub open spec fn limit_rejection(limit: Option<u32>, direction: Seq<char>) -> Option<Seq<char>> {
    match limit {
        None => None,
        Some(v) => if 1 <= v <= MAX_WAN_QOS_KBPS {
            None
        } else {
            Some("QoS "@ + direction + " bandwidth limit must be between 1 and 10000000 kbps"@)
        },
    }
}

fn validate_limit(limit: Option<u32>, direction: &str) -> (r: Result<(), DomainError>)
    ensures
        rejected_as(r, limit_rejection(limit, direction@)),
{
    let value = match limit {
        None => {
            return Ok(());
        },
        Some(v) => v,
    };
    if 1 <= value && value <= MAX_WAN_QOS_KBPS {
        return Ok(());
    }
    invalid_qos(
        concat3("QoS ", direction, " bandwidth limit must be between 1 and 10000000 kbps"),
    )
}

fn invalid_qos(message: String) -> (r: Result<(), DomainError>)
    ensures
        rejected_as(r, Some(message@)),
{
    Err(DomainError::new(ErrorCode::InvalidArgument, ErrorStage::Validate, message))
}

/// Why `validate_qos` rejects a QoS setting on a WAN uplink.
pub open spec fn qos_rejection(q: WanQos, wan_present: bool, proto: WanProtocol) -> Option<Seq<char>> {
    if !wan_present || proto == WanProtocol::Disabled {
        Some("QoS cannot be configured when WAN is disabled"@)
    } else if proto == WanProtocol::Extender {
        Some("QoS cannot be configured on WAN in extender mode (master only)"@)
    } else if !q.enabled {
        None
    } else if q.download_kbps is None && q.upload_kbps is None {
        Some(
            "At least one bandwidth limit (download or upload) must be specified when QoS is enabled"@,
        )
    } else if limit_rejection(q.download_kbps, "download"@) is Some {
        limit_rejection(q.download_kbps, "download"@)
    } else {
        limit_rejection(q.upload_kbps, "upload"@)
    }
}

/// Validates QoS for a WAN uplink: only on an enabled master uplink, with at least one limit.
pub fn validate_qos(qos: &WanQos, wan_present: bool, proto: WanProtocol) -> (r: Result<
    (),
    DomainError,
>)
    ensures
        rejected_as(r, qos_rejection(*qos, wan_present, proto)),
{
    if !wan_present || proto == WanProtocol::Disabled {
        return invalid_qos(String::from_str("QoS cannot be configured when WAN is disabled"));
    }
    if proto == WanProtocol::Extender {
        return invalid_qos(
            String::from_str("QoS cannot be configured on WAN in extender mode (master only)"),
        );
    }
    if !qos.enabled {
        return Ok(());
    }
    if qos.download_kbps.is_none() && qos.upload_kbps.is_none() {
        return invalid_qos(
            String::from_str(
                "At least one bandwidth limit (download or upload) must be specified when QoS is enabled",
            ),
        );
    }
    validate_limit(qos.download_kbps, "download")?;
    validate_limit(qos.upload_kbps, "upload")
}


/// An accepted static WAN has its gateway inside its subnet: its address, netmask and gateway
/// parse, and the address and the gateway agree on every bit the netmask sets. When address,
/// netmask and gateway are each usable but the gateway lies outside the subnet, the
/// configuration is refused because of it.
pub proof fn lemma_static_gateway_in_subnet(d: WanView)
    requires
        d.present,
        d.proto == WanProtocol::Static,
    ensures
        wan_rejection(d) is None ==> ({
            &&& d.static_config is Some
            &&& parse_ipv4_spec(d.static_config->0.ip_address) is Some
            &&& parse_ipv4_spec(d.static_config->0.netmask) is Some
            &&& parse_ipv4_spec(d.static_config->0.gateway) is Some
            &&& (parse_ipv4_spec(d.static_config->0.ip_address)->0 & parse_ipv4_spec(d.static_config->0.netmask)->0)
                == (parse_ipv4_spec(d.static_config->0.gateway)->0 & parse_ipv4_spec(d.static_config->0.netmask)->0)
        }),
        ({
            let c = d.static_config->0;
            let ip = parse_ipv4_spec(c.ip_address)->0;
            let mask = parse_ipv4_spec(c.netmask)->0;
            let gw = parse_ipv4_spec(c.gateway)->0;
            d.static_config is Some && parse_ipv4_spec(c.ip_address) is Some && !is_reserved_ipv4(ip)
                && parse_ipv4_spec(c.netmask) is Some && is_contiguous_mask(mask) && parse_ipv4_spec(c.gateway) is Some
                && !is_reserved_ipv4(gw) && (ip & mask) != (gw & mask) ==> wan_rejection(d) == Some(
                "gateway IP is outside the specified subnet"@,
            )
        }),
{
}

} // verus!
