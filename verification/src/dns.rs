//! Local DNS and DHCP settings, custom host records and their validation.

use vstd::prelude::*;
use vstd::string::*;

use crate::errors::{DomainError, ErrorCode, ErrorStage, invalid_argument, is_plain_error, opt_str_view};
use crate::net::{eq_ignore_ascii_case, eq_ignore_case_spec, is_ip_addr, is_ip_addr_spec};
use crate::text::{byte_len, split, split_char, strs_view, utf8_len};
use crate::wan::rejected_as;

verus! {

/// A custom host record served by the local resolver.
#[derive(Debug, Clone)]
pub struct DnsRecord {
    pub id: String,
    pub hostname: String,
    pub ip: String,
}

/// Resolver and DHCP settings of the LAN.
#[derive(Debug, Clone)]
pub struct DnsConfig {
    pub upstream: Vec<String>,
    pub dhcp_start: u32,
    pub dhcp_limit: u32,
    pub dhcp_lease_hours: u32,
    pub local_domain: Option<String>,
    pub custom_records: Vec<DnsRecord>,
}

pub struct RecordView {
    pub id: Seq<char>,
    pub hostname: Seq<char>,
    pub ip: Seq<char>,
}

impl View for DnsRecord {
    type V = RecordView;

    open spec fn view(&self) -> RecordView {
        RecordView { id: self.id@, hostname: self.hostname@, ip: self.ip@ }
    }
}

pub open spec fn records_view(v: Seq<DnsRecord>) -> Seq<RecordView> {
    v.map_values(|r: DnsRecord| r@)
}

impl DnsRecord {
    pub fn copy(&self) -> (r: DnsRecord)
        ensures
            r@ == self@,
    {
        DnsRecord { id: self.id.clone(), hostname: self.hostname.clone(), ip: self.ip.clone() }
    }
}

pub open spec fn is_ascii_alnum(c: char) -> bool {
    ('0' <= c <= '9') || ('a' <= c <= 'z') || ('A' <= c <= 'Z')
}

/// A record identifier: 1 to 64 bytes of ASCII letters, digits, `-` and `_`.
pub open spec fn identifier_ok(v: Seq<char>) -> bool {
    &&& v.len() > 0
    &&& byte_len(v) <= 64
    &&& forall|i: int| 0 <= i < v.len() ==> {
        let c = #[trigger] v[i];
        is_ascii_alnum(c) || c == '-' || c == '_'
    }
}

/// One label of a host name: 1 to 63 bytes of ASCII letters, digits and inner `-`.
pub open spec fn label_ok(l: Seq<char>) -> bool {
    &&& l.len() > 0
    &&& byte_len(l) <= 63
    &&& l[0] != '-'
    &&& l.last() != '-'
    &&& forall|i: int| 0 <= i < l.len() ==> {
        let c = #[trigger] l[i];
        is_ascii_alnum(c) || c == '-'
    }
}

/// A host name: non-empty, at most 253 bytes, made of valid dot-separated labels.
pub open spec fn hostname_ok(h: Seq<char>) -> bool {
    let labels = split_char(h, '.');
    &&& h.len() > 0
    &&& byte_len(h) <= 253
    &&& forall|i: int| 0 <= i < labels.len() ==> label_ok(#[trigger] labels[i])
}

fn alnum(c: char) -> (r: bool)
    ensures
        r == is_ascii_alnum(c),
{
    ('0' <= c && c <= '9') || ('a' <= c && c <= 'z') || ('A' <= c && c <= 'Z')
}

/// Whether `value` is a valid record identifier.
pub fn is_valid_identifier(value: &str) -> (r: bool)
    ensures
        r == identifier_ok(value@),
{
    let n = value.unicode_len();
    if n == 0 || utf8_len(value) > 64 {
        return false;
    }
    let mut i: usize = 0;
    while i < n
        invariant
            n == value@.len(),
            i <= n,
            forall|j: int| 0 <= j < i ==> {
                let c = #[trigger] value@[j];
                is_ascii_alnum(c) || c == '-' || c == '_'
            },
        decreases n - i,
    {
        let c = value.get_char(i);
        if !(alnum(c) || c == '-' || c == '_') {
            return false;
        }
        i += 1;
    }
    true
}

/// Accepts a valid record identifier.
pub fn validate_identifier(value: &str) -> (r: Result<(), DomainError>)
    ensures
        rejected_as(
            r,
            if identifier_ok(value@) {
                None
            } else {
                Some("invalid DNS record ID"@)
            },
        ),
{
    if is_valid_identifier(value) {
        Ok(())
    } else {
        Err(invalid_argument("invalid DNS record ID"))
    }
}

fn is_valid_label(l: &str) -> (r: bool)
    ensures
        r == label_ok(l@),
{
    let n = l.unicode_len();
    if n == 0 || utf8_len(l) > 63 {
        return false;
    }
    if l.get_char(0) == '-' || l.get_char(n - 1) == '-' {
        return false;
    }
    let mut i: usize = 0;
    while i < n
        invariant
            n == l@.len(),
            i <= n,
            forall|j: int| 0 <= j < i ==> {
                let c = #[trigger] l@[j];
                is_ascii_alnum(c) || c == '-'
            },
        decreases n - i,
    {
        let c = l.get_char(i);
        if !(alnum(c) || c == '-') {
            return false;
        }
        i += 1;
    }
    true
}

/// Whether `hostname` is a valid DNS host name.
pub fn is_valid_hostname(hostname: &str) -> (r: bool)
    ensures
        r == hostname_ok(hostname@),
{
    if hostname.unicode_len() == 0 || utf8_len(hostname) > 253 {
        return false;
    }
    let labels = split(hostname, '.');
    let ghost ls = split_char(hostname@, '.');
    let mut i: usize = 0;
    while i < labels.len()
        invariant
            ls == strs_view(labels@),
            ls == split_char(hostname@, '.'),
            hostname@.len() > 0,
            byte_len(hostname@) <= 253,
            ls.len() == labels@.len(),
            i <= labels.len(),
            forall|j: int| 0 <= j < i ==> label_ok(#[trigger] ls[j]),
        decreases labels.len() - i,
    {
        assert(ls[i as int] == labels@[i as int]@);
        if !is_valid_label(labels[i].as_str()) {
            assert(!label_ok(ls[i as int]));
            return false;
        }
        i += 1;
    }
    true
}

/// Why `validate_record` rejects a record.
pub open spec fn record_rejection(r: RecordView) -> Option<Seq<char>> {
    if !identifier_ok(r.id) {
        Some("invalid DNS record ID"@)
    } else if !is_ip_addr_spec(r.ip) {
        Some("invalid DNS record IP address"@)
    } else if !hostname_ok(r.hostname) {
        Some("invalid DNS record hostname"@)
    } else {
        None
    }
}

pub fn validate_record(record: &DnsRecord) -> (r: Result<(), DomainError>)
    ensures
        rejected_as(r, record_rejection(record@)),
{
    validate_identifier(record.id.as_str())?;
    if !is_ip_addr(record.ip.as_str()) {
        return Err(invalid_argument("invalid DNS record IP address"));
    }
    if !is_valid_hostname(record.hostname.as_str()) {
        return Err(invalid_argument("invalid DNS record hostname"));
    }
    Ok(())
}

/// Why the first rejected record of a list is rejected.
pub open spec fn records_rejection(rs: Seq<RecordView>) -> Option<Seq<char>>
    decreases rs.len(),
{
    if rs.len() == 0 {
        None
    } else if record_rejection(rs[0]) is Some {
        record_rejection(rs[0])
    } else {
        records_rejection(rs.drop_first())
    }
}

/// Why `validate_dns_config` rejects a configuration, in the order the checks run.
pub open spec fn dns_config_rejection(c: DnsConfig) -> Option<Seq<char>> {
    if exists|i: int| 0 <= i < c.upstream@.len() && !is_ip_addr_spec(#[trigger] c.upstream@[i]@) {
        Some("invalid upstream IP address"@)
    } else if c.dhcp_start == 0 || c.dhcp_limit == 0 || c.dhcp_start + c.dhcp_limit > 255 {
        Some("invalid DHCP address range"@)
    } else if c.dhcp_lease_hours == 0 {
        Some("DHCP lease duration must be positive"@)
    } else if c.local_domain is Some && !hostname_ok(c.local_domain->0@) {
        Some("invalid local domain"@)
    } else {
        records_rejection(records_view(c.custom_records@))
    }
}

/// Validates resolver and DHCP settings and every custom record.
pub fn validate_dns_config(config: &DnsConfig) -> (r: Result<(), DomainError>)
    ensures
        rejected_as(r, dns_config_rejection(*config)),
{
    let mut i: usize = 0;
    while i < config.upstream.len()
        invariant
            i <= config.upstream.len(),
            forall|j: int| 0 <= j < i ==> is_ip_addr_spec(#[trigger] config.upstream@[j]@),
        decreases config.upstream.len() - i,
    {
        if !is_ip_addr(config.upstream[i].as_str()) {
            return Err(invalid_argument("invalid upstream IP address"));
        }
        i += 1;
    }
    let dhcp_end = config.dhcp_start.saturating_add(config.dhcp_limit);
    if config.dhcp_start == 0 || config.dhcp_limit == 0 || dhcp_end > 255 {
        return Err(invalid_argument("invalid DHCP address range"));
    }
    if config.dhcp_lease_hours == 0 {
        return Err(invalid_argument("DHCP lease duration must be positive"));
    }
    if let Some(domain) = &config.local_domain {
        if !is_valid_hostname(domain.as_str()) {
            return Err(invalid_argument("invalid local domain"));
        }
    }
    let ghost rs = records_view(config.custom_records@);
    let mut k: usize = 0;
    assert(rs.skip(0) =~= rs);
    assert(dns_config_rejection(*config) == records_rejection(rs));
    while k < config.custom_records.len()
        invariant
            rs == records_view(config.custom_records@),
            dns_config_rejection(*config) == records_rejection(rs),
            k <= config.custom_records.len(),
            records_rejection(rs) == records_rejection(rs.skip(k as int)),
        decreases config.custom_records.len() - k,
    {
        assert(rs.skip(k as int)[0] == config.custom_records@[k as int]@);
        assert(rs.skip(k as int).drop_first() =~= rs.skip(k + 1));
        match validate_record(&config.custom_records[k]) {
            Ok(()) => {},
            Err(e) => {
                assert(records_rejection(rs.skip(k as int)) == record_rejection(
                    config.custom_records@[k as int]@,
                ));
                return Err(e);
            },
        }
        k += 1;
    }
    Ok(())
}

/// A record clashes with an existing one: same identifier, or the same host name up to ASCII
/// case.
pub open spec fn clashes(existing: RecordView, r: RecordView) -> bool {
    existing.id == r.id || eq_ignore_case_spec(existing.hostname, r.hostname)
}

/// `dns_add_record`: the records after adding `r`, or why it is refused.
pub fn with_record_added(records: &Vec<DnsRecord>, record: DnsRecord) -> (r: Result<
    Vec<DnsRecord>,
    DomainError,
>)
    ensures
        match r {
            Ok(v) => {
                &&& record_rejection(record@) is None
                &&& forall|i: int| 0 <= i < records@.len() ==> !clashes(#[trigger] records@[i]@, record@)
                &&& records_view(v@) == records_view(records@).push(record@)
            },
            Err(e) => if record_rejection(record@) is Some {
                is_plain_error(
                    e,
                    ErrorCode::InvalidArgument,
                    ErrorStage::Validate,
                    record_rejection(record@)->0,
                )
            } else {
                &&& exists|i: int| 0 <= i < records@.len() && clashes(#[trigger] records@[i]@, record@)
                &&& is_plain_error(e, ErrorCode::InvalidArgument, ErrorStage::Validate, "duplicate DNS record"@)
            },
        },
{
    match validate_record(&record) {
        Ok(()) => {},
        Err(e) => {
            assert(record_rejection(record@) is Some);
            return Err(e);
        },
    }
    let mut out: Vec<DnsRecord> = Vec::new();
    let mut i: usize = 0;
    while i < records.len()
        invariant
            record_rejection(record@) is None,
            i <= records.len(),
            forall|j: int| 0 <= j < i ==> !clashes(#[trigger] records@[j]@, record@),
            records_view(out@) == records_view(records@.take(i as int)),
        decreases records.len() - i,
    {
        let current = &records[i];
        if current.id == record.id || eq_ignore_ascii_case(
            current.hostname.as_str(),
            record.hostname.as_str(),
        ) {
            assert(clashes(records@[i as int]@, record@));
            return Err(invalid_argument("duplicate DNS record"));
        }
        let ghost before = out@;
        out.push(current.copy());
        assert(records_view(out@) =~= records_view(before).push(records@[i as int]@));
        assert(records@.take(i + 1) =~= records@.take(i as int).push(records@[i as int]));
        assert(records_view(records@.take(i + 1)) =~= records_view(records@.take(i as int)).push(
            records@[i as int]@,
        ));
        i += 1;
    }
    assert(records@.take(records.len() as int) =~= records@);
    out.push(record);
    assert(records_view(out@) =~= records_view(records@).push(out@.last()@));
    Ok(out)
}

/// The records whose identifier is not `id`.
pub open spec fn without_id(rs: Seq<RecordView>, id: Seq<char>) -> Seq<RecordView> {
    rs.filter(|r: RecordView| r.id != id)
}

/// `dns_remove_record`: the records without those identified by `id`, or why nothing is
/// removed.
pub fn with_record_removed(records: &Vec<DnsRecord>, id: &str) -> (r: Result<Vec<DnsRecord>, DomainError>)
    ensures
        match r {
            Ok(v) => {
                &&& identifier_ok(id@)
                &&& records_view(v@) == without_id(records_view(records@), id@)
                &&& v@.len() < records@.len()
            },
            Err(e) => if !identifier_ok(id@) {
                is_plain_error(e, ErrorCode::InvalidArgument, ErrorStage::Validate, "invalid DNS record ID"@)
            } else {
                &&& without_id(records_view(records@), id@) == records_view(records@)
                &&& is_plain_error(e, ErrorCode::NotFound, ErrorStage::Validate, "DNS record not found"@)
            },
        },
{
    validate_identifier(id)?;
    let ghost rs = records_view(records@);
    let mut out: Vec<DnsRecord> = Vec::new();
    let mut i: usize = 0;
    while i < records.len()
        invariant
            rs == records_view(records@),
            i <= records.len(),
            records_view(out@) == without_id(rs.take(i as int), id@),
            out@.len() <= i,
        decreases records.len() - i,
    {
        assert(rs.take(i + 1) =~= rs.take(i as int).push(records@[i as int]@));
        proof {
            lemma_without_push(rs.take(i as int), records@[i as int]@, id@);
        }
        if !crate::text::str_eq(records[i].id.as_str(), id) {
            out.push(records[i].copy());
            assert(records_view(out@) =~= records_view(out@.drop_last()).push(out@.last()@));
        }
        i += 1;
    }
    assert(rs.take(records.len() as int) =~= rs);
    if out.len() == records.len() {
        proof {
            lemma_filter_same_len(rs, id@);
        }
        return Err(
            DomainError::from_message(ErrorCode::NotFound, ErrorStage::Validate, "DNS record not found"),
        );
    }
    Ok(out)
}

proof fn lemma_without_push(rs: Seq<RecordView>, r: RecordView, id: Seq<char>)
    ensures
        without_id(rs.push(r), id) == if r.id != id {
            without_id(rs, id).push(r)
        } else {
            without_id(rs, id)
        },
{
    reveal(Seq::filter);
    assert(rs.push(r).drop_last() =~= rs);
}

proof fn lemma_filter_same_len(rs: Seq<RecordView>, id: Seq<char>)
    requires
        without_id(rs, id).len() == rs.len(),
    ensures
        without_id(rs, id) == rs,
    decreases rs.len(),
{
    reveal(Seq::filter);
    if rs.len() > 0 {
        let p = rs.drop_last();
        lemma_filter_len_bound(p, id);
        if rs.last().id == id {
            assert(without_id(rs, id) == without_id(p, id));
        } else {
            lemma_filter_same_len(p, id);
        }
        assert(rs =~= p.push(rs.last()));
    }
}

proof fn lemma_filter_len_bound(rs: Seq<RecordView>, id: Seq<char>)
    ensures
        without_id(rs, id).len() <= rs.len(),
    decreases rs.len(),
{
    reveal(Seq::filter);
    if rs.len() > 0 {
        lemma_filter_len_bound(rs.drop_last(), id);
    }
}

/// Removing the record just added gives back the records as they were.
pub proof fn lemma_remove_undoes_add(before: Seq<RecordView>, r: RecordView)
    requires
        forall|i: int| 0 <= i < before.len() ==> #[trigger] before[i].id != r.id,
    ensures
        without_id(before.push(r), r.id) == before,
    decreases before.len(),
{
    reveal(Seq::filter);
    assert(before.push(r).drop_last() =~= before);
    lemma_filter_keeps_all(before, r.id);
}

proof fn lemma_filter_keeps_all(rs: Seq<RecordView>, id: Seq<char>)
    requires
        forall|i: int| 0 <= i < rs.len() ==> #[trigger] rs[i].id != id,
    ensures
        without_id(rs, id) == rs,
    decreases rs.len(),
{
    reveal(Seq::filter);
    if rs.len() > 0 {
        let p = rs.drop_last();
        assert forall|i: int| 0 <= i < p.len() implies #[trigger] p[i].id != id by {
            assert(p[i] == rs[i]);
        }
        lemma_filter_keeps_all(p, id);
        assert(rs =~= p.push(rs.last()));
    }
}

} // verus!

verus! {

impl DnsConfig {
    /// OpenWrt's stock LAN settings: DHCP from .100 for 150 hosts, 12-hour leases, domain `lan`.
    pub fn stock() -> (r: DnsConfig)
        ensures
            r.upstream@.len() == 0,
            r.dhcp_start == 100,
            r.dhcp_limit == 150,
            r.dhcp_lease_hours == 12,
            r.local_domain matches Some(d) && d@ == "lan"@,
            r.custom_records@.len() == 0,
    {
        DnsConfig {
            upstream: Vec::new(),
            dhcp_start: 100,
            dhcp_limit: 150,
            dhcp_lease_hours: 12,
            local_domain: Some(String::from_str("lan")),
            custom_records: Vec::new(),
        }
    }
}


/// Two DNS settings hold the same values.
pub open spec fn same_dns(a: DnsConfig, b: DnsConfig) -> bool {
    &&& a.upstream@ == b.upstream@
    &&& a.dhcp_start == b.dhcp_start
    &&& a.dhcp_limit == b.dhcp_limit
    &&& a.dhcp_lease_hours == b.dhcp_lease_hours
    &&& a.local_domain == b.local_domain
    &&& a.custom_records@ == b.custom_records@
}

/// A copy of DNS settings.
pub fn copy_dns_config(c: &DnsConfig) -> (r: DnsConfig)
    ensures
        same_dns(r, *c),
{
    let mut records: Vec<DnsRecord> = Vec::new();
    let mut i: usize = 0;
    while i < c.custom_records.len()
        invariant
            i <= c.custom_records@.len(),
            records@ == c.custom_records@.take(i as int),
        decreases c.custom_records@.len() - i,
    {
        let x = &c.custom_records[i];
        records.push(DnsRecord { id: x.id.clone(), hostname: x.hostname.clone(), ip: x.ip.clone() });
        assert(records@ =~= c.custom_records@.take(i + 1));
        i += 1;
    }
    assert(c.custom_records@.take(c.custom_records@.len() as int) =~= c.custom_records@);
    DnsConfig {
        upstream: crate::text::clone_strs(&c.upstream),
        dhcp_start: c.dhcp_start,
        dhcp_limit: c.dhcp_limit,
        dhcp_lease_hours: c.dhcp_lease_hours,
        local_domain: crate::text::clone_opt_str(&c.local_domain),
        custom_records: records,
    }
}


/// Record identifiers stay unique: adding a record whose identifier an existing record already
/// has is refused as a clash (and so answered "duplicate DNS record"), and a record added to
/// records with distinct identifiers, clashing with none of them, leaves the identifiers
/// distinct.
pub proof fn lemma_added_record_ids_distinct(records: Seq<RecordView>, record: RecordView)
    ensures
        (exists|i: int| 0 <= i < records.len() && (#[trigger] records[i]).id == record.id) ==> exists|i: int|
            0 <= i < records.len() && clashes(#[trigger] records[i], record),
        (forall|i: int, j: int| 0 <= i < j < records.len() ==> (#[trigger] records[i]).id != (#[trigger] records[j]).id)
            && (forall|i: int| 0 <= i < records.len() ==> !clashes(#[trigger] records[i], record)) ==> forall|i: int, j: int|
            0 <= i < j < records.push(record).len() ==> (#[trigger] records.push(record)[i]).id != (
            #[trigger] records.push(record)[j]).id,
{
    if exists|i: int| 0 <= i < records.len() && (#[trigger] records[i]).id == record.id {
        let i = choose|i: int| 0 <= i < records.len() && (#[trigger] records[i]).id == record.id;
        assert(clashes(records[i], record));
    }
    if (forall|i: int, j: int| 0 <= i < j < records.len() ==> (#[trigger] records[i]).id != (#[trigger] records[j]).id)
        && (forall|i: int| 0 <= i < records.len() ==> !clashes(#[trigger] records[i], record)) {
        let s = records.push(record);
        assert forall|i: int, j: int| 0 <= i < j < s.len() implies (#[trigger] s[i]).id != (#[trigger] s[j]).id by {
            if j == records.len() {
                assert(s[i] == records[i]);
                assert(!clashes(records[i], record));
            } else {
                assert(s[i] == records[i] && s[j] == records[j]);
            }
        }
    }
}

} // verus!
