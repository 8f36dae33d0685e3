//! Mesh extenders: pairing requests, paired extenders and their authentication.

use vstd::prelude::*;
use vstd::string::*;

use crate::keyed::Keyed;
use crate::net::{ascii_lower, ascii_lowercase, eq_ignore_ascii_case, eq_ignore_case_spec};
use crate::errors::opt_str_view;
use crate::reconcile::copy_channels;
use crate::state::WifiDesired;
use crate::text::{str_eq, strs_eq};
use crate::wan::WanProtocol;
use crate::wifi::{MeshBackhaulConfig, RadioChannelConfig, same_wifi_settings};

verus! {

/// An extender that asked to pair and awaits approval.
#[derive(Debug, Clone)]
pub struct PendingExtender {
    pub mac: String,
    pub model: String,
    pub pairing_key: String,
}

/// A paired extender and the token it authenticates with.
#[derive(Debug, Clone)]
pub struct KnownExtender {
    pub mac: String,
    pub model: String,
    pub ip: String,
    pub auth_token: String,
}

/// The most pairing requests kept at once; the oldest is dropped to make room.
pub const MAX_PENDING_EXTENDERS: usize = 50;


/// A pairing request for an extender already waiting, by MAC address in any letter case.
pub open spec fn already_pending(pending: Seq<PendingExtender>, mac: Seq<char>) -> bool {
    exists|i: int| 0 <= i < pending.len() && eq_ignore_case_spec(#[trigger] pending[i].mac@, mac)
}

/// Records a pairing request. A request from an extender already waiting is ignored; when the
/// list is full the oldest request makes room. Tells whether the request was added.
pub fn mesh_add_pending(pending: &mut Vec<PendingExtender>, extender: PendingExtender) -> (added: bool)
    ensures
        added == !already_pending(old(pending)@, extender.mac@),
        !added ==> final(pending)@ == old(pending)@,
        added ==> final(pending)@ == if old(pending)@.len() >= MAX_PENDING_EXTENDERS {
            old(pending)@.drop_first().push(extender)
        } else {
            old(pending)@.push(extender)
        },
{
    let mut i: usize = 0;
    while i < pending.len()
        invariant
            i <= pending@.len(),
            pending@ == old(pending)@,
            forall|j: int| 0 <= j < i ==> !eq_ignore_case_spec(#[trigger] pending@[j].mac@, extender.mac@),
        decreases pending@.len() - i,
    {
        if eq_ignore_ascii_case(pending[i].mac.as_str(), extender.mac.as_str()) {
            return false;
        }
        i += 1;
    }
    if pending.len() >= MAX_PENDING_EXTENDERS {
        pending.remove(0);
    }
    pending.push(extender);
    true
}

/// A lower-case hexadecimal digit.
pub open spec fn is_lower_hex(c: char) -> bool {
    ('0' <= c <= '9') || ('a' <= c <= 'f')
}

/// The lower-case hexadecimal digit of a nibble.
pub open spec fn hex_char(n: u8) -> char {
    if n < 10 {
        ((48 + n) as u32) as char
    } else {
        ((87 + n) as u32) as char
    }
}

/// Byte `k` of a version-4 UUID made from `bytes`: the version nibble of byte 6 is set to 4 and
/// the two top bits of byte 8 to the RFC 4122 variant.
pub open spec fn uuid_v4_byte(bytes: Seq<u8>, k: int) -> u8 {
    if k == 6 {
        (bytes[6] & 0x0f) | 0x40
    } else if k == 8 {
        (bytes[8] & 0x3f) | 0x80
    } else {
        bytes[k]
    }
}

/// Character `i` of the hyphenated lower-case text of a version-4 UUID made from `bytes`: eight,
/// four, four, four and twelve hex digits, two per byte with the high nibble first, joined by
/// hyphens.
pub open spec fn uuid_v4_char(bytes: Seq<u8>, i: int) -> char {
    if i == 8 || i == 13 || i == 18 || i == 23 {
        '-'
    } else {
        let d = if i < 8 {
            i
        } else if i < 13 {
            i - 1
        } else if i < 18 {
            i - 2
        } else if i < 23 {
            i - 3
        } else {
            i - 4
        };
        let b = uuid_v4_byte(bytes, d / 2);
        hex_char(if d % 2 == 0 { b >> 4 } else { b & 0x0f })
    }
}

/// The hyphenated lower-case text of the version-4 UUID made from sixteen random bytes.
pub open spec fn uuid_v4_text(bytes: Seq<u8>) -> Seq<char> {
    Seq::new(36, |i: int| uuid_v4_char(bytes, i))
}

/// The authentication token made from sixteen random bytes: the version-4 UUID they give, in
/// its hyphenated lower-case text.
///
/// Calls `uuid::Builder::from_random_bytes`, which sets the version and variant bits and cannot
/// fail, then formats the UUID with `Display`, which writes each byte as two lower-case hex
/// digits and puts hyphens after the fourth, sixth, eighth and tenth byte.
#[verifier::external_body]
fn uuid_v4_token(random: [u8; 16]) -> (r: String)
    ensures
        r@ == uuid_v4_text(random@),
{
    uuid::Builder::from_random_bytes(random).into_uuid().to_string()
}

/// A token made from random bytes has the form of a version-4 UUID: 36 characters, hyphens at
/// positions 8, 13, 18 and 23, lower-case hex digits elsewhere, the version digit 4 at position
/// 14 and a variant digit 8, 9, a or b at position 19.
pub proof fn lemma_uuid_v4_text_form(bytes: Seq<u8>)
    requires
        bytes.len() == 16,
    ensures
        uuid_v4_text(bytes).len() == 36,
        uuid_v4_text(bytes)[8] == '-' && uuid_v4_text(bytes)[13] == '-' && uuid_v4_text(bytes)[18] == '-'
            && uuid_v4_text(bytes)[23] == '-',
        forall|i: int|
            0 <= i < 36 && i != 8 && i != 13 && i != 18 && i != 23 ==> is_lower_hex(#[trigger] uuid_v4_text(bytes)[i]),
        uuid_v4_text(bytes)[14] == '4',
        uuid_v4_text(bytes)[19] == '8' || uuid_v4_text(bytes)[19] == '9' || uuid_v4_text(bytes)[19] == 'a'
            || uuid_v4_text(bytes)[19] == 'b',
{
    assert forall|n: u8| (#[trigger] (n & 0x0f)) < 16 by {
        assert((n & 0x0f) < 16) by (bit_vector);
    }
    assert forall|n: u8| (#[trigger] (n >> 4)) < 16 by {
        assert((n >> 4) < 16) by (bit_vector);
    }
    assert forall|i: int| 0 <= i < 36 && i != 8 && i != 13 && i != 18 && i != 23 implies is_lower_hex(
        #[trigger] uuid_v4_text(bytes)[i],
    ) by {
        let c = uuid_v4_char(bytes, i);
        let d = if i < 8 {
            i
        } else if i < 13 {
            i - 1
        } else if i < 18 {
            i - 2
        } else if i < 23 {
            i - 3
        } else {
            i - 4
        };
        let b = uuid_v4_byte(bytes, d / 2);
        let n = if d % 2 == 0 { b >> 4 } else { b & 0x0f };
        assert(n < 16);
    }
    let b6 = bytes[6];
    assert(((b6 & 0x0f) | 0x40) >> 4 == 4u8) by (bit_vector);
    let b8 = bytes[8];
    let v = ((b8 & 0x3f) | 0x80) >> 4;
    assert(8 <= v < 12) by (bit_vector)
        requires
            v == ((b8 & 0x3f) | 0x80) >> 4,
    ;
}

/// The index of the first pending request with exactly this MAC address.
pub open spec fn pending_index(pending: Seq<PendingExtender>, mac: Seq<char>) -> int
    decreases pending.len(),
{
    if pending.len() == 0 {
        -1
    } else if pending[0].mac@ == mac {
        0
    } else {
        let i = pending_index(pending.drop_first(), mac);
        if i < 0 {
            -1
        } else {
            i + 1
        }
    }
}

proof fn lemma_pending_index(pending: Seq<PendingExtender>, mac: Seq<char>, k: int)
    requires
        0 <= k <= pending.len(),
        forall|j: int| 0 <= j < k ==> #[trigger] pending[j].mac@ != mac,
        k == pending.len() || pending[k].mac@ == mac,
    ensures
        pending_index(pending, mac) == if k == pending.len() {
            -1
        } else {
            k
        },
    decreases k,
{
    if k > 0 {
        let p = pending.drop_first();
        assert forall|j: int| 0 <= j < k - 1 implies #[trigger] p[j].mac@ != mac by {
            assert(p[j] == pending[j + 1]);
        }
        if k < pending.len() {
            assert(p[k - 1] == pending[k]);
        }
        lemma_pending_index(p, mac, k - 1);
    }
}

fn find_pending(pending: &Vec<PendingExtender>, mac: &str) -> (r: Option<usize>)
    ensures
        match r {
            Some(i) => i < pending@.len() && i == pending_index(pending@, mac@),
            None => pending_index(pending@, mac@) == -1,
        },
{
    let mut i: usize = 0;
    while i < pending.len()
        invariant
            i <= pending@.len(),
            forall|j: int| 0 <= j < i ==> #[trigger] pending@[j].mac@ != mac@,
        decreases pending@.len() - i,
    {
        if str_eq(pending[i].mac.as_str(), mac) {
            proof {
                lemma_pending_index(pending@, mac@, i as int);
            }
            return Some(i);
        }
        i += 1;
    }
    proof {
        lemma_pending_index(pending@, mac@, i as int);
    }
    None
}

/// Approves the pending extender with this MAC address, pairing it under `token`: it leaves the
/// pending list and joins the paired extenders with that token and no address yet. An unknown
/// MAC is refused.
pub fn mesh_pair_accept_with_token(
    pending: &mut Vec<PendingExtender>,
    extenders: &mut Vec<KnownExtender>,
    mac: &str,
    token: String,
) -> (r: Result<(), String>)
    ensures
        pending_index(old(pending)@, mac@) < 0 ==> final(pending)@ == old(pending)@ && final(extenders)@
            == old(extenders)@ && (r matches Err(m) && m@ == "Extender not found in pending list"@),
        pending_index(old(pending)@, mac@) >= 0 ==> ({
            let i = pending_index(old(pending)@, mac@);
            let p = old(pending)@[i];
            &&& r is Ok
            &&& final(pending)@ == old(pending)@.remove(i)
            &&& final(extenders)@.len() == old(extenders)@.len() + 1
            &&& final(extenders)@.drop_last() == old(extenders)@
            &&& final(extenders)@.last().mac == p.mac
            &&& final(extenders)@.last().model == p.model
            &&& final(extenders)@.last().ip@ == Seq::<char>::empty()
            &&& final(extenders)@.last().auth_token == token
        }),
{
    match find_pending(pending, mac) {
        None => Err(String::from_str("Extender not found in pending list")),
        Some(i) => {
            let p = pending.remove(i);
            extenders.push(KnownExtender { mac: p.mac, model: p.model, ip: String::new(), auth_token: token });
            proof {
                assert(extenders@.drop_last() =~= old(extenders)@);
            }
            Ok(())
        },
    }
}

/// Approves the pending extender with this MAC address: it leaves the pending list and joins
/// the paired extenders with no address yet and a token made from sixteen fresh random bytes.
/// An unknown MAC is refused.
pub fn mesh_pair_accept(
    pending: &mut Vec<PendingExtender>,
    extenders: &mut Vec<KnownExtender>,
    mac: &str,
    random: [u8; 16],
) -> (r: Result<(), String>)
    ensures
        pending_index(old(pending)@, mac@) < 0 ==> final(pending)@ == old(pending)@ && final(extenders)@
            == old(extenders)@ && (r matches Err(m) && m@ == "Extender not found in pending list"@),
        pending_index(old(pending)@, mac@) >= 0 ==> ({
            let i = pending_index(old(pending)@, mac@);
            let e = final(extenders)@.last();
            &&& r is Ok
            &&& final(pending)@ == old(pending)@.remove(i)
            &&& final(extenders)@.len() == old(extenders)@.len() + 1
            &&& final(extenders)@.drop_last() == old(extenders)@
            &&& e.mac == old(pending)@[i].mac
            &&& e.model == old(pending)@[i].model
            &&& e.ip@ == Seq::<char>::empty()
            &&& e.auth_token@ == uuid_v4_text(random@)
        }),
{
    if find_pending(pending, mac).is_none() {
        return Err(String::from_str("Extender not found in pending list"));
    }
    let token = uuid_v4_token(random);
    mesh_pair_accept_with_token(pending, extenders, mac, token)
}

proof fn lemma_filter_step<A>(s: Seq<A>, p: spec_fn(A) -> bool, x: A)
    ensures
        s.push(x).filter(p) == if p(x) {
            s.filter(p).push(x)
        } else {
            s.filter(p)
        },
{
    reveal(Seq::filter);
    assert(s.push(x).drop_last() =~= s);
}

/// Whether a request comes from another MAC address than `mac`.
pub open spec fn other_mac(mac: Seq<char>) -> spec_fn(PendingExtender) -> bool {
    |e: PendingExtender| e.mac@ != mac
}

/// Drops every pending request with exactly this MAC address.
pub fn mesh_pair_reject(pending: &mut Vec<PendingExtender>, mac: &str)
    ensures
        final(pending)@ == old(pending)@.filter(other_mac(mac@)),
{
    let mut kept: Vec<PendingExtender> = Vec::new();
    let mut rest: Vec<PendingExtender> = Vec::new();
    std::mem::swap(&mut rest, pending);
    let ghost all = rest@;
    let n = rest.len();
    let mut i: usize = 0;
    while rest.len() > 0
        invariant
            i <= all.len(),
            all.len() <= usize::MAX,
            i + rest@.len() == all.len(),
            rest@ == all.subrange(i as int, all.len() as int),
            kept@ == all.take(i as int).filter(other_mac(mac@)),
        decreases rest@.len(),
    {
        let e = rest.remove(0);
        proof {
            assert(all.take(i + 1) =~= all.take(i as int).push(e));
            lemma_filter_step(all.take(i as int), other_mac(mac@), e);
        }
        let ghost before = kept@;
        let ghost ge = e;
        proof {
            assert(other_mac(mac@)(ge) == (ge.mac@ != mac@));
        }
        if !str_eq(e.mac.as_str(), mac) {
            kept.push(e);
            proof {
                assert(kept@ == before.push(ge));
            }
        }
        proof {
            assert(kept@ == all.take(i + 1).filter(other_mac(mac@)));
        }
        i += 1;
        proof {
            assert(rest@ =~= all.subrange(i as int, all.len() as int));
        }
    }
    proof {
        assert(all.take(i as int) =~= all);
    }
    *pending = kept;
}

/// Hands out the token of an extender whose pairing was approved with this key, consuming the
/// approval. A wrong or missing key yields nothing and keeps the approvals.
pub fn take_approved_pairing_token(
    approved: &mut Keyed<String>,
    extenders: &Vec<KnownExtender>,
    mac: &str,
    pairing_key: &str,
) -> (r: Option<String>)
    ensures
        !(old(approved)@.contains_key(mac@) && old(approved)@[mac@]@ == pairing_key@) ==> r is None
            && final(approved)@ == old(approved)@,
        old(approved)@.contains_key(mac@) && old(approved)@[mac@]@ == pairing_key@ ==> {
            &&& final(approved)@ == old(approved)@.remove(mac@)
            &&& match r {
                Some(t) => exists|i: int| 0 <= i < extenders@.len() && #[trigger] extenders@[i].mac@ == mac@
                    && extenders@[i].auth_token@ == t@ && forall|j: int| 0 <= j < i ==> #[trigger] extenders@[j].mac@ != mac@,
                None => forall|i: int| 0 <= i < extenders@.len() ==> #[trigger] extenders@[i].mac@ != mac@,
            }
        },
{
    let matches_key = match approved.get(mac) {
        Some(k) => str_eq(k.as_str(), pairing_key),
        None => false,
    };
    if !matches_key {
        return None;
    }
    approved.remove(mac);
    let mut i: usize = 0;
    while i < extenders.len()
        invariant
            i <= extenders@.len(),
            old(approved)@.contains_key(mac@) && old(approved)@[mac@]@ == pairing_key@,
            approved@ == old(approved)@.remove(mac@),
            forall|j: int| 0 <= j < i ==> #[trigger] extenders@[j].mac@ != mac@,
        decreases extenders@.len() - i,
    {
        if str_eq(extenders[i].mac.as_str(), mac) {
            return Some(extenders[i].auth_token.clone());
        }
        i += 1;
    }
    None
}


/// The answer to an extender asking to pair.
#[derive(Debug, Clone, PartialEq, Eq)]
pub enum PairReply {
    /// The pairing was approved: the extender gets its token.
    Accepted(String),
    /// The request waits for approval.
    Pending,
}

/// Answers a pairing request. The MAC address is taken in lower case; an approved pairing with
/// this key hands out the token, otherwise the request joins the pending list.
pub fn answer_pair_request(
    approved: &mut Keyed<String>,
    extenders: &Vec<KnownExtender>,
    pending: &mut Vec<PendingExtender>,
    mac: &str,
    model: String,
    pairing_key: String,
) -> (r: PairReply)
    ensures
        ({
            let lower = mac@.map_values(|c: char| ascii_lower(c));
            let approved_here = old(approved)@.contains_key(lower) && old(approved)@[lower]@ == pairing_key@;
            &&& approved_here ==> final(approved)@ == old(approved)@.remove(lower)
            &&& !approved_here ==> final(approved)@ == old(approved)@
            &&& (r matches PairReply::Accepted(t) ==> approved_here && exists|i: int|
                0 <= i < extenders@.len() && #[trigger] extenders@[i].mac@ == lower && extenders@[i].auth_token@ == t@)
            &&& (r is Accepted <==> approved_here && exists|i: int|
                0 <= i < extenders@.len() && #[trigger] extenders@[i].mac@ == lower)
            &&& (r is Accepted ==> final(pending)@ == old(pending)@)
            &&& (r is Pending && already_pending(old(pending)@, lower) ==> final(pending)@ == old(pending)@)
            &&& (r is Pending && !already_pending(old(pending)@, lower) ==> {
                &&& final(pending)@.last().mac@ == lower
                &&& final(pending)@.last().model == model
                &&& final(pending)@.last().pairing_key == pairing_key
                &&& final(pending)@.drop_last() == if old(pending)@.len() >= MAX_PENDING_EXTENDERS {
                    old(pending)@.drop_first()
                } else {
                    old(pending)@
                }
            })
        }),
{
    let lower = ascii_lowercase(mac);
    match take_approved_pairing_token(approved, extenders, lower.as_str(), pairing_key.as_str()) {
        Some(token) => PairReply::Accepted(token),
        None => {
            let request = PendingExtender { mac: lower, model, pairing_key };
            let ghost e = request;
            mesh_add_pending(pending, request);
            proof {
                if !already_pending(old(pending)@, e.mac@) {
                    if old(pending)@.len() >= MAX_PENDING_EXTENDERS {
                        assert(pending@.drop_last() =~= old(pending)@.drop_first());
                    } else {
                        assert(pending@.drop_last() =~= old(pending)@);
                    }
                }
            }
            PairReply::Pending
        },
    }
}

/// The extender a token authenticates: the first paired extender holding it.
pub fn authenticate(extenders: &Vec<KnownExtender>, token: &str) -> (r: Option<String>)
    ensures
        match r {
            Some(m) => exists|i: int| 0 <= i < extenders@.len() && #[trigger] extenders@[i].auth_token@ == token@
                && extenders@[i].mac@ == m@ && forall|j: int| 0 <= j < i ==> #[trigger] extenders@[j].auth_token@ != token@,
            None => forall|i: int| 0 <= i < extenders@.len() ==> #[trigger] extenders@[i].auth_token@ != token@,
        },
{
    let mut i: usize = 0;
    while i < extenders.len()
        invariant
            i <= extenders@.len(),
            forall|j: int| 0 <= j < i ==> #[trigger] extenders@[j].auth_token@ != token@,
        decreases extenders@.len() - i,
    {
        if str_eq(extenders[i].auth_token.as_str(), token) {
            return Some(extenders[i].mac.clone());
        }
        i += 1;
    }
    None
}

/// A device whose WAN is the master's LAN runs as an extender and connects to the master; any
/// other device runs as master and serves extenders.
pub fn runs_as_extender(proto: WanProtocol) -> (r: bool)
    ensures
        r == (proto == WanProtocol::Extender),
{
    proto == WanProtocol::Extender
}

/// The token an extender keeps from the master's answer to its pairing request: the one sent with
/// an "accepted" status; with any other status, none.
pub fn token_from_pair_status(status: &str, token: Option<String>) -> (r: Option<String>)
    ensures
        r == if status@ == "accepted"@ {
            token
        } else {
            None
        },
{
    if str_eq(status, "accepted") {
        token
    } else {
        None
    }
}

/// The settings of a backhaul, field by field.
pub open spec fn backhaul_view(b: Option<MeshBackhaulConfig>) -> Option<(bool, Seq<char>, Seq<char>, bool)> {
    match b {
        Some(x) => Some((x.enabled, x.backhaul_target@, x.client_target@, x.hidden)),
        None => None,
    }
}

/// The settings of a radio channel, field by field.
pub open spec fn channel_view(c: RadioChannelConfig) -> (Seq<char>, u32, Option<Seq<char>>) {
    (c.target@, c.channel, opt_str_view(c.band))
}

/// Two Wi-Fi configurations hold the same settings.
pub open spec fn same_wifi_desired(a: WifiDesired, b: WifiDesired) -> bool {
    &&& a.primary@ == b.primary@
    &&& backhaul_view(a.backhaul) == backhaul_view(b.backhaul)
    &&& a.radio_channels@.map_values(|c: RadioChannelConfig| channel_view(c))
        == b.radio_channels@.map_values(|c: RadioChannelConfig| channel_view(c))
}

fn same_backhaul(a: &Option<MeshBackhaulConfig>, b: &Option<MeshBackhaulConfig>) -> (r: bool)
    ensures
        r == (backhaul_view(*a) == backhaul_view(*b)),
{
    match (a, b) {
        (Some(x), Some(y)) => x.enabled == y.enabled && x.backhaul_target == y.backhaul_target
            && x.client_target == y.client_target && x.hidden == y.hidden,
        (None, None) => true,
        _ => false,
    }
}

fn same_channels(a: &Vec<RadioChannelConfig>, b: &Vec<RadioChannelConfig>) -> (r: bool)
    ensures
        r == (a@.map_values(|c: RadioChannelConfig| channel_view(c)) == b@.map_values(
            |c: RadioChannelConfig| channel_view(c),
        )),
{
    let ghost va = a@.map_values(|c: RadioChannelConfig| channel_view(c));
    let ghost vb = b@.map_values(|c: RadioChannelConfig| channel_view(c));
    if a.len() != b.len() {
        assert(va.len() != vb.len());
        return false;
    }
    let mut i: usize = 0;
    while i < a.len()
        invariant
            i <= a@.len(),
            a@.len() == b@.len(),
            va == a@.map_values(|c: RadioChannelConfig| channel_view(c)),
            vb == b@.map_values(|c: RadioChannelConfig| channel_view(c)),
            forall|j: int| 0 <= j < i ==> va[j] == vb[j],
        decreases a@.len() - i,
    {
        let same = a[i].target == b[i].target && a[i].channel == b[i].channel && crate::text::opt_str_eq(
            &a[i].band,
            &b[i].band,
        );
        if !same {
            assert(va[i as int] != vb[i as int]);
            return false;
        }
        i += 1;
    }
    assert(va =~= vb);
    true
}

/// A copy of a Wi-Fi configuration.
fn copy_wifi_desired(w: &WifiDesired) -> (r: WifiDesired)
    ensures
        same_wifi_desired(r, *w),
{
    let backhaul = match &w.backhaul {
        Some(b) => Some(
            MeshBackhaulConfig {
                enabled: b.enabled,
                backhaul_target: b.backhaul_target.clone(),
                client_target: b.client_target.clone(),
                hidden: b.hidden,
            },
        ),
        None => None,
    };
    WifiDesired { primary: w.primary.copy(), backhaul, radio_channels: copy_channels(&w.radio_channels) }
}

/// The master passes its Wi-Fi configuration on to its extenders when it differs from the one
/// it passed on last; it is then the last one passed on. Tells whether to pass it on.
pub fn wifi_to_broadcast(last: &mut Option<WifiDesired>, current: &WifiDesired) -> (send: bool)
    ensures
        send == !(*old(last) matches Some(l) && same_wifi_desired(l, *current)),
        send ==> (*final(last) matches Some(l) && same_wifi_desired(l, *current)),
        !send ==> *final(last) == *old(last),
{
    let unchanged = match last {
        Some(l) => {
            let p = same_wifi_settings(&l.primary, &current.primary)
                && strs_eq(&l.primary.targets, &current.primary.targets);
            p && same_backhaul(&l.backhaul, &current.backhaul) && same_channels(
                &l.radio_channels,
                &current.radio_channels,
            )
        },
        None => false,
    };
    if unchanged {
        false
    } else {
        *last = Some(copy_wifi_desired(current));
        true
    }
}


/// A copy of the pending pairing requests.
pub fn copy_pending(v: &Vec<PendingExtender>) -> (r: Vec<PendingExtender>)
    ensures
        r@ == v@,
{
    let mut out: Vec<PendingExtender> = Vec::new();
    let mut i: usize = 0;
    while i < v.len()
        invariant
            i <= v@.len(),
            out@ == v@.take(i as int),
        decreases v@.len() - i,
    {
        let p = &v[i];
        out.push(PendingExtender { mac: p.mac.clone(), model: p.model.clone(), pairing_key: p.pairing_key.clone() });
        assert(out@ =~= v@.take(i + 1));
        i += 1;
    }
    assert(v@.take(v@.len() as int) =~= v@);
    out
}


/// The master passes on every change: two Wi-Fi configurations count as the same (so nothing is
/// passed on) only if they agree on the primary network, on whether a backhaul is set and on
/// each of its fields (enabled, backhaul radio, client radio, hidden), and on each radio
/// channel; configurations that agree on all of these count as the same.
pub proof fn lemma_unchanged_means_every_field_equal(a: WifiDesired, b: WifiDesired)
    ensures
        same_wifi_desired(a, b) ==> ({
            &&& a.primary@ == b.primary@
            &&& (a.backhaul is Some <==> b.backhaul is Some)
            &&& a.backhaul matches Some(x) ==> ({
                let y = b.backhaul->0;
                &&& x.enabled == y.enabled
                &&& x.backhaul_target@ == y.backhaul_target@
                &&& x.client_target@ == y.client_target@
                &&& x.hidden == y.hidden
            })
            &&& a.radio_channels@.len() == b.radio_channels@.len()
            &&& forall|i: int| 0 <= i < a.radio_channels@.len() ==> (#[trigger] a.radio_channels@[i]).target@
                == b.radio_channels@[i].target@ && a.radio_channels@[i].channel == b.radio_channels@[i].channel
                && opt_str_view(a.radio_channels@[i].band) == opt_str_view(b.radio_channels@[i].band)
        }),
        ({
            &&& a.primary@ == b.primary@
            &&& (a.backhaul is Some <==> b.backhaul is Some)
            &&& a.backhaul matches Some(x) ==> ({
                let y = b.backhaul->0;
                &&& x.enabled == y.enabled
                &&& x.backhaul_target@ == y.backhaul_target@
                &&& x.client_target@ == y.client_target@
                &&& x.hidden == y.hidden
            })
            &&& a.radio_channels@.len() == b.radio_channels@.len()
            &&& forall|i: int| 0 <= i < a.radio_channels@.len() ==> (#[trigger] a.radio_channels@[i]).target@
                == b.radio_channels@[i].target@ && a.radio_channels@[i].channel == b.radio_channels@[i].channel
                && opt_str_view(a.radio_channels@[i].band) == opt_str_view(b.radio_channels@[i].band)
        }) ==> same_wifi_desired(a, b),
{
    let va = a.radio_channels@.map_values(|c: RadioChannelConfig| channel_view(c));
    let vb = b.radio_channels@.map_values(|c: RadioChannelConfig| channel_view(c));
    if same_wifi_desired(a, b) {
        assert forall|i: int| 0 <= i < a.radio_channels@.len() implies (#[trigger] a.radio_channels@[i]).target@
            == b.radio_channels@[i].target@ && a.radio_channels@[i].channel == b.radio_channels@[i].channel
            && opt_str_view(a.radio_channels@[i].band) == opt_str_view(b.radio_channels@[i].band) by {
            assert(va[i] == vb[i]);
        }
    }
    if a.radio_channels@.len() == b.radio_channels@.len() && forall|i: int| 0 <= i < a.radio_channels@.len() ==> (#[trigger] a.radio_channels@[i]).target@
                == b.radio_channels@[i].target@ && a.radio_channels@[i].channel == b.radio_channels@[i].channel
                && opt_str_view(a.radio_channels@[i].band) == opt_str_view(b.radio_channels@[i].band) {
        assert(va =~= vb);
    }
}

} // verus!
