use unetic_core::bridge::Bridge;
use unetic_core::config_edit::{dns_add_record, dns_remove_record, dns_set};
use unetic_core::device::Device;
use unetic_core::dns::{DnsConfig, DnsRecord};
use unetic_core::errors::ErrorCode;
use unetic_core::keyed::Keyed;
use unetic_core::mesh::{
    KnownExtender, PairReply, PendingExtender, answer_pair_request, authenticate, mesh_add_pending,
    mesh_pair_accept, mesh_pair_accept_with_token, mesh_pair_reject, take_approved_pairing_token,
};
use unetic_core::order::text_less;
use unetic_core::state::DesiredConfig;
use unetic_core::subscription::{SubscribeError, SubscriptionManager, lifetime_ms};
use unetic_core::text::decimal;
use unetic_core::text_map::TextMap;
use unetic_core::timing::Timing;
use unetic_core::tools::{ping_output, ping_target};
use unetic_core::traffic::{
    MAX_CHART_POINTS, TrafficBytes, TrafficPoint, TrafficRate, push_point, rate,
};
use unetic_core::wan::WanDesired;
use unetic_core::wifi::WifiNetworkConfig;

fn pending(mac: &str) -> PendingExtender {
    PendingExtender { mac: mac.into(), model: "X1".into(), pairing_key: "k".into() }
}

#[test]
fn subscriptions_live_for_their_ttl() {
    let mut subs = SubscriptionManager::new();
    let id = subs.create(" 1 \n", 5, 1_000);
    assert_eq!(id, "sub-1");
    assert!(subs.has_active_subscribers(1_000 + 5 * 60_000 - 1));
    assert!(!subs.has_active_subscribers(1_000 + 5 * 60_000));
    assert_eq!(subs.continue_sub("sub-1", 5, 0), Err(SubscribeError::NotFound));
    assert_eq!(SubscribeError::NotFound.code(), 1);
    assert_eq!(SubscribeError::InvalidTtl.code(), 2);
}

#[test]
fn subscription_ttl_is_capped_and_can_be_extended_or_cancelled() {
    let mut subs = SubscriptionManager::new();
    let a = subs.create("a", 500, 0);
    assert_eq!(a, "sub-a");
    assert!(subs.has_active_subscribers(99 * 60_000 - 1));
    assert!(subs.continue_sub("sub-a", 1, 99 * 60_000 - 1).is_ok());
    assert!(subs.has_active_subscribers(99 * 60_000 + 59_000));
    assert!(subs.cancel("sub-a").is_ok());
    assert_eq!(subs.cancel("sub-a"), Err(SubscribeError::NotFound));
    assert_eq!(subs.continue_sub("sub-a", 1, 0), Err(SubscribeError::NotFound));
    assert!(!subs.has_active_subscribers(0));
}

#[test]
fn subscription_lifetime_fits_the_clock() {
    assert_eq!(lifetime_ms(0), 0);
    assert_eq!(lifetime_ms(7), 420_000);
    assert_eq!(lifetime_ms(99), 5_940_000);
    assert_eq!(lifetime_ms(u32::MAX), 5_940_000);
    let mut subs = SubscriptionManager::new();
    let late = u64::MAX - 60_000;
    let id = subs.create("z", 1, late);
    assert_eq!(id, "sub-z");
    assert!(subs.has_active_subscribers(u64::MAX - 1));
    assert!(!subs.has_active_subscribers(u64::MAX));
    let zero = subs.create("zero", 0, 5);
    assert!(!subs.has_active_subscribers(5));
    assert_eq!(subs.cancel(&zero), Err(SubscribeError::NotFound));
}

#[test]
fn pending_extenders_are_unique_by_mac_and_capped() {
    let mut list = Vec::new();
    assert!(mesh_add_pending(&mut list, pending("AA:BB:CC:00:00:01")));
    assert!(!mesh_add_pending(&mut list, pending("aa:bb:cc:00:00:01")));
    for i in 0..60 {
        let mac = format!("00:00:00:00:00:{:02x}", i);
        assert!(mesh_add_pending(&mut list, pending(&mac)));
    }
    assert_eq!(list.len(), 50);
    assert_eq!(list[49].mac, "00:00:00:00:00:3b");
    assert_eq!(list[0].mac, "00:00:00:00:00:0a");
}

#[test]
fn accepting_a_pending_extender_gives_it_a_fresh_token() {
    let mut list = vec![pending("m1"), pending("m2")];
    let mut known: Vec<KnownExtender> = Vec::new();
    mesh_pair_accept(&mut list, &mut known, "m2", [0u8; 16]).unwrap();
    assert_eq!(list.len(), 1);
    assert_eq!(known.len(), 1);
    assert_eq!(known[0].mac, "m2");
    assert_eq!(known[0].ip, "");
    assert_eq!(known[0].auth_token, "00000000-0000-4000-8000-000000000000");
    mesh_pair_accept(&mut list, &mut known, "m1", [0xffu8; 16]).unwrap();
    assert_eq!(known[1].auth_token, "ffffffff-ffff-4fff-bfff-ffffffffffff");
    let err = mesh_pair_accept(&mut list, &mut known, "m3", [1u8; 16]).unwrap_err();
    assert_eq!(err, "Extender not found in pending list");
}

#[test]
fn accepting_with_a_token_pairs_under_that_token() {
    let mut list = vec![pending("m1"), pending("m2"), pending("m3")];
    let mut known: Vec<KnownExtender> = Vec::new();
    mesh_pair_accept_with_token(&mut list, &mut known, "m2", "tok-2".into()).unwrap();
    assert_eq!(list.iter().map(|p| p.mac.as_str()).collect::<Vec<_>>(), vec!["m1", "m3"]);
    assert_eq!(known[0].mac, "m2");
    assert_eq!(known[0].auth_token, "tok-2");
    let err = mesh_pair_accept_with_token(&mut list, &mut known, "m2", "again".into()).unwrap_err();
    assert_eq!(err, "Extender not found in pending list");
    assert_eq!(known.len(), 1);
}

#[test]
fn rejecting_drops_every_request_of_that_mac() {
    let mut list = vec![pending("m1"), pending("m2"), pending("m1")];
    mesh_pair_reject(&mut list, "m1");
    assert_eq!(list.len(), 1);
    assert_eq!(list[0].mac, "m2");
}

#[test]
fn an_approved_pairing_hands_out_the_token_once() {
    let mut approved: Keyed<String> = Keyed::new();
    approved.insert("m1".into(), "key".into());
    let known = vec![KnownExtender {
        mac: "m1".into(),
        model: "X1".into(),
        ip: "10.0.0.2".into(),
        auth_token: "tok".into(),
    }];
    assert_eq!(take_approved_pairing_token(&mut approved, &known, "m1", "wrong"), None);
    assert_eq!(take_approved_pairing_token(&mut approved, &known, "m1", "key"), Some("tok".to_string()));
    assert_eq!(take_approved_pairing_token(&mut approved, &known, "m1", "key"), None);
}

#[test]
fn rates_round_to_the_nearest_kib_per_second() {
    assert_eq!(rate(TrafficBytes { rx: 1024, tx: 0 }, 1000), TrafficRate { rx_kbps: 1, tx_kbps: 0 });
    assert_eq!(rate(TrafficBytes { rx: 1024, tx: 512 }, 1001).rx_kbps, 1);
    assert_eq!(rate(TrafficBytes { rx: 1535, tx: 1536 }, 1000), TrafficRate { rx_kbps: 1, tx_kbps: 2 });
    let expected = ((u64::MAX as u128) * 1000 + 512) / 1024;
    assert_eq!(rate(TrafficBytes { rx: u64::MAX, tx: 0 }, 1).rx_kbps as u128, expected);
}

#[test]
fn charts_keep_the_latest_points() {
    let mut points = Vec::new();
    for i in 0..(MAX_CHART_POINTS as u64 + 5) {
        push_point(&mut points, TrafficPoint { at_ms: i, rx_kbps: i, tx_kbps: 0 });
    }
    assert_eq!(points.len(), MAX_CHART_POINTS);
    assert_eq!(points[0].at_ms, 5);
    assert_eq!(points[MAX_CHART_POINTS - 1].at_ms, MAX_CHART_POINTS as u64 + 4);
}

#[test]
fn text_order_and_decimal_match_std() {
    let words = ["", "a", "ab", "b", "radio0", "radio1", "radio10", "Radio", "é", "z"];
    for a in words.iter() {
        for b in words.iter() {
            assert_eq!(text_less(a, b), a < b, "{a} < {b}");
        }
    }
    for n in [0u64, 7, 10, 99, 100, 4096, u64::MAX] {
        assert_eq!(decimal(n), n.to_string());
    }
}

#[test]
fn text_map_is_sorted_and_replaces_values() {
    let mut m = TextMap::new();
    m.insert("radio1".into(), "B".into());
    m.insert("radio0".into(), "A".into());
    m.insert("radio1".into(), "C".into());
    assert_eq!(m.len(), 2);
    assert_eq!(m.get("radio1").map(String::as_str), Some("C"));
    assert_eq!(m.get("radio2"), None);
    assert_eq!(
        m.copy().pairs(),
        vec![("radio0".to_string(), "A".to_string()), ("radio1".to_string(), "C".to_string())]
    );
}

#[test]
fn keyed_map_inserts_replaces_and_removes() {
    let mut k: Keyed<u64> = Keyed::new();
    assert!(k.is_empty());
    k.insert("a".into(), 1);
    k.insert("b".into(), 2);
    k.insert("a".into(), 3);
    assert_eq!(k.get("a"), Some(&3));
    assert_eq!(k.remove("a"), Some(3));
    assert!(!k.contains("a"));
    k.retain_above(2);
    assert!(k.is_empty());
}

fn config() -> DesiredConfig {
    DesiredConfig::new(
        WifiNetworkConfig {
            ssid: "Home".into(),
            encryption: "none".into(),
            key: None,
            targets: vec!["radio0".into()],
        },
        WanDesired::default(),
    )
}

#[test]
fn dns_edits_bump_the_revision_and_undo_each_other() {
    let record = DnsRecord { id: "nas".into(), hostname: "nas.home".into(), ip: "192.168.1.5".into() };
    let added = dns_add_record(config(), record.clone()).unwrap();
    assert_eq!(added.revision, 2);
    assert_eq!(added.dns.custom_records.len(), 1);
    let dup = DnsRecord { id: "other".into(), hostname: "NAS.home".into(), ip: "192.168.1.6".into() };
    assert_eq!(dns_add_record(added.clone(), dup).unwrap_err().message, "duplicate DNS record");
    let removed = dns_remove_record(added, "nas").unwrap();
    assert_eq!(removed.revision, 3);
    assert!(removed.dns.custom_records.is_empty());
    let err = dns_remove_record(removed, "nas").unwrap_err();
    assert_eq!(err.code, ErrorCode::NotFound);
}

#[test]
fn dns_settings_are_validated() {
    let mut dns = DnsConfig::stock();
    dns.dhcp_limit = 200;
    assert_eq!(dns_set(config(), dns).unwrap_err().message, "invalid DHCP address range");
    let mut dns = DnsConfig::stock();
    dns.upstream = vec!["1.1.1.1".into(), "2606:4700::1111".into()];
    assert_eq!(dns_set(config(), dns).unwrap().revision, 2);
    let mut dns = DnsConfig::stock();
    dns.upstream = vec!["one".into()];
    assert_eq!(dns_set(config(), dns).unwrap_err().message, "invalid upstream IP address");
}

#[test]
fn ping_checks_its_host_and_joins_its_output() {
    assert_eq!(ping_target("  example.org \n").unwrap(), "example.org");
    assert_eq!(ping_output("", "err").output, "err");
    assert_eq!(ping_output("out", "").output, "out");
    assert_eq!(ping_output("out", "err").output, "outerr");
}

#[test]
fn small_records_keep_their_fields() {
    let d = Device::new("00:11:22:33:44:55", "192.168.1.100", Some("my-laptop".into()), "Wireless");
    assert_eq!(d.mac, "00:11:22:33:44:55");
    assert_eq!(d.hostname.as_deref(), Some("my-laptop"));
    let t = Timing::default();
    assert_eq!(t.verify_timeout_ms, 90_000);
    assert_eq!(t.rpcd_rollback_timeout_secs, 120);
    let err = Bridge::load().err().unwrap();
    assert_eq!(err.message(), "the OpenWrt ubus server is only available on musl targets");
}

#[test]
fn pairing_requests_are_answered_by_lower_case_mac() {
    let mut approved: Keyed<String> = Keyed::new();
    let mut waiting: Vec<PendingExtender> = Vec::new();
    let known = vec![KnownExtender {
        mac: "aa:bb:cc:dd:ee:ff".into(),
        model: "X1".into(),
        ip: "".into(),
        auth_token: "tok".into(),
    }];
    let reply = answer_pair_request(&mut approved, &known, &mut waiting, "AA:BB:CC:DD:EE:FF", "X1".into(), "k".into());
    assert_eq!(reply, PairReply::Pending);
    assert_eq!(waiting.len(), 1);
    assert_eq!(waiting[0].mac, "aa:bb:cc:dd:ee:ff");
    approved.insert("aa:bb:cc:dd:ee:ff".into(), "k".into());
    let reply = answer_pair_request(&mut approved, &known, &mut waiting, "AA:bb:CC:dd:EE:ff", "X1".into(), "k".into());
    assert_eq!(reply, PairReply::Accepted("tok".into()));
    assert_eq!(waiting.len(), 1);
    assert_eq!(authenticate(&known, "tok"), Some("aa:bb:cc:dd:ee:ff".to_string()));
    assert_eq!(authenticate(&known, "nope"), None);
}

#[test]
fn worker_failures_carry_the_operation() {
    let e = unetic_core::wifi_ops::worker_spawn_error("no threads", "op-9", Some("req-9"));
    assert_eq!(e.code, ErrorCode::Internal);
    assert_eq!(e.message, "failed to start transaction worker: no threads");
    assert_eq!(e.operation_id.as_deref(), Some("op-9"));
    assert_eq!(e.request_id.as_deref(), Some("req-9"));
}

#[test]
fn identifiers_join_prefix_and_unique_part() {
    assert_eq!(unetic_core::ids::make_id("op", " 7f3c \n"), "op-7f3c");
    assert_eq!(unetic_core::ids::fallback_unique(42, 1_700), "42-1700");
}

#[test]
fn ascii_lowercase_lowers_only_ascii_letters() {
    assert_eq!(unetic_core::net::ascii_lowercase("AA:bB:Z9-Ä"), "aa:bb:z9-Ä");
    assert_eq!(unetic_core::net::ascii_lowercase(""), "");
}

#[test]
fn fresh_tokens_are_lower_case_hex_version_four() {
    let mut list = vec![pending("m1")];
    let mut known: Vec<KnownExtender> = Vec::new();
    let random = [0x12, 0x34, 0x56, 0x78, 0x9a, 0xbc, 0xde, 0xf0, 0x0f, 0xed, 0xcb, 0xa9, 0x87, 0x65, 0x43, 0x21];
    mesh_pair_accept(&mut list, &mut known, "m1", random).unwrap();
    assert_eq!(known[0].auth_token, "12345678-9abc-4ef0-8fed-cba987654321");
    let token = known[0].auth_token.as_bytes();
    for (i, b) in token.iter().enumerate() {
        if [8, 13, 18, 23].contains(&i) {
            assert_eq!(*b, b'-');
        } else {
            assert!(b.is_ascii_digit() || (b'a'..=b'f').contains(b));
        }
    }
    assert_eq!(token[14], b'4');
    assert!([b'8', b'9', b'a', b'b'].contains(&token[19]));
}
