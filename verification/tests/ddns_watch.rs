use unetic_core::ddns::{
    DdnsConfig, DdnsProvider, DdnsUpdate, DdnsWatcher, DuckDnsConfig, plan_ddns_update,
};

fn duck(domain: &str) -> DdnsConfig {
    DdnsConfig {
        enabled: true,
        provider: DdnsProvider::DuckDns,
        cloudflare: None,
        duckdns: Some(DuckDnsConfig { token: "tok".to_string(), domain: domain.to_string() }),
    }
}

#[test]
fn watcher_updates_once_per_settings_and_address() {
    let mut w = DdnsWatcher::new();
    let ip = Some("203.0.113.7".to_string());
    assert!(w.observe(&duck("home"), &ip));
    assert!(!w.observe(&duck("home"), &ip));
    assert!(w.observe(&duck("home"), &Some("203.0.113.8".to_string())));
    assert!(w.observe(&duck("cabin"), &Some("203.0.113.8".to_string())));
}

#[test]
fn watcher_waits_for_an_address() {
    let mut w = DdnsWatcher::new();
    assert!(!w.observe(&duck("home"), &None));
    assert!(w.last_request.is_none());
    assert!(w.observe(&duck("home"), &Some("203.0.113.7".to_string())));
    assert!(!w.observe(&duck("home"), &None));
    assert!(w.last_request.is_some());
}

#[test]
fn disabling_forgets_the_last_request() {
    let mut w = DdnsWatcher::new();
    let ip = Some("203.0.113.7".to_string());
    assert!(w.observe(&duck("home"), &ip));
    let mut off = duck("home");
    off.enabled = false;
    assert!(!w.observe(&off, &ip));
    assert!(w.last_request.is_none());
    assert!(w.observe(&duck("home"), &ip));
}

#[test]
fn update_goes_to_the_selected_provider() {
    match plan_ddns_update(&duck("home")) {
        DdnsUpdate::DuckDns(d) => assert_eq!(d.domain, "home"),
        other => panic!("unexpected {other:?}"),
    }
    let missing = DdnsConfig { enabled: true, provider: DdnsProvider::Cloudflare, cloudflare: None, duckdns: None };
    match plan_ddns_update(&missing) {
        DdnsUpdate::Missing(m) => assert_eq!(m, "missing cloudflare config"),
        other => panic!("unexpected {other:?}"),
    }
    let missing_duck = DdnsConfig { enabled: true, provider: DdnsProvider::DuckDns, cloudflare: None, duckdns: None };
    match plan_ddns_update(&missing_duck) {
        DdnsUpdate::Missing(m) => assert_eq!(m, "missing duckdns config"),
        other => panic!("unexpected {other:?}"),
    }
    assert!(matches!(plan_ddns_update(&DdnsConfig::default()), DdnsUpdate::Nothing));
}

#[test]
fn fresh_traffic_state_and_sampler_hold_nothing() {
    let sampler = unetic_core::traffic::TrafficSampler::new();
    let zero = unetic_core::traffic::BucketAccumulator::empty();
    for b in [sampler.wan_buckets, sampler.lan_buckets, sampler.all_buckets] {
        assert_eq!(b.one_minute, zero);
        assert_eq!(b.seven_days, zero);
    }
    let state = unetic_core::traffic::TrafficState::new();
    assert!(state.wan.charts.one_minute.is_empty());
    assert!(state.lan.source.charts.seven_days.is_empty());
    assert!(state.all.charts.one_hour.is_empty());
    assert!(!state.lan.hw_offload_enabled);
}
