use unetic_core::operation::Lifecycle;
use unetic_core::publisher::{
    StateTopic, StateUpdateBuffer, flushes_early, next_event_seq, next_future_tick, publish, send_pending,
};
use unetic_core::snapshot::{PublicState, snapshot};
use unetic_core::state::{CoreState, DesiredConfig, WanPublicState};
use unetic_core::wan::WanDesired;
use unetic_core::wifi::WifiNetworkConfig;

#[test]
fn changes_coalesce_into_one_pending_event() {
    let mut buf: StateUpdateBuffer<u32> = StateUpdateBuffer::new();
    assert_eq!(buf.queue(StateTopic::Wifi, 1, true, 0), None);
    assert_eq!(buf.queue(StateTopic::Wan, 2, true, 10), None);
    let pending = buf.pending.as_ref().unwrap();
    assert_eq!(pending.state, 2);
    assert_eq!(pending.topics, vec![StateTopic::Wifi, StateTopic::Wan]);
    assert_eq!(buf.flush(20), Some(2));
    assert_eq!(buf.last_sent_ms, Some(20));
    assert_eq!(buf.flush(30), None);
    assert_eq!(buf.last_sent_ms, Some(20));
}

#[test]
fn repeated_topic_sends_pending_event_early() {
    let mut buf: StateUpdateBuffer<u32> = StateUpdateBuffer::new();
    assert_eq!(buf.queue(StateTopic::Wifi, 1, true, 0), None);
    assert_eq!(buf.queue(StateTopic::Wifi, 2, true, 5), Some(1));
    assert_eq!(buf.last_sent_ms, Some(5));
    let pending = buf.pending.as_ref().unwrap();
    assert_eq!(pending.state, 2);
    assert_eq!(pending.topics, vec![StateTopic::Wifi]);
}

#[test]
fn early_send_waits_for_quiet_interval() {
    let mut buf: StateUpdateBuffer<u32> = StateUpdateBuffer::new();
    buf.queue(StateTopic::Wifi, 1, true, 0);
    assert_eq!(buf.flush(1_000), Some(1));
    buf.queue(StateTopic::Wifi, 2, true, 1_100);
    assert_eq!(buf.queue(StateTopic::Wifi, 3, true, 1_499), None);
    assert_eq!(buf.pending.as_ref().unwrap().state, 3);
    assert_eq!(buf.queue(StateTopic::Wifi, 4, true, 1_500), Some(3));
    assert_eq!(buf.last_sent_ms, Some(1_500));
}

#[test]
fn runtime_samples_never_send_early() {
    let mut buf: StateUpdateBuffer<u32> = StateUpdateBuffer::new();
    buf.queue(StateTopic::SystemRuntime, 1, false, 0);
    assert_eq!(buf.queue(StateTopic::SystemRuntime, 2, false, 10_000), None);
    assert_eq!(buf.pending.as_ref().unwrap().topics, vec![StateTopic::SystemRuntime]);
}

#[test]
fn event_sequence_saturates() {
    assert_eq!(next_event_seq(0), 1);
    assert_eq!(next_event_seq(41), 42);
    assert_eq!(next_event_seq(u64::MAX), u64::MAX);
}

fn published(ssid: &str) -> PublicState {
    let network = WifiNetworkConfig {
        ssid: ssid.into(),
        encryption: "none".into(),
        key: None,
        targets: vec!["radio0".into()],
    };
    let config = DesiredConfig::new(network, WanDesired::default());
    let state = CoreState::initial(config, Lifecycle::Ready, None, "boot".into(), WanPublicState::unknown());
    snapshot(&state, "v")
}

fn bootstrapped(now: u64) -> (StateUpdateBuffer<PublicState>, u64) {
    let mut buf: StateUpdateBuffer<PublicState> = StateUpdateBuffer::new();
    let mut seq = 0;
    assert!(publish(&mut buf, &mut seq, StateTopic::Operation, published("Home"), now).is_none());
    (buf, seq)
}

#[test]
fn coalesces_multiple_state_changes_into_one_event() {
    let now = 10_000;
    let (mut buf, mut seq) = bootstrapped(now);

    let initial = send_pending(&mut buf, &mut seq, now).expect("initial state event");

    assert!(publish(&mut buf, &mut seq, StateTopic::Wifi, published("A"), now).is_none());
    assert!(publish(&mut buf, &mut seq, StateTopic::Wifi, published("B"), now).is_none());

    let coalesced = send_pending(&mut buf, &mut seq, now).expect("coalesced state event");
    assert_eq!(coalesced.event_seq, initial.event_seq + 1);
    assert_eq!(coalesced.wifi.ssid, "B");
    assert!(send_pending(&mut buf, &mut seq, now).is_none());
}

#[test]
fn flushes_pending_state_early_when_another_update_arrives() {
    let now = 10_000;
    let (mut buf, mut seq) = bootstrapped(now);

    let initial = send_pending(&mut buf, &mut seq, now).expect("initial state event");

    assert!(publish(&mut buf, &mut seq, StateTopic::Wifi, published("A"), now).is_none());
    buf.last_sent_ms = Some(now - 1_000);
    let early = publish(&mut buf, &mut seq, StateTopic::Wifi, published("B"), now)
        .expect("early state event");
    assert_eq!(early.event_seq, initial.event_seq + 1);
    assert_eq!(early.wifi.ssid, "A");

    let pending = send_pending(&mut buf, &mut seq, now).expect("pending state event");
    assert_eq!(pending.event_seq, early.event_seq + 1);
    assert_eq!(pending.wifi.ssid, "B");
}

#[test]
fn system_runtime_waits_for_the_regular_flush() {
    let now = 10_000;
    let (mut buf, mut seq) = bootstrapped(now);

    assert!(send_pending(&mut buf, &mut seq, now).is_some());
    assert!(publish(&mut buf, &mut seq, StateTopic::Wifi, published("A"), now).is_none());
    buf.last_sent_ms = Some(now - 1_000);
    assert!(publish(&mut buf, &mut seq, StateTopic::SystemRuntime, published("A"), now).is_none());

    assert!(send_pending(&mut buf, &mut seq, now).is_some());
}

#[test]
fn periodic_topics_repeat_without_sending_early() {
    let now = 10_000;
    let (mut buf, mut seq) = bootstrapped(now);

    assert!(send_pending(&mut buf, &mut seq, now).is_some());
    assert!(publish(&mut buf, &mut seq, StateTopic::SystemRuntime, published("A"), now).is_none());
    assert!(publish(&mut buf, &mut seq, StateTopic::Traffic, published("A"), now).is_none());
    buf.last_sent_ms = Some(now - 1_000);
    assert!(publish(&mut buf, &mut seq, StateTopic::SystemRuntime, published("B"), now).is_none());
    assert!(publish(&mut buf, &mut seq, StateTopic::Traffic, published("C"), now).is_none());

    let pending = send_pending(&mut buf, &mut seq, now).expect("pending state event");
    assert_eq!(pending.wifi.ssid, "C");
    assert!(!flushes_early(StateTopic::SystemRuntime));
    assert!(!flushes_early(StateTopic::Traffic));
    assert!(flushes_early(StateTopic::Wifi));
    assert!(flushes_early(StateTopic::Ddns));
}

#[test]
fn next_tick_skips_missed_ticks() {
    assert_eq!(next_future_tick(5_000, 4_000, 1_000), 5_000);
    assert_eq!(next_future_tick(5_000, 5_000, 1_000), 6_000);
    assert_eq!(next_future_tick(5_000, 7_250, 1_000), 8_000);
    assert_eq!(next_future_tick(0, 999, 1_000), 1_000);
}
