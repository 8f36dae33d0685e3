//! The router backend: the transactional configuration store the core drives, and an in-memory
//! backend that models it.

use vstd::prelude::*;
use vstd::string::*;

use crate::errors::{DomainError, ErrorCode, ErrorStage, ErrorView, is_plain_error, plain_error_view};
use crate::keyed::Keyed;
use crate::order::text_lt;
use crate::state::{WanPublicState, WanPublicView, WanStatus};
use crate::text::{concat, decimal, decimal_spec, strs_view};
use crate::text_map::TextMap;
use crate::wan::{WanDesired, WanProtocol, WanView};
use crate::wifi::opt_slice_view;

verus! {

/// The primary Wi-Fi network found on the router: one SSID shared by the listed radios.
#[derive(Debug, Clone)]
pub struct DiscoveredWifi {
    pub ssid: String,
    pub targets: Vec<String>,
}

/// The operations the core needs from a router's configuration store. Changes are staged in a
/// session, applied with a rollback timer, and then confirmed or rolled back.
///
/// A store is seen through two views: the SSID committed on each radio, and the SSIDs staged in
/// each open session. Reads report these views; staging, applying and confirming change them as
/// their contracts say.
/// A call with no result other than success ended as `outcome` says: `None` for success, else
/// the error.
pub open spec fn ended_as(r: Result<(), DomainError>, outcome: Option<ErrorView>) -> bool {
    match r {
        Ok(_) => outcome is None,
        Err(e) => outcome == Some(e@),
    }
}

pub trait RouterBackend {
    /// The committed SSID of each radio.
    spec fn committed_view(&self) -> Map<Seq<char>, Seq<char>>;

    /// The SSIDs staged in `session`, while it is open.
    spec fn session_view(&self, session: Seq<char>) -> Option<Map<Seq<char>, Seq<char>>>;

    /// The committed WAN configuration.
    spec fn wan_committed_view(&self) -> WanView;

    /// The WAN configuration staged in `session`, if any.
    spec fn wan_session_view(&self, session: Seq<char>) -> Option<WanView>;

    /// The SSIDs committed before `session` was applied, kept for a rollback.
    spec fn rollback_view(&self, session: Seq<char>) -> Option<Map<Seq<char>, Seq<char>>>;

    /// The WAN configuration committed before `session` was applied, kept for a rollback.
    spec fn wan_rollback_view(&self, session: Seq<char>) -> Option<WanView>;

    /// How reading `targets` (from `session`, when given) ends: `None` for success, else the error.
    spec fn read_error(&self, targets: Seq<Seq<char>>, session: Option<Seq<char>>) -> Option<ErrorView>;

    /// How staging `ssid` on `targets` in `session` ends.
    spec fn stage_error(&self, session: Seq<char>, targets: Seq<Seq<char>>, ssid: Seq<char>) -> Option<ErrorView>;

    /// How staging a WAN configuration in `session` ends.
    spec fn wan_stage_error(&self, session: Seq<char>, config: WanView) -> Option<ErrorView>;

    /// How reverting what `session` staged ends.
    spec fn revert_error(&self, session: Seq<char>) -> Option<ErrorView>;

    /// How applying `session` ends.
    spec fn apply_error(&self, session: Seq<char>) -> Option<ErrorView>;

    /// How confirming `session` ends.
    spec fn confirm_error(&self, session: Seq<char>) -> Option<ErrorView>;

    /// How rolling `session` back ends.
    spec fn rollback_error(&self, session: Seq<char>) -> Option<ErrorView>;

    /// How reading the WAN configuration (from `session`, when given) ends.
    spec fn wan_read_error(&self, session: Option<Seq<char>>) -> Option<ErrorView>;

    /// What the WAN runtime reports, or the error reading it.
    spec fn wan_runtime_view(&self) -> Result<WanPublicView, ErrorView>;

    /// Whether the wireless runtime serves `ssid` on the targets, or the error asking it.
    spec fn runtime_health_view(&self, targets: Seq<Seq<char>>, ssid: Seq<char>) -> Result<bool, ErrorView>;

    /// How reloading the wireless runtime ends.
    spec fn reload_error(&self) -> Option<ErrorView>;

    /// What discovering the primary Wi-Fi network finds: its SSID and its radios, or the error.
    spec fn primary_wifi_view(&self) -> Result<(Seq<char>, Seq<Seq<char>>), ErrorView>;

    /// What discovering the WAN finds: its configuration, or the error.
    spec fn primary_wan_view(&self) -> Result<WanView, ErrorView>;

    /// Finds the primary Wi-Fi network: one SSID shared by the managed radios.
    fn discover_primary_wifi(&self) -> (r: Result<DiscoveredWifi, DomainError>)
        ensures
            match r {
                Ok(d) => self.primary_wifi_view() == Ok::<(Seq<char>, Seq<Seq<char>>), ErrorView>(
                    (d.ssid@, strs_view(d.targets@)),
                ),
                Err(e) => self.primary_wifi_view() == Err::<(Seq<char>, Seq<Seq<char>>), ErrorView>(e@),
            },
    ;

    /// Reads the WAN configuration.
    fn discover_primary_wan(&self) -> (r: Result<WanDesired, DomainError>)
        ensures
            match r {
                Ok(w) => self.primary_wan_view() == Ok::<WanView, ErrorView>(w@),
                Err(e) => self.primary_wan_view() == Err::<WanView, ErrorView>(e@),
            },
    ;

    /// Opens a session staging the committed SSIDs.
    fn create_session(&mut self) -> (r: Result<String, DomainError>)
        ensures
            r matches Ok(sid) ==> final(self).session_view(sid@) == Some(old(self).committed_view())
                && final(self).committed_view() == old(self).committed_view(),
    ;

    /// The SSID of each target, from the session when it is open, else the committed ones.
    fn read_ssids(&self, targets: &[String], session: Option<&str>) -> (r: Result<
        Vec<(String, String)>,
        DomainError,
    >)
        ensures
            r matches Ok(v) ==> read_pairs(
                v@,
                match opt_slice_view(session) {
                    Some(sid) => match self.session_view(sid) {
                        Some(m) => m,
                        None => self.committed_view(),
                    },
                    None => self.committed_view(),
                },
                strs_view(targets@),
            ),
            match r {
                Ok(_) => self.read_error(strs_view(targets@), opt_slice_view(session)) is None,
                Err(e) => self.read_error(strs_view(targets@), opt_slice_view(session)) == Some(e@),
            },
    ;

    /// Stages `ssid` on the targets in an open session that holds them all.
    fn stage_ssid(&mut self, session: &str, targets: &[String], ssid: &str) -> (r: Result<
        (),
        DomainError,
    >)
        ensures
            r is Ok ==> old(self).session_view(session@) is Some && first_missing(
                old(self).session_view(session@)->0,
                strs_view(targets@),
            ) == targets@.len() && final(self).session_view(session@) == Some(
                staged_prefix(
                    old(self).session_view(session@)->0,
                    strs_view(targets@),
                    ssid@,
                    targets@.len() as nat,
                ),
            ) && final(self).committed_view() == old(self).committed_view(),
            ended_as(r, old(self).stage_error(session@, strs_view(targets@), ssid@)),
            final(self).committed_view() == old(self).committed_view(),
            final(self).wan_committed_view() == old(self).wan_committed_view(),
            final(self).rollback_view(session@) == old(self).rollback_view(session@),
            final(self).wan_rollback_view(session@) == old(self).wan_rollback_view(session@),
    ;

    /// The WAN configuration staged in the session when given and staged there, else the
    /// committed one.
    fn read_wan_config(&self, session: Option<&str>) -> (r: Result<WanDesired, DomainError>)
        ensures
            r matches Ok(w) ==> w@ == match opt_slice_view(session) {
                Some(sid) => match self.wan_session_view(sid) {
                    Some(staged) => staged,
                    None => self.wan_committed_view(),
                },
                None => self.wan_committed_view(),
            },
            match r {
                Ok(_) => self.wan_read_error(opt_slice_view(session)) is None,
                Err(e) => self.wan_read_error(opt_slice_view(session)) == Some(e@),
            },
    ;

    /// Stages a WAN configuration in the session.
    fn stage_wan_config(&mut self, session: &str, config: &WanDesired) -> (r: Result<(), DomainError>)
        ensures
            r is Ok ==> final(self).wan_session_view(session@) == Some(config@) && final(self).wan_committed_view()
                == old(self).wan_committed_view(),
            ended_as(r, old(self).wan_stage_error(session@, config@)),
            final(self).committed_view() == old(self).committed_view(),
            final(self).wan_committed_view() == old(self).wan_committed_view(),
            final(self).rollback_view(session@) == old(self).rollback_view(session@),
            final(self).wan_rollback_view(session@) == old(self).wan_rollback_view(session@),
    ;

    /// What the WAN runtime reports.
    fn read_wan_runtime_status(&self) -> (r: Result<WanPublicState, DomainError>)
        ensures
            match r {
                Ok(w) => self.wan_runtime_view() == Ok::<WanPublicView, ErrorView>(w@),
                Err(e) => self.wan_runtime_view() == Err::<WanPublicView, ErrorView>(e@),
            },
    ;

    /// Stages the committed configuration in the session again.
    fn revert_staged(&mut self, session: &str) -> (r: Result<(), DomainError>)
        ensures
            r is Ok ==> final(self).session_view(session@) == Some(old(self).committed_view())
                && final(self).committed_view() == old(self).committed_view(),
            ended_as(r, old(self).revert_error(session@)),
            final(self).committed_view() == old(self).committed_view(),
            final(self).wan_committed_view() == old(self).wan_committed_view(),
            final(self).rollback_view(session@) == old(self).rollback_view(session@),
            final(self).wan_rollback_view(session@) == old(self).wan_rollback_view(session@),
    ;

    /// Commits what the session staged, keeping the previous configuration for a rollback.
    fn apply(&mut self, session: &str, rollback_timeout_secs: u32) -> (r: Result<(), DomainError>)
        ensures
            r is Ok ==> old(self).session_view(session@) is Some && final(self).committed_view() == old(
                self,
            ).session_view(session@)->0 && final(self).wan_committed_view() == match old(self).wan_session_view(
                session@,
            ) {
                Some(w) => w,
                None => old(self).wan_committed_view(),
            },
            ended_as(r, old(self).apply_error(session@)),
            r is Ok ==> final(self).rollback_view(session@) == Some(old(self).committed_view())
                && final(self).wan_rollback_view(session@) == Some(old(self).wan_committed_view()),
            r is Err ==> final(self).committed_view() == old(self).committed_view() && final(self).wan_committed_view()
                == old(self).wan_committed_view() && final(self).rollback_view(session@) == old(self).rollback_view(
                session@,
            ) && final(self).wan_rollback_view(session@) == old(self).wan_rollback_view(session@),
    ;

    /// Keeps what the session applied.
    fn confirm(&mut self, session: &str) -> (r: Result<(), DomainError>)
        ensures
            r is Ok ==> final(self).committed_view() == old(self).committed_view() && final(self).wan_committed_view()
                == old(self).wan_committed_view(),
            ended_as(r, old(self).confirm_error(session@)),
            final(self).committed_view() == old(self).committed_view(),
            final(self).wan_committed_view() == old(self).wan_committed_view(),
    ;

    /// Commits again what was committed before the session was applied, when that was kept.
    fn rollback(&mut self, session: &str) -> (r: Result<(), DomainError>)
        ensures
            ended_as(r, old(self).rollback_error(session@)),
            r is Ok ==> final(self).committed_view() == match old(self).rollback_view(session@) {
                Some(m) => m,
                None => old(self).committed_view(),
            } && final(self).wan_committed_view() == match old(self).wan_rollback_view(session@) {
                Some(w) => w,
                None => old(self).wan_committed_view(),
            },
            r is Err ==> final(self).committed_view() == old(self).committed_view()
                && final(self).wan_committed_view() == old(self).wan_committed_view(),
    ;

    /// Whether the wireless runtime serves `ssid` on the targets.
    fn runtime_healthy(&self, targets: &[String], ssid: &str) -> (r: Result<bool, DomainError>)
        ensures
            match r {
                Ok(h) => self.runtime_health_view(strs_view(targets@), ssid@) == Ok::<bool, ErrorView>(h),
                Err(e) => self.runtime_health_view(strs_view(targets@), ssid@) == Err::<bool, ErrorView>(e@),
            },
    ;

    /// Reloads the wireless runtime; nothing committed, staged or kept for a rollback changes.
    fn reload_wireless_runtime(&mut self) -> (r: Result<(), DomainError>)
        ensures
            ended_as(r, old(self).reload_error()),
            final(self).committed_view() == old(self).committed_view(),
            final(self).wan_committed_view() == old(self).wan_committed_view(),
            forall|sid: Seq<char>| #[trigger] final(self).session_view(sid) == old(self).session_view(sid),
            forall|sid: Seq<char>| #[trigger] final(self).wan_session_view(sid) == old(self).wan_session_view(sid),
            forall|sid: Seq<char>| #[trigger] final(self).rollback_view(sid) == old(self).rollback_view(sid),
            forall|sid: Seq<char>| #[trigger] final(self).wan_rollback_view(sid) == old(self).wan_rollback_view(sid),
    ;
}

/// Failures the in-memory backend injects, for tests of the core's error paths.
#[derive(Debug, Clone, Copy, PartialEq, Eq, Structural)]
pub struct FailurePlan {
    pub fail_stage: bool,
    pub fail_apply: bool,
    pub fail_confirm: bool,
    pub fail_rollback: bool,
    pub fail_candidate_verify: bool,
    pub runtime_unhealthy: bool,
}

impl Default for FailurePlan {
    /// No failure injected.
    fn default() -> (r: FailurePlan)
        ensures
            r == (FailurePlan {
                fail_stage: false,
                fail_apply: false,
                fail_confirm: false,
                fail_rollback: false,
                fail_candidate_verify: false,
                runtime_unhealthy: false,
            }),
    {
        FailurePlan {
            fail_stage: false,
            fail_apply: false,
            fail_confirm: false,
            fail_rollback: false,
            fail_candidate_verify: false,
            runtime_unhealthy: false,
        }
    }
}

/// A configuration store held in memory.
#[derive(Debug)]
pub struct MemoryBackend {
    /// The committed SSID of each radio.
    pub committed: TextMap,
    /// The committed WAN configuration.
    pub wan_committed: WanDesired,
    /// The SSIDs staged in each open session.
    pub sessions: Keyed<TextMap>,
    /// The WAN configuration staged in each session.
    pub wan_sessions: Keyed<WanDesired>,
    /// The SSIDs committed before each applied session, kept until it is confirmed.
    pub rollback_snapshots: Keyed<TextMap>,
    /// The WAN configuration committed before each applied session.
    pub wan_rollback_snapshots: Keyed<WanDesired>,
    /// What the WAN runtime reports.
    pub wan_runtime: WanPublicState,
    /// The number of the next session.
    pub next_session: u64,
    /// The failures to inject.
    pub failure: FailurePlan,
}

/// The content of a [`MemoryBackend`].
pub struct MemoryView {
    pub committed: Map<Seq<char>, Seq<char>>,
    pub wan_committed: WanView,
    pub sessions: Map<Seq<char>, Map<Seq<char>, Seq<char>>>,
    pub wan_sessions: Map<Seq<char>, WanView>,
    pub snapshots: Map<Seq<char>, Map<Seq<char>, Seq<char>>>,
    pub wan_snapshots: Map<Seq<char>, WanView>,
    pub wan_runtime: WanPublicView,
    pub next_session: u64,
    pub failure: FailurePlan,
}

/// The contents of each table of a keyed store of tables.
pub open spec fn tables_view(k: Keyed<TextMap>) -> Map<Seq<char>, Map<Seq<char>, Seq<char>>> {
    Map::new(|s: Seq<char>| k@.contains_key(s), |s: Seq<char>| k@[s]@)
}

/// The contents of each WAN configuration of a keyed store.
pub open spec fn wans_view(k: Keyed<WanDesired>) -> Map<Seq<char>, WanView> {
    Map::new(|s: Seq<char>| k@.contains_key(s), |s: Seq<char>| k@[s]@)
}

impl View for MemoryBackend {
    type V = MemoryView;

    open spec fn view(&self) -> MemoryView {
        MemoryView {
            committed: self.committed@,
            wan_committed: self.wan_committed@,
            sessions: tables_view(self.sessions),
            wan_sessions: wans_view(self.wan_sessions),
            snapshots: tables_view(self.rollback_snapshots),
            wan_snapshots: wans_view(self.wan_rollback_snapshots),
            wan_runtime: self.wan_runtime@,
            next_session: self.next_session,
            failure: self.failure,
        }
    }
}

/// The name of session number `n`.
pub open spec fn session_name(n: u64) -> Seq<char> {
    "memory-session-"@ + decimal_spec(n as nat)
}

/// The index of the first target, from `i` on, that `m` does not hold; the length if none.
pub open spec fn first_missing_from(m: Map<Seq<char>, Seq<char>>, ts: Seq<Seq<char>>, i: nat) -> nat
    decreases ts.len() - i,
{
    if i >= ts.len() {
        ts.len()
    } else if !m.contains_key(ts[i as int]) {
        i
    } else {
        first_missing_from(m, ts, i + 1)
    }
}

/// The index of the first target that `m` does not hold; the length if it holds all.
pub open spec fn first_missing(m: Map<Seq<char>, Seq<char>>, ts: Seq<Seq<char>>) -> nat {
    first_missing_from(m, ts, 0)
}

pub proof fn lemma_first_missing_from(m: Map<Seq<char>, Seq<char>>, ts: Seq<Seq<char>>, i: nat, k: nat)
    requires
        i <= k <= ts.len(),
        forall|j: int| i <= j < k ==> m.contains_key(#[trigger] ts[j]),
        k == ts.len() || !m.contains_key(ts[k as int]),
    ensures
        first_missing_from(m, ts, i) == k,
    decreases k - i,
{
    if i < k {
        lemma_first_missing_from(m, ts, i + 1, k);
    }
}

/// The first `n` targets set to `ssid` in `m`.
pub open spec fn staged_prefix(m: Map<Seq<char>, Seq<char>>, ts: Seq<Seq<char>>, ssid: Seq<char>, n: nat) -> Map<
    Seq<char>,
    Seq<char>,
>
    decreases n,
{
    if n == 0 || n > ts.len() {
        m
    } else {
        staged_prefix(m, ts, ssid, (n - 1) as nat).insert(ts[n - 1], ssid)
    }
}

/// Setting targets that are already present keeps the set of targets.
pub proof fn lemma_staged_prefix_dom(m: Map<Seq<char>, Seq<char>>, ts: Seq<Seq<char>>, ssid: Seq<char>, n: nat)
    requires
        n <= ts.len(),
        forall|j: int| 0 <= j < n ==> m.contains_key(#[trigger] ts[j]),
    ensures
        staged_prefix(m, ts, ssid, n).dom() == m.dom(),
    decreases n,
{
    if n > 0 {
        lemma_staged_prefix_dom(m, ts, ssid, (n - 1) as nat);
        assert(staged_prefix(m, ts, ssid, n).dom() =~= m.dom());
    }
}

/// What a target holds after the first `n` targets were set: `ssid` for those, its old value
/// for the others.
pub proof fn lemma_staged_prefix_at(m: Map<Seq<char>, Seq<char>>, ts: Seq<Seq<char>>, ssid: Seq<char>, n: nat, k: Seq<char>)
    requires
        n <= ts.len(),
    ensures
        ts.take(n as int).contains(k) ==> staged_prefix(m, ts, ssid, n).contains_key(k)
            && staged_prefix(m, ts, ssid, n)[k] == ssid,
        !ts.take(n as int).contains(k) ==> staged_prefix(m, ts, ssid, n).contains_key(k) == m.contains_key(k)
            && (m.contains_key(k) ==> staged_prefix(m, ts, ssid, n)[k] == m[k]),
    decreases n,
{
    if n > 0 {
        lemma_staged_prefix_at(m, ts, ssid, (n - 1) as nat, k);
        assert(ts.take(n as int) =~= ts.take(n - 1).push(ts[n - 1]));
        if ts.take(n - 1).contains(k) {
            let j = choose|j: int| 0 <= j < ts.take(n - 1).len() && #[trigger] ts.take(n - 1)[j] == k;
            assert(ts.take(n as int)[j] == k);
        }
        if !ts.take(n as int).contains(k) {
            assert(ts.take(n as int)[n - 1] == ts[n - 1]);
        }
    }
}

/// Applying a session: its staged SSIDs and WAN configuration become committed, and the
/// configuration they replace is kept for a rollback.
pub open spec fn apply_model(s: MemoryView, sid: Seq<char>) -> MemoryView {
    MemoryView {
        committed: s.sessions[sid],
        wan_committed: if s.wan_sessions.contains_key(sid) {
            s.wan_sessions[sid]
        } else {
            s.wan_committed
        },
        snapshots: s.snapshots.insert(sid, s.committed),
        wan_snapshots: s.wan_snapshots.insert(sid, s.wan_committed),
        ..s
    }
}

/// Confirming a session: the kept configuration is dropped.
pub open spec fn confirm_model(s: MemoryView, sid: Seq<char>) -> MemoryView {
    MemoryView { snapshots: s.snapshots.remove(sid), wan_snapshots: s.wan_snapshots.remove(sid), ..s }
}

/// Rolling a session back: the kept configuration is committed again and staged in the session.
pub open spec fn rollback_model(s: MemoryView, sid: Seq<char>) -> MemoryView {
    let t = if s.snapshots.contains_key(sid) {
        MemoryView {
            committed: s.snapshots[sid],
            sessions: s.sessions.insert(sid, s.snapshots[sid]),
            snapshots: s.snapshots.remove(sid),
            ..s
        }
    } else {
        s
    };
    if t.wan_snapshots.contains_key(sid) {
        MemoryView {
            wan_committed: t.wan_snapshots[sid],
            wan_sessions: t.wan_sessions.insert(sid, t.wan_snapshots[sid]),
            wan_snapshots: t.wan_snapshots.remove(sid),
            ..t
        }
    } else {
        t
    }
}

/// Reverting a session: it stages the committed configuration again.
pub open spec fn revert_model(s: MemoryView, sid: Seq<char>) -> MemoryView {
    MemoryView {
        sessions: s.sessions.insert(sid, s.committed),
        wan_sessions: s.wan_sessions.insert(sid, s.wan_committed),
        ..s
    }
}

/// Opening a session: it stages the committed configuration under the next session name.
pub open spec fn create_model(s: MemoryView) -> MemoryView {
    MemoryView {
        sessions: s.sessions.insert(session_name(s.next_session), s.committed),
        wan_sessions: s.wan_sessions.insert(session_name(s.next_session), s.wan_committed),
        next_session: if s.next_session == u64::MAX {
            0
        } else {
            (s.next_session + 1) as u64
        },
        ..s
    }
}

/// The SSIDs a read sees: those staged in the session when it is open, the committed ones
/// otherwise.
pub open spec fn read_source(s: MemoryView, session: Option<Seq<char>>) -> Map<Seq<char>, Seq<char>> {
    match session {
        Some(sid) => if s.sessions.contains_key(sid) {
            s.sessions[sid]
        } else {
            s.committed
        },
        None => s.committed,
    }
}

/// The WAN runtime the in-memory backend reports for a configuration.
pub open spec fn memory_wan_runtime(wan: WanView) -> WanPublicView {
    WanPublicView {
        present: wan.present,
        proto: wan.proto,
        status: if wan.present {
            WanStatus::Connected
        } else {
            WanStatus::NotConfigured
        },
        device: wan.device,
        ip_address: if wan.present {
            Some("203.0.113.10"@)
        } else {
            None
        },
        netmask: if wan.present {
            Some("255.255.255.0"@)
        } else {
            None
        },
        gateway: if wan.present {
            Some("203.0.113.1"@)
        } else {
            None
        },
        dns: if wan.present {
            seq!["1.1.1.1"@, "1.0.0.1"@]
        } else {
            Seq::empty()
        },
        mac_address: Some("00:11:22:33:44:55"@),
        uptime_secs: 1200,
        error_reason: None,
    }
}

fn opt_text(present: bool, text: &str) -> (r: Option<String>)
    ensures
        r matches Some(t) ==> t@ == text@,
        r is Some == present,
{
    if present {
        Some(String::from_str(text))
    } else {
        None
    }
}

impl MemoryBackend {
    /// A backend whose radios all carry `ssid`, with a DHCP WAN on `eth1`.
    pub fn new(ssid: &str, targets: &[&str]) -> (r: MemoryBackend)
        ensures
            r@.wan_committed == (WanView {
                present: true,
                proto: WanProtocol::Dhcp,
                device: Some("eth1"@),
                custom_mac: None,
                custom_mtu: None,
                custom_dns: Seq::empty(),
                static_config: None,
                pppoe_config: None,
            }),
            r@.committed == Map::new(
                |t: Seq<char>| exists|i: int| 0 <= i < targets@.len() && #[trigger] targets@[i]@ == t,
                |t: Seq<char>| ssid@,
            ),
            r@.sessions == Map::<Seq<char>, Map<Seq<char>, Seq<char>>>::empty(),
            r@.snapshots == Map::<Seq<char>, Map<Seq<char>, Seq<char>>>::empty(),
            r@.wan_sessions == Map::<Seq<char>, WanView>::empty(),
            r@.wan_snapshots == Map::<Seq<char>, WanView>::empty(),
            r@.wan_runtime == memory_wan_runtime(r@.wan_committed),
            r@.next_session == 1,
            r@.failure == FailurePlan::default_spec(),
    {
        let wan = WanDesired {
            present: true,
            proto: WanProtocol::Dhcp,
            device: Some(String::from_str("eth1")),
            custom_mac: None,
            custom_mtu: None,
            custom_dns: Vec::new(),
            static_config: None,
            pppoe_config: None,
        };
        proof {
            assert(strs_view(wan.custom_dns@) =~= Seq::<Seq<char>>::empty());
        }
        MemoryBackend::with_wan(ssid, targets, wan)
    }

    /// A backend whose radios all carry `ssid`, with the given WAN configuration.
    pub fn with_wan(ssid: &str, targets: &[&str], wan: WanDesired) -> (r: MemoryBackend)
        ensures
            r@.wan_committed == wan@,
            r@.committed == Map::new(
                |t: Seq<char>| exists|i: int| 0 <= i < targets@.len() && #[trigger] targets@[i]@ == t,
                |t: Seq<char>| ssid@,
            ),
            r@.sessions == Map::<Seq<char>, Map<Seq<char>, Seq<char>>>::empty(),
            r@.snapshots == Map::<Seq<char>, Map<Seq<char>, Seq<char>>>::empty(),
            r@.wan_sessions == Map::<Seq<char>, WanView>::empty(),
            r@.wan_snapshots == Map::<Seq<char>, WanView>::empty(),
            r@.wan_runtime == memory_wan_runtime(wan@),
            r@.next_session == 1,
            r@.failure == FailurePlan::default_spec(),
    {
        let mut committed = TextMap::new();
        let mut i: usize = 0;
        while i < targets.len()
            invariant
                i <= targets@.len(),
                committed@ == Map::new(
                    |t: Seq<char>| exists|j: int| 0 <= j < i && #[trigger] targets@[j]@ == t,
                    |t: Seq<char>| ssid@,
                ),
            decreases targets@.len() - i,
        {
            let ghost before = committed@;
            committed.insert(String::from_str(targets[i]), String::from_str(ssid));
            proof {
                let want = Map::new(
                    |t: Seq<char>| exists|j: int| 0 <= j < i + 1 && #[trigger] targets@[j]@ == t,
                    |t: Seq<char>| ssid@,
                );
                assert forall|t: Seq<char>| #[trigger] want.contains_key(t) == committed@.contains_key(t) by {
                    if want.contains_key(t) && t != targets@[i as int]@ {
                        let j = choose|j: int| 0 <= j < i + 1 && #[trigger] targets@[j]@ == t;
                        assert(before.contains_key(t));
                    }
                    if committed@.contains_key(t) && t != targets@[i as int]@ {
                        assert(before.contains_key(t));
                        let j = choose|j: int| 0 <= j < i && #[trigger] targets@[j]@ == t;
                        assert(want.contains_key(t));
                    }
                }
                assert(committed@ =~= want);
            }
            i += 1;
        }
        let present = wan.present;
        let wan_runtime = WanPublicState {
            present,
            proto: wan.proto,
            status: if present {
                WanStatus::Connected
            } else {
                WanStatus::NotConfigured
            },
            device: crate::text::clone_opt_str(&wan.device),
            ip_address: opt_text(present, "203.0.113.10"),
            netmask: opt_text(present, "255.255.255.0"),
            gateway: opt_text(present, "203.0.113.1"),
            dns: if present {
                vec![String::from_str("1.1.1.1"), String::from_str("1.0.0.1")]
            } else {
                Vec::new()
            },
            mac_address: Some(String::from_str("00:11:22:33:44:55")),
            uptime_secs: 1200,
            error_reason: None,
        };
        proof {
            if present {
                assert(strs_view(wan_runtime.dns@) =~= seq!["1.1.1.1"@, "1.0.0.1"@]);
            } else {
                assert(strs_view(wan_runtime.dns@) =~= Seq::<Seq<char>>::empty());
            }
        }
        let r = MemoryBackend {
            committed,
            wan_committed: wan,
            sessions: Keyed::new(),
            wan_sessions: Keyed::new(),
            rollback_snapshots: Keyed::new(),
            wan_rollback_snapshots: Keyed::new(),
            wan_runtime,
            next_session: 1,
            failure: FailurePlan::default(),
        };
        proof {
            assert(tables_view(r.sessions) =~= Map::<Seq<char>, Map<Seq<char>, Seq<char>>>::empty());
            assert(tables_view(r.rollback_snapshots) =~= Map::<Seq<char>, Map<Seq<char>, Seq<char>>>::empty());
            assert(wans_view(r.wan_sessions) =~= Map::<Seq<char>, WanView>::empty());
            assert(wans_view(r.wan_rollback_snapshots) =~= Map::<Seq<char>, WanView>::empty());
        }
        r
    }

    /// Sets the failures to inject from now on.
    pub fn set_failure_plan(&mut self, failure: FailurePlan)
        ensures
            final(self)@ == (MemoryView { failure, ..old(self)@ }),
    {
        self.failure = failure;
    }

    /// The committed SSID of each radio, in radio order.
    pub fn committed_ssids(&self) -> (r: Vec<(String, String)>)
        ensures
            r@.len() == self.committed.keys().len(),
            forall|i: int| #![trigger r@[i]] 0 <= i < r@.len() ==> r@[i].0@ == self.committed.keys()[i]
                && r@[i].1@ == self@.committed[r@[i].0@],
            forall|t: Seq<char>| #[trigger] self@.committed.contains_key(t) <==> self.committed.keys().contains(t),
            forall|i: int, j: int| 0 <= i < j < r@.len() ==> text_lt(#[trigger] r@[i].0@, #[trigger] r@[j].0@),
    {
        self.committed.pairs()
    }

    /// Changes a radio's committed SSID behind the core's back.
    pub fn external_set(&mut self, target: &str, ssid: &str)
        ensures
            final(self)@ == (MemoryView {
                committed: old(self)@.committed.insert(target@, ssid@),
                ..old(self)@
            }),
    {
        self.committed.insert(String::from_str(target), String::from_str(ssid));
    }
}

impl FailurePlan {
    /// No failure injected.
    pub open spec fn default_spec() -> FailurePlan {
        FailurePlan {
            fail_stage: false,
            fail_apply: false,
            fail_confirm: false,
            fail_rollback: false,
            fail_candidate_verify: false,
            runtime_unhealthy: false,
        }
    }
}

} // verus!

verus! {

pub proof fn lemma_tables_insert(a: Keyed<TextMap>, b: Keyed<TextMap>, sid: Seq<char>, t: TextMap)
    requires
        b@ == a@.insert(sid, t),
    ensures
        tables_view(b) == tables_view(a).insert(sid, t@),
{
    assert(tables_view(b) =~= tables_view(a).insert(sid, t@));
}

pub proof fn lemma_tables_remove(a: Keyed<TextMap>, b: Keyed<TextMap>, sid: Seq<char>)
    requires
        b@ == a@.remove(sid),
    ensures
        tables_view(b) == tables_view(a).remove(sid),
{
    assert(tables_view(b) =~= tables_view(a).remove(sid));
}

pub proof fn lemma_wans_insert(a: Keyed<WanDesired>, b: Keyed<WanDesired>, sid: Seq<char>, w: WanDesired)
    requires
        b@ == a@.insert(sid, w),
    ensures
        wans_view(b) == wans_view(a).insert(sid, w@),
{
    assert(wans_view(b) =~= wans_view(a).insert(sid, w@));
}

pub proof fn lemma_wans_remove(a: Keyed<WanDesired>, b: Keyed<WanDesired>, sid: Seq<char>)
    requires
        b@ == a@.remove(sid),
    ensures
        wans_view(b) == wans_view(a).remove(sid),
{
    assert(wans_view(b) =~= wans_view(a).remove(sid));
}

/// Every radio carries the same SSID.
pub open spec fn one_ssid(m: Map<Seq<char>, Seq<char>>) -> bool {
    forall|a: Seq<char>, b: Seq<char>| m.contains_key(a) && m.contains_key(b) ==> #[trigger] m[a] == #[trigger] m[b]
}

/// The pairs a successful read returns: each requested target with its SSID, in request order.
pub open spec fn read_pairs(v: Seq<(String, String)>, src: Map<Seq<char>, Seq<char>>, ts: Seq<Seq<char>>) -> bool {
    &&& v.len() == ts.len()
    &&& forall|i: int| 0 <= i < v.len() ==> #[trigger] v[i].0@ == ts[i] && v[i].1@ == src[ts[i]]
}

/// Staging an SSID in a session: the targets up to the first one the session lacks are set.
pub open spec fn stage_model(s: MemoryView, sid: Seq<char>, ts: Seq<Seq<char>>, ssid: Seq<char>) -> MemoryView {
    MemoryView {
        sessions: s.sessions.insert(
            sid,
            staged_prefix(s.sessions[sid], ts, ssid, first_missing(s.sessions[sid], ts)),
        ),
        ..s
    }
}

/// Sets `ssid` on the targets in order, stopping at the first target the table lacks, whose
/// index is returned.
fn stage_into(table: &mut TextMap, targets: &[String], ssid: &str) -> (r: Option<usize>)
    ensures
        final(table)@ == staged_prefix(old(table)@, strs_view(targets@), ssid@, first_missing(old(table)@, strs_view(targets@))),
        match r {
            Some(k) => k == first_missing(old(table)@, strs_view(targets@)) && k < targets@.len(),
            None => first_missing(old(table)@, strs_view(targets@)) == targets@.len(),
        },
{
    let ghost m0 = table@;
    let ghost ts = strs_view(targets@);
    let mut i: usize = 0;
    while i < targets.len()
        invariant
            i <= targets@.len(),
            m0 == old(table)@,
            ts == strs_view(targets@),
            ts.len() == targets@.len(),
            table@ == staged_prefix(m0, ts, ssid@, i as nat),
            forall|j: int| 0 <= j < i ==> m0.contains_key(#[trigger] ts[j]),
        decreases targets@.len() - i,
    {
        proof {
            lemma_staged_prefix_dom(m0, ts, ssid@, i as nat);
            assert(ts[i as int] == targets@[i as int]@);
        }
        if table.get(targets[i].as_str()).is_none() {
            proof {
                assert(!table@.contains_key(ts[i as int]));
                assert(!m0.contains_key(ts[i as int]));
                lemma_first_missing_from(m0, ts, 0, i as nat);
                assert(first_missing(m0, ts) == i);
            }
            return Some(i);
        }
        table.insert(targets[i].clone(), String::from_str(ssid));
        i += 1;
    }
    proof {
        lemma_first_missing_from(m0, ts, 0, i as nat);
    }
    None
}

fn missing_target_error(target: &String, stage: ErrorStage) -> (e: DomainError)
    ensures
        is_plain_error(e, ErrorCode::TargetMissing, stage, "missing target "@ + target@),
{
    DomainError::new(ErrorCode::TargetMissing, stage, concat("missing target ", target.as_str()))
}

impl RouterBackend for MemoryBackend {
    open spec fn committed_view(&self) -> Map<Seq<char>, Seq<char>> {
        self@.committed
    }

    open spec fn session_view(&self, session: Seq<char>) -> Option<Map<Seq<char>, Seq<char>>> {
        if self@.sessions.contains_key(session) {
            Some(self@.sessions[session])
        } else {
            None
        }
    }

    open spec fn wan_committed_view(&self) -> WanView {
        self@.wan_committed
    }

    open spec fn wan_session_view(&self, session: Seq<char>) -> Option<WanView> {
        if self@.wan_sessions.contains_key(session) {
            Some(self@.wan_sessions[session])
        } else {
            None
        }
    }

    open spec fn rollback_view(&self, session: Seq<char>) -> Option<Map<Seq<char>, Seq<char>>> {
        if self@.snapshots.contains_key(session) {
            Some(self@.snapshots[session])
        } else {
            None
        }
    }

    open spec fn wan_rollback_view(&self, session: Seq<char>) -> Option<WanView> {
        if self@.wan_snapshots.contains_key(session) {
            Some(self@.wan_snapshots[session])
        } else {
            None
        }
    }

    open spec fn wan_read_error(&self, session: Option<Seq<char>>) -> Option<ErrorView> {
        None
    }

    open spec fn wan_runtime_view(&self) -> Result<WanPublicView, ErrorView> {
        Ok(self@.wan_runtime)
    }

    open spec fn runtime_health_view(&self, targets: Seq<Seq<char>>, ssid: Seq<char>) -> Result<bool, ErrorView> {
        Ok(
            !self@.failure.runtime_unhealthy && !(self@.failure.fail_candidate_verify && self@.snapshots != Map::<
                Seq<char>,
                Map<Seq<char>, Seq<char>>,
            >::empty()),
        )
    }

    open spec fn reload_error(&self) -> Option<ErrorView> {
        None
    }

    open spec fn read_error(&self, targets: Seq<Seq<char>>, session: Option<Seq<char>>) -> Option<ErrorView> {
        let src = read_source(self@, session);
        if first_missing(src, targets) < targets.len() {
            Some(
                plain_error_view(
                    ErrorCode::TargetMissing,
                    ErrorStage::Verify,
                    "missing target "@ + targets[first_missing(src, targets) as int],
                ),
            )
        } else {
            None
        }
    }

    open spec fn stage_error(&self, session: Seq<char>, targets: Seq<Seq<char>>, ssid: Seq<char>) -> Option<ErrorView> {
        if self@.failure.fail_stage {
            Some(plain_error_view(ErrorCode::UciStageFailed, ErrorStage::Stage, "injected stage failure"@))
        } else if !self@.sessions.contains_key(session) {
            Some(plain_error_view(ErrorCode::RpcdSessionLost, ErrorStage::Stage, "session not found"@))
        } else if first_missing(self@.sessions[session], targets) < targets.len() {
            Some(
                plain_error_view(
                    ErrorCode::TargetMissing,
                    ErrorStage::Stage,
                    "missing target "@ + targets[first_missing(self@.sessions[session], targets) as int],
                ),
            )
        } else {
            None
        }
    }

    open spec fn wan_stage_error(&self, session: Seq<char>, config: WanView) -> Option<ErrorView> {
        if self@.failure.fail_stage {
            Some(plain_error_view(ErrorCode::UciStageFailed, ErrorStage::Stage, "injected stage failure"@))
        } else {
            None
        }
    }

    open spec fn revert_error(&self, session: Seq<char>) -> Option<ErrorView> {
        None
    }

    open spec fn apply_error(&self, session: Seq<char>) -> Option<ErrorView> {
        if self@.failure.fail_apply {
            Some(plain_error_view(ErrorCode::UciApplyFailed, ErrorStage::Apply, "injected apply failure"@))
        } else if !self@.sessions.contains_key(session) {
            Some(plain_error_view(ErrorCode::RpcdSessionLost, ErrorStage::Apply, "session not found"@))
        } else {
            None
        }
    }

    open spec fn confirm_error(&self, session: Seq<char>) -> Option<ErrorView> {
        if self@.failure.fail_confirm {
            Some(plain_error_view(ErrorCode::ConfirmFailed, ErrorStage::Confirm, "injected confirm failure"@))
        } else {
            None
        }
    }

    open spec fn rollback_error(&self, session: Seq<char>) -> Option<ErrorView> {
        if self@.failure.fail_rollback {
            Some(plain_error_view(ErrorCode::RollbackFailed, ErrorStage::Rollback, "injected rollback failure"@))
        } else {
            None
        }
    }

    open spec fn primary_wifi_view(&self) -> Result<(Seq<char>, Seq<Seq<char>>), ErrorView> {
        if self.committed.keys().len() == 0 {
            Err(plain_error_view(ErrorCode::AmbiguousWifiConfig, ErrorStage::Bootstrap, "no AP targets found"@))
        } else if !one_ssid(self@.committed) {
            Err(
                plain_error_view(
                    ErrorCode::AmbiguousWifiConfig,
                    ErrorStage::Bootstrap,
                    "managed APs do not share one SSID"@,
                ),
            )
        } else {
            Ok((self@.committed[self.committed.keys()[0]], self.committed.keys()))
        }
    }

    open spec fn primary_wan_view(&self) -> Result<WanView, ErrorView> {
        Ok(self@.wan_committed)
    }

    fn discover_primary_wifi(&self) -> (r: Result<DiscoveredWifi, DomainError>)
        ensures
            match r {
                Ok(d) => self.committed.keys().len() > 0 && one_ssid(self@.committed)
                    && self@.committed[self.committed.keys()[0]] == d.ssid@
                    && strs_view(d.targets@) == self.committed.keys()
                    && (forall|i: int, j: int|
                    0 <= i < j < d.targets@.len() ==> text_lt(#[trigger] d.targets@[i]@, #[trigger] d.targets@[j]@))
                    && (forall|t: Seq<char>| #[trigger] self@.committed.contains_key(t) <==> strs_view(d.targets@).contains(t)),
                Err(e) => if self.committed.keys().len() == 0 {
                    is_plain_error(e, ErrorCode::AmbiguousWifiConfig, ErrorStage::Bootstrap, "no AP targets found"@)
                } else {
                    !one_ssid(self@.committed) && is_plain_error(
                        e,
                        ErrorCode::AmbiguousWifiConfig,
                        ErrorStage::Bootstrap,
                        "managed APs do not share one SSID"@,
                    )
                },
            },
    {
        let pairs = self.committed.pairs();
        if pairs.len() == 0 {
            return Err(DomainError::from_message(ErrorCode::AmbiguousWifiConfig, ErrorStage::Bootstrap, "no AP targets found"));
        }
        let ghost m = self@.committed;
        let ghost keys = self.committed.keys();
        let first = &pairs[0].1;
        proof {
            assert(pairs@[0].1@ == self.committed.values()[0]);
            assert forall|j: int| 0 <= j < pairs@.len() implies #[trigger] pairs@[j].0@ == keys[j] && pairs@[j].1@ == m[pairs@[j].0@] by {
                assert(pairs@[j].0@ == keys[j] && pairs@[j].1@ == self.committed.values()[j]);
                assert(m[keys[j]] == self.committed.values()[j]);
            }
            assert forall|j: int| 0 <= j < keys.len() implies m.contains_key(#[trigger] keys[j]) by {
                assert(keys.contains(keys[j]));
            }
        }
        let mut i: usize = 1;
        while i < pairs.len()
            invariant
                1 <= i <= pairs@.len(),
                pairs@.len() == keys.len(),
                first@ == m[keys[0]],
                m == self@.committed,
                keys == self.committed.keys(),
                forall|j: int| 0 <= j < keys.len() ==> m.contains_key(#[trigger] keys[j]),
                forall|j: int| 0 <= j < pairs@.len() ==> #[trigger] pairs@[j].0@ == keys[j] && pairs@[j].1@ == m[pairs@[j].0@],
                forall|j: int| 0 <= j < i ==> #[trigger] m[keys[j]] == first@,
            decreases pairs@.len() - i,
        {
            if !crate::text::str_eq(pairs[i].1.as_str(), first.as_str()) {
                proof {
                    assert(pairs@[i as int].0@ == keys[i as int]);
                    assert(m.contains_key(keys[0]) && m.contains_key(keys[i as int]));
                    assert(m[keys[i as int]] != m[keys[0]]);
                }
                return Err(
                    DomainError::from_message(
                        ErrorCode::AmbiguousWifiConfig,
                        ErrorStage::Bootstrap,
                        "managed APs do not share one SSID",
                    ),
                );
            }
            proof {
                assert(pairs@[i as int].0@ == keys[i as int]);
            }
            i += 1;
        }
        let mut targets: Vec<String> = Vec::new();
        let mut j: usize = 0;
        while j < pairs.len()
            invariant
                j <= pairs@.len(),
                pairs@.len() == keys.len(),
                forall|q: int| 0 <= q < pairs@.len() ==> #[trigger] pairs@[q].0@ == keys[q],
                targets@.len() == j,
                forall|q: int| 0 <= q < j ==> #[trigger] targets@[q]@ == keys[q],
            decreases pairs@.len() - j,
        {
            targets.push(pairs[j].0.clone());
            j += 1;
        }
        proof {
            assert(strs_view(targets@) =~= keys);
            assert forall|a: Seq<char>, b: Seq<char>| m.contains_key(a) && m.contains_key(b) implies #[trigger] m[a] == #[trigger] m[b] by {
                let ia = choose|q: int| 0 <= q < keys.len() && keys[q] == a;
                let ib = choose|q: int| 0 <= q < keys.len() && keys[q] == b;
                assert(m[keys[ia]] == first@);
                assert(m[keys[ib]] == first@);
            }
        }
        Ok(DiscoveredWifi { ssid: first.clone(), targets })
    }

    fn discover_primary_wan(&self) -> (r: Result<WanDesired, DomainError>)
        ensures
            r matches Ok(w) && w@ == self@.wan_committed,
    {
        Ok(self.wan_committed.copy())
    }

    fn create_session(&mut self) -> (r: Result<String, DomainError>)
        ensures
            r matches Ok(sid) && sid@ == session_name(old(self)@.next_session),
            final(self)@ == create_model(old(self)@),
    {
        let sid = concat("memory-session-", decimal(self.next_session).as_str());
        self.next_session = self.next_session.wrapping_add(1);
        let ghost before_sessions = self.sessions;
        let ghost before_wans = self.wan_sessions;
        let committed = self.committed.copy();
        self.sessions.insert(sid.clone(), committed);
        let wan_committed = self.wan_committed.copy();
        self.wan_sessions.insert(sid.clone(), wan_committed);
        proof {
            lemma_tables_insert(before_sessions, self.sessions, sid@, committed);
            lemma_wans_insert(before_wans, self.wan_sessions, sid@, wan_committed);
        }
        Ok(sid)
    }

    fn read_ssids(&self, targets: &[String], session: Option<&str>) -> (r: Result<
        Vec<(String, String)>,
        DomainError,
    >)
        ensures
            match r {
                Ok(v) => first_missing(read_source(self@, opt_slice_view(session)), strs_view(targets@)) == targets@.len()
                    && read_pairs(v@, read_source(self@, opt_slice_view(session)), strs_view(targets@)),
                Err(e) => first_missing(read_source(self@, opt_slice_view(session)), strs_view(targets@)) < targets@.len()
                    && is_plain_error(
                    e,
                    ErrorCode::TargetMissing,
                    ErrorStage::Verify,
                    "missing target "@ + strs_view(targets@)[first_missing(
                        read_source(self@, opt_slice_view(session)),
                        strs_view(targets@),
                    ) as int],
                ),
            },
    {
        let source: &TextMap = match session {
            Some(sid) => match self.sessions.get(sid) {
                Some(t) => t,
                None => &self.committed,
            },
            None => &self.committed,
        };
        let ghost src = read_source(self@, opt_slice_view(session));
        assert(source@ == src);
        let ghost ts = strs_view(targets@);
        let mut out: Vec<(String, String)> = Vec::new();
        let mut i: usize = 0;
        while i < targets.len()
            invariant
                i <= targets@.len(),
                ts == strs_view(targets@),
                src == read_source(self@, opt_slice_view(session)),
                source@ == src,
                forall|j: int| 0 <= j < i ==> src.contains_key(#[trigger] ts[j]),
                out@.len() == i,
                forall|j: int| 0 <= j < i ==> #[trigger] out@[j].0@ == ts[j] && out@[j].1@ == src[ts[j]],
            decreases targets@.len() - i,
        {
            proof {
                assert(ts[i as int] == targets@[i as int]@);
            }
            match source.get(targets[i].as_str()) {
                Some(ssid) => {
                    out.push((targets[i].clone(), ssid.clone()));
                },
                None => {
                    proof {
                        lemma_first_missing_from(src, ts, 0, i as nat);
                    }
                    return Err(missing_target_error(&targets[i], ErrorStage::Verify));
                },
            }
            i += 1;
        }
        proof {
            lemma_first_missing_from(src, ts, 0, i as nat);
            assert(first_missing(src, ts) == targets@.len());
            assert(read_pairs(out@, src, ts));
        }
        Ok(out)
    }

    fn stage_ssid(&mut self, session: &str, targets: &[String], ssid: &str) -> (r: Result<(), DomainError>)
        ensures
            r is Ok <==> !old(self)@.failure.fail_stage && old(self)@.sessions.contains_key(session@)
                && first_missing(old(self)@.sessions[session@], strs_view(targets@)) == targets@.len(),
            old(self)@.failure.fail_stage ==> final(self)@ == old(self)@ && (r matches Err(e) && is_plain_error(
                e,
                ErrorCode::UciStageFailed,
                ErrorStage::Stage,
                "injected stage failure"@,
            )),
            !old(self)@.failure.fail_stage && !old(self)@.sessions.contains_key(session@) ==> final(self)@ == old(self)@
                && (r matches Err(e) && is_plain_error(e, ErrorCode::RpcdSessionLost, ErrorStage::Stage, "session not found"@)),
            !old(self)@.failure.fail_stage && old(self)@.sessions.contains_key(session@) ==> final(self)@ == stage_model(
                old(self)@,
                session@,
                strs_view(targets@),
                ssid@,
            ) && (r matches Err(e) ==> is_plain_error(
                e,
                ErrorCode::TargetMissing,
                ErrorStage::Stage,
                "missing target "@ + strs_view(targets@)[first_missing(old(self)@.sessions[session@], strs_view(targets@)) as int],
            )),
    {
        if self.failure.fail_stage {
            return Err(DomainError::from_message(ErrorCode::UciStageFailed, ErrorStage::Stage, "injected stage failure"));
        }
        let ghost before = self.sessions;
        let mut staged = match self.sessions.remove(session) {
            Some(t) => t,
            None => {
                proof {
                    lemma_tables_remove(before, self.sessions, session@);
                    assert(tables_view(before).remove(session@) =~= tables_view(before));
                }
                return Err(DomainError::from_message(ErrorCode::RpcdSessionLost, ErrorStage::Stage, "session not found"));
            },
        };
        let ghost removed = self.sessions;
        let missing = stage_into(&mut staged, targets, ssid);
        self.sessions.insert(String::from_str(session), staged);
        proof {
            assert(self.sessions@ =~= before@.insert(session@, staged));
            lemma_tables_insert(before, self.sessions, session@, staged);
        }
        match missing {
            Some(k) => {
                proof {
                    assert(targets@[k as int]@ == strs_view(targets@)[k as int]);
                }
                Err(missing_target_error(&targets[k], ErrorStage::Stage))
            },
            None => Ok(()),
        }
    }

    fn read_wan_config(&self, session: Option<&str>) -> (r: Result<WanDesired, DomainError>)
        ensures
            r matches Ok(w) && w@ == match opt_slice_view(session) {
                Some(sid) => if self@.wan_sessions.contains_key(sid) {
                    self@.wan_sessions[sid]
                } else {
                    self@.wan_committed
                },
                None => self@.wan_committed,
            },
    {
        if let Some(sid) = session {
            if let Some(staged) = self.wan_sessions.get(sid) {
                return Ok(staged.copy());
            }
        }
        Ok(self.wan_committed.copy())
    }

    fn stage_wan_config(&mut self, session: &str, config: &WanDesired) -> (r: Result<(), DomainError>)
        ensures
            r is Ok <==> !old(self)@.failure.fail_stage,
            old(self)@.failure.fail_stage ==> final(self)@ == old(self)@ && (r matches Err(e) && is_plain_error(
                e,
                ErrorCode::UciStageFailed,
                ErrorStage::Stage,
                "injected stage failure"@,
            )),
            !old(self)@.failure.fail_stage ==> final(self)@ == (MemoryView {
                wan_sessions: old(self)@.wan_sessions.insert(session@, config@),
                ..old(self)@
            }),
    {
        if self.failure.fail_stage {
            return Err(DomainError::from_message(ErrorCode::UciStageFailed, ErrorStage::Stage, "injected stage failure"));
        }
        let ghost before = self.wan_sessions;
        let staged = config.copy();
        self.wan_sessions.insert(String::from_str(session), staged);
        proof {
            lemma_wans_insert(before, self.wan_sessions, session@, staged);
        }
        Ok(())
    }

    fn read_wan_runtime_status(&self) -> (r: Result<WanPublicState, DomainError>)
        ensures
            r matches Ok(w) && w@ == self@.wan_runtime,
    {
        Ok(self.wan_runtime.copy())
    }

    fn revert_staged(&mut self, session: &str) -> (r: Result<(), DomainError>)
        ensures
            r is Ok,
            final(self)@ == revert_model(old(self)@, session@),
    {
        let ghost before = self.sessions;
        let ghost before_wans = self.wan_sessions;
        let committed = self.committed.copy();
        self.sessions.insert(String::from_str(session), committed);
        let wan_committed = self.wan_committed.copy();
        self.wan_sessions.insert(String::from_str(session), wan_committed);
        proof {
            lemma_tables_insert(before, self.sessions, session@, committed);
            lemma_wans_insert(before_wans, self.wan_sessions, session@, wan_committed);
        }
        Ok(())
    }

    fn apply(&mut self, session: &str, rollback_timeout_secs: u32) -> (r: Result<(), DomainError>)
        ensures
            r is Ok <==> !old(self)@.failure.fail_apply && old(self)@.sessions.contains_key(session@),
            r is Ok ==> final(self)@ == apply_model(old(self)@, session@),
            r is Err ==> final(self)@ == old(self)@,
            r matches Err(e) ==> if old(self)@.failure.fail_apply {
                is_plain_error(e, ErrorCode::UciApplyFailed, ErrorStage::Apply, "injected apply failure"@)
            } else {
                is_plain_error(e, ErrorCode::RpcdSessionLost, ErrorStage::Apply, "session not found"@)
            },
    {
        if self.failure.fail_apply {
            return Err(DomainError::from_message(ErrorCode::UciApplyFailed, ErrorStage::Apply, "injected apply failure"));
        }
        let staged = match self.sessions.get(session) {
            Some(t) => t.copy(),
            None => {
                return Err(DomainError::from_message(ErrorCode::RpcdSessionLost, ErrorStage::Apply, "session not found"));
            },
        };
        let ghost before_snaps = self.rollback_snapshots;
        let ghost before_wan_snaps = self.wan_rollback_snapshots;
        let snapshot = self.committed.copy();
        self.rollback_snapshots.insert(String::from_str(session), snapshot);
        self.committed = staged;
        let wan_staged = match self.wan_sessions.get(session) {
            Some(w) => w.copy(),
            None => self.wan_committed.copy(),
        };
        let wan_snapshot = self.wan_committed.copy();
        self.wan_rollback_snapshots.insert(String::from_str(session), wan_snapshot);
        self.wan_committed = wan_staged;
        proof {
            lemma_tables_insert(before_snaps, self.rollback_snapshots, session@, snapshot);
            lemma_wans_insert(before_wan_snaps, self.wan_rollback_snapshots, session@, wan_snapshot);
        }
        Ok(())
    }

    fn confirm(&mut self, session: &str) -> (r: Result<(), DomainError>)
        ensures
            r is Ok <==> !old(self)@.failure.fail_confirm,
            r is Ok ==> final(self)@ == confirm_model(old(self)@, session@),
            r matches Err(e) ==> final(self)@ == old(self)@ && is_plain_error(
                e,
                ErrorCode::ConfirmFailed,
                ErrorStage::Confirm,
                "injected confirm failure"@,
            ),
    {
        if self.failure.fail_confirm {
            return Err(DomainError::from_message(ErrorCode::ConfirmFailed, ErrorStage::Confirm, "injected confirm failure"));
        }
        let ghost before_snaps = self.rollback_snapshots;
        let ghost before_wan_snaps = self.wan_rollback_snapshots;
        self.rollback_snapshots.remove(session);
        self.wan_rollback_snapshots.remove(session);
        proof {
            lemma_tables_remove(before_snaps, self.rollback_snapshots, session@);
            lemma_wans_remove(before_wan_snaps, self.wan_rollback_snapshots, session@);
        }
        Ok(())
    }

    fn rollback(&mut self, session: &str) -> (r: Result<(), DomainError>)
        ensures
            r is Ok <==> !old(self)@.failure.fail_rollback,
            r is Ok ==> final(self)@ == rollback_model(old(self)@, session@),
            r matches Err(e) ==> final(self)@ == old(self)@ && is_plain_error(
                e,
                ErrorCode::RollbackFailed,
                ErrorStage::Rollback,
                "injected rollback failure"@,
            ),
    {
        if self.failure.fail_rollback {
            return Err(DomainError::from_message(ErrorCode::RollbackFailed, ErrorStage::Rollback, "injected rollback failure"));
        }
        let ghost before_snaps = self.rollback_snapshots;
        let ghost before_sessions = self.sessions;
        if let Some(snapshot) = self.rollback_snapshots.remove(session) {
            let ghost removed = self.rollback_snapshots;
            self.committed = snapshot.copy();
            self.sessions.insert(String::from_str(session), snapshot);
            proof {
                lemma_tables_remove(before_snaps, removed, session@);
                lemma_tables_insert(before_sessions, self.sessions, session@, snapshot);
            }
        } else {
            proof {
                lemma_tables_remove(before_snaps, self.rollback_snapshots, session@);
                assert(tables_view(before_snaps).remove(session@) =~= tables_view(before_snaps));
            }
        }
        let ghost before_wan_snaps = self.wan_rollback_snapshots;
        let ghost before_wan_sessions = self.wan_sessions;
        if let Some(wan_snapshot) = self.wan_rollback_snapshots.remove(session) {
            let ghost removed = self.wan_rollback_snapshots;
            self.wan_committed = wan_snapshot.copy();
            self.wan_sessions.insert(String::from_str(session), wan_snapshot);
            proof {
                lemma_wans_remove(before_wan_snaps, removed, session@);
                lemma_wans_insert(before_wan_sessions, self.wan_sessions, session@, wan_snapshot);
            }
        } else {
            proof {
                lemma_wans_remove(before_wan_snaps, self.wan_rollback_snapshots, session@);
                assert(wans_view(before_wan_snaps).remove(session@) =~= wans_view(before_wan_snaps));
            }
        }
        Ok(())
    }

    fn runtime_healthy(&self, targets: &[String], ssid: &str) -> (r: Result<bool, DomainError>)
        ensures
            r matches Ok(h) && h == (!self@.failure.runtime_unhealthy && !(self@.failure.fail_candidate_verify
                && self@.snapshots != Map::<Seq<char>, Map<Seq<char>, Seq<char>>>::empty())),
    {
        if self.failure.runtime_unhealthy {
            return Ok(false);
        }
        let empty = self.rollback_snapshots.is_empty();
        proof {
            if empty {
                assert(tables_view(self.rollback_snapshots) =~= Map::<Seq<char>, Map<Seq<char>, Seq<char>>>::empty());
            } else {
                assert(self.rollback_snapshots@ != Map::<Seq<char>, TextMap>::empty());
                let k = choose|k: Seq<char>| !(self.rollback_snapshots@.contains_key(k) == Map::<Seq<char>, TextMap>::empty().contains_key(k));
                if !self.rollback_snapshots@.contains_key(k) {
                    assert(self.rollback_snapshots@ =~= Map::<Seq<char>, TextMap>::empty());
                }
                assert(tables_view(self.rollback_snapshots).contains_key(k));
            }
        }
        if self.failure.fail_candidate_verify && !empty {
            return Ok(false);
        }
        Ok(true)
    }

    fn reload_wireless_runtime(&mut self) -> (r: Result<(), DomainError>)
        ensures
            r is Ok,
            final(self)@ == (MemoryView {
                failure: FailurePlan { runtime_unhealthy: false, ..old(self)@.failure },
                ..old(self)@
            }),
    {
        self.failure.runtime_unhealthy = false;
        Ok(())
    }
}

} // verus!

verus! {

/// Rolling back an applied session restores the SSIDs and the WAN configuration committed
/// before it, and stages them in the session again; a second rollback changes nothing.
pub proof fn lemma_rollback_undoes_apply(s: MemoryView, sid: Seq<char>)
    requires
        s.sessions.contains_key(sid),
    ensures
        rollback_model(apply_model(s, sid), sid).committed == s.committed,
        rollback_model(apply_model(s, sid), sid).wan_committed == s.wan_committed,
        rollback_model(apply_model(s, sid), sid).sessions[sid] == s.committed,
        rollback_model(apply_model(s, sid), sid).wan_sessions[sid] == s.wan_committed,
        !rollback_model(apply_model(s, sid), sid).snapshots.contains_key(sid),
        !rollback_model(apply_model(s, sid), sid).wan_snapshots.contains_key(sid),
        rollback_model(rollback_model(apply_model(s, sid), sid), sid) == rollback_model(apply_model(s, sid), sid),
{
}

/// Confirming an applied session keeps what it staged committed and drops the rollback copy.
pub proof fn lemma_confirm_keeps_apply(s: MemoryView, sid: Seq<char>)
    requires
        s.sessions.contains_key(sid),
    ensures
        confirm_model(apply_model(s, sid), sid).committed == s.sessions[sid],
        !confirm_model(apply_model(s, sid), sid).snapshots.contains_key(sid),
        !confirm_model(apply_model(s, sid), sid).wan_snapshots.contains_key(sid),
{
}

/// Staging changes nothing committed.
pub proof fn lemma_stage_leaves_committed(s: MemoryView, sid: Seq<char>, ts: Seq<Seq<char>>, ssid: Seq<char>)
    ensures
        stage_model(s, sid, ts, ssid).committed == s.committed,
        stage_model(s, sid, ts, ssid).wan_committed == s.wan_committed,
        stage_model(s, sid, ts, ssid).snapshots == s.snapshots,
{
}

/// A session opened on the committed configuration, staged with an SSID for targets it holds
/// and applied, commits that SSID on exactly those targets; the other radios keep theirs.
pub proof fn lemma_stage_then_apply(s: MemoryView, ts: Seq<Seq<char>>, ssid: Seq<char>, t: Seq<char>)
    requires
        first_missing(s.committed, ts) == ts.len(),
    ensures
        ({
            let sid = session_name(s.next_session);
            let done = apply_model(stage_model(create_model(s), sid, ts, ssid), sid);
            &&& done.committed.dom() == s.committed.dom()
            &&& ts.contains(t) ==> done.committed[t] == ssid
            &&& !ts.contains(t) && s.committed.contains_key(t) ==> done.committed[t] == s.committed[t]
        }),
{
    let sid = session_name(s.next_session);
    let c = create_model(s);
    assert(c.sessions[sid] == s.committed);
    let n = ts.len();
    assert forall|j: int| 0 <= j < n implies s.committed.contains_key(#[trigger] ts[j]) by {
        lemma_first_missing_prefix(s.committed, ts, 0, j);
    }
    lemma_staged_prefix_dom(s.committed, ts, ssid, n);
    lemma_staged_prefix_at(s.committed, ts, ssid, n, t);
    assert(ts.take(n as int) =~= ts);
}

pub proof fn lemma_first_missing_prefix(m: Map<Seq<char>, Seq<char>>, ts: Seq<Seq<char>>, i: nat, j: int)
    requires
        i <= j < ts.len(),
        first_missing_from(m, ts, i) == ts.len(),
    ensures
        m.contains_key(ts[j]),
    decreases j - i,
{
    if i < j {
        lemma_first_missing_prefix(m, ts, i + 1, j);
    }
}

/// A freshly opened session reads the committed SSIDs.
pub proof fn lemma_new_session_reads_committed(s: MemoryView)
    ensures
        read_source(create_model(s), Some(session_name(s.next_session))) == s.committed,
        create_model(s).committed == s.committed,
{
}

} // verus!
