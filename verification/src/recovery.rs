//! Recovery after a restart: what to do with a transaction journal left behind.

use vstd::prelude::*;
use vstd::string::*;

use crate::errors::{DomainError, ErrorCode, ErrorStage, is_plain_error, opt_str_view};
use crate::operation::{
    IntentView, LastOperation, OperationIntent, OperationSource, OperationStatus,
    TransactionJournal, TransactionKind, opt_intent_view,
};
use crate::state::DesiredConfig;
use crate::text::{clone_opt_str, clone_strs, strs_view};
use crate::wan::{WanDesired, WanView, wan_config_matches, wan_matches_spec};
use crate::wifi::{WifiNetworkConfig, WifiView};

verus! {

/// The desired configuration is still the one the journalled operation started from.
pub open spec fn matches_old_wifi_spec(c: DesiredConfig, j: TransactionJournal) -> bool {
    &&& c.revision == j.base_revision
    &&& c.wifi.primary.ssid@ == j.old_ssid@
    &&& c.wifi.primary.encryption@ == j.old_encryption@
    &&& opt_str_view(c.wifi.primary.key) == opt_str_view(j.old_key)
}

/// The desired configuration is already the one the journalled operation committed.
pub open spec fn matches_new_wifi_spec(c: DesiredConfig, j: TransactionJournal) -> bool {
    &&& c.revision == j.target_revision
    &&& c.wifi.primary.ssid@ == j.new_ssid@
    &&& c.wifi.primary.encryption@ == j.new_encryption@
    &&& opt_str_view(c.wifi.primary.key) == opt_str_view(j.new_key)
}

pub fn matches_old_wifi(config: &DesiredConfig, journal: &TransactionJournal) -> (r: bool)
    ensures
        r == matches_old_wifi_spec(*config, *journal),
{
    config.revision == journal.base_revision && config.wifi.primary.ssid == journal.old_ssid
        && config.wifi.primary.encryption == journal.old_encryption && crate::text::opt_str_eq(
        &config.wifi.primary.key,
        &journal.old_key,
    )
}

pub fn matches_new_wifi(config: &DesiredConfig, journal: &TransactionJournal) -> (r: bool)
    ensures
        r == matches_new_wifi_spec(*config, *journal),
{
    config.revision == journal.target_revision && config.wifi.primary.ssid == journal.new_ssid
        && config.wifi.primary.encryption == journal.new_encryption && crate::text::opt_str_eq(
        &config.wifi.primary.key,
        &journal.new_key,
    )
}

/// What to do with a journal found at start-up.
#[derive(Debug)]
pub enum RecoveryPlan {
    /// The change never committed: restore the old Wi-Fi settings.
    RollBackWifi(WifiNetworkConfig),
    /// The change committed: apply the new Wi-Fi settings again.
    ConfirmWifi(WifiNetworkConfig),
    /// The WAN change never committed: restore the old WAN configuration.
    RollBackWan(WanDesired),
    /// The WAN change committed: apply the new WAN configuration again.
    ConfirmWan(WanDesired),
    /// The journal matches neither state: discard it.
    Discard,
}

/// The Wi-Fi network a journal records on one side of the change.
pub open spec fn journal_wifi(j: TransactionJournal, new_side: bool) -> WifiView {
    if new_side {
        WifiView {
            ssid: j.new_ssid@,
            encryption: j.new_encryption@,
            key: opt_str_view(j.new_key),
            targets: strs_view(j.targets@),
        }
    } else {
        WifiView {
            ssid: j.old_ssid@,
            encryption: j.old_encryption@,
            key: opt_str_view(j.old_key),
            targets: strs_view(j.targets@),
        }
    }
}

fn journal_network(journal: &TransactionJournal, new_side: bool) -> (w: WifiNetworkConfig)
    ensures
        w@ == journal_wifi(*journal, new_side),
{
    if new_side {
        WifiNetworkConfig {
            ssid: journal.new_ssid.clone(),
            encryption: journal.new_encryption.clone(),
            key: clone_opt_str(&journal.new_key),
            targets: clone_strs(&journal.targets),
        }
    } else {
        WifiNetworkConfig {
            ssid: journal.old_ssid.clone(),
            encryption: journal.old_encryption.clone(),
            key: clone_opt_str(&journal.old_key),
            targets: clone_strs(&journal.targets),
        }
    }
}

/// The error for a WAN journal that lacks one side of the change.
pub open spec fn is_wan_journal_corrupt(e: DomainError) -> bool {
    is_plain_error(
        e,
        ErrorCode::StateCorrupt,
        ErrorStage::Bootstrap,
        "WAN transaction journal is missing old or new configuration"@,
    )
}

/// The plan for a journal: a Wi-Fi journal is rolled back when the desired state is still the
/// old one and confirmed when it is already the new one; a WAN journal likewise by revision and
/// configuration; any other journal is discarded. A WAN journal without both configurations is
/// corrupt.
pub fn plan_recovery(config: &DesiredConfig, journal: &TransactionJournal) -> (r: Result<
    RecoveryPlan,
    DomainError,
>)
    ensures
        journal.kind == TransactionKind::Wifi ==> if matches_old_wifi_spec(*config, *journal) {
            r matches Ok(RecoveryPlan::RollBackWifi(w)) && w@ == journal_wifi(*journal, false)
        } else if matches_new_wifi_spec(*config, *journal) {
            r matches Ok(RecoveryPlan::ConfirmWifi(w)) && w@ == journal_wifi(*journal, true)
        } else {
            r matches Ok(RecoveryPlan::Discard)
        },
        journal.kind == TransactionKind::Wan ==> match (journal.old_wan, journal.new_wan) {
            (Some(old_wan), Some(new_wan)) => if config.revision == journal.base_revision
                && wan_matches_spec(config.wan@, old_wan@) {
                r matches Ok(RecoveryPlan::RollBackWan(w)) && w@ == old_wan@
            } else if config.revision == journal.target_revision && wan_matches_spec(
                config.wan@,
                new_wan@,
            ) {
                r matches Ok(RecoveryPlan::ConfirmWan(w)) && w@ == new_wan@
            } else {
                r matches Ok(RecoveryPlan::Discard)
            },
            _ => r matches Err(e) && is_wan_journal_corrupt(e),
        },
{
    match journal.kind {
        TransactionKind::Wifi => {
            if matches_old_wifi(config, journal) {
                Ok(RecoveryPlan::RollBackWifi(journal_network(journal, false)))
            } else if matches_new_wifi(config, journal) {
                Ok(RecoveryPlan::ConfirmWifi(journal_network(journal, true)))
            } else {
                Ok(RecoveryPlan::Discard)
            }
        },
        TransactionKind::Wan => {
            match (&journal.old_wan, &journal.new_wan) {
                (Some(old_wan), Some(new_wan)) => {
                    if config.revision == journal.base_revision && wan_config_matches(
                        &config.wan,
                        old_wan,
                    ) {
                        Ok(RecoveryPlan::RollBackWan(old_wan.copy()))
                    } else if config.revision == journal.target_revision && wan_config_matches(
                        &config.wan,
                        new_wan,
                    ) {
                        Ok(RecoveryPlan::ConfirmWan(new_wan.copy()))
                    } else {
                        Ok(RecoveryPlan::Discard)
                    }
                },
                _ => Err(
                    DomainError::from_message(
                        ErrorCode::StateCorrupt,
                        ErrorStage::Bootstrap,
                        "WAN transaction journal is missing old or new configuration",
                    ),
                ),
            }
        },
    }
}

/// The error recorded for an operation a restart interrupted.
pub open spec fn is_interrupted_error(e: DomainError, j: TransactionJournal, message: Seq<char>) -> bool {
    &&& e.code == ErrorCode::OperationInterrupted
    &&& e.stage == ErrorStage::Bootstrap
    &&& e.message@ == message
    &&& !e.retryable
    &&& opt_str_view(e.operation_id) == Some(j.operation_id@)
    &&& opt_str_view(e.request_id) == Some(j.request_id@)
    &&& e.details is None
}

pub fn interrupted_error(journal: &TransactionJournal, message: &str) -> (e: DomainError)
    ensures
        is_interrupted_error(e, *journal, message@),
{
    DomainError::from_message(ErrorCode::OperationInterrupted, ErrorStage::Bootstrap, message).with_operation(
        journal.operation_id.as_str(),
        Some(journal.request_id.as_str()),
    )
}

/// The record a recovered user operation leaves behind.
pub open spec fn is_recovered_record(
    l: LastOperation,
    j: TransactionJournal,
    status: OperationStatus,
    revision: u64,
    error: Option<DomainError>,
    finished_at_ms: u64,
) -> bool {
    &&& l.id@ == j.operation_id@
    &&& opt_str_view(l.request_id) == Some(j.request_id@)
    &&& l.source == OperationSource::User
    &&& l.status == status
    &&& l.revision == revision
    &&& l.error == error
    &&& l.finished_at_ms == finished_at_ms
    &&& if j.kind == TransactionKind::Wan {
        &&& l.kind@ == "wan.set_config"@
        &&& l.requested_ssid@ == Seq::<char>::empty()
        &&& opt_intent_view(l.intent) == match j.new_wan {
            Some(w) => Some(IntentView::Wan(w@)),
            None => None,
        }
    } else {
        &&& l.kind@ == "wifi.set_config"@
        &&& l.requested_ssid@ == j.new_ssid@
        &&& opt_intent_view(l.intent) == Some(
            IntentView::Wifi {
                ssid: j.new_ssid@,
                encryption: j.new_encryption@,
                key: opt_str_view(j.new_key),
            },
        )
    }
}

/// The last user operation a recovered journal leaves: only user operations are recorded, with
/// the outcome recovery gave them.
pub fn recovered_operation(
    journal: &TransactionJournal,
    status: OperationStatus,
    revision: u64,
    error: Option<DomainError>,
    finished_at_ms: u64,
) -> (r: Option<LastOperation>)
    ensures
        journal.source != OperationSource::User ==> r is None,
        journal.source == OperationSource::User ==> (r matches Some(l) && is_recovered_record(
            l,
            *journal,
            status,
            revision,
            error,
            finished_at_ms,
        )),
{
    if journal.source != OperationSource::User {
        return None;
    }
    let (kind, requested_ssid, intent) = match journal.kind {
        TransactionKind::Wan => (
            String::from_str("wan.set_config"),
            String::new(),
            match &journal.new_wan {
                Some(w) => Some(OperationIntent::Wan(w.copy())),
                None => None,
            },
        ),
        TransactionKind::Wifi => (
            String::from_str("wifi.set_config"),
            journal.new_ssid.clone(),
            Some(
                OperationIntent::Wifi {
                    ssid: journal.new_ssid.clone(),
                    encryption: journal.new_encryption.clone(),
                    key: clone_opt_str(&journal.new_key),
                },
            ),
        ),
    };
    Some(
        LastOperation {
            id: journal.operation_id.clone(),
            request_id: Some(journal.request_id.clone()),
            source: OperationSource::User,
            kind,
            status,
            revision,
            requested_ssid,
            intent,
            error,
            finished_at_ms,
        },
    )
}

/// Recovery never loses a committed change: when the desired configuration already holds the
/// journalled change, recovery re-applies the new settings rather than the old ones.
pub proof fn lemma_committed_change_is_confirmed(c: DesiredConfig, j: TransactionJournal)
    requires
        j.kind == TransactionKind::Wifi,
        j.base_revision != j.target_revision,
        matches_new_wifi_spec(c, j),
    ensures
        !matches_old_wifi_spec(c, j),
{
}

} // verus!
