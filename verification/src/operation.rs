//! Configuration operations: their identity, progress, journal and outcome records.

use vstd::prelude::*;
use vstd::string::*;

use crate::errors::{DomainError, ErrorView, opt_err_view, opt_str_view};
use crate::text::{clone_opt_str, clone_strs, strs_view};
use crate::wan::{WanDesired, WanView};
use crate::wifi::{MeshBackhaulConfig, RadioChannelConfig, WifiNetworkConfig, WifiView};

verus! {

/// The version of the on-disk desired-state and journal formats.
pub const STATE_SCHEMA_VERSION: u32 = 1;

/// Who started an operation.
#[derive(Debug, Clone, Copy, PartialEq, Eq, Structural)]
pub enum OperationSource {
    User,
    Reconcile,
    Recovery,
}

/// The phase an operation has reached.
#[derive(Debug, Clone, Copy, PartialEq, Eq, Structural)]
pub enum OperationStatus {
    Accepted,
    Staging,
    Applying,
    Verifying,
    Persisting,
    Confirming,
    Succeeded,
    Failed,
    RollbackFailed,
}

/// The life-cycle state of the core.
#[derive(Debug, Clone, Copy, PartialEq, Eq, Structural)]
pub enum Lifecycle {
    Booting,
    Ready,
    Maintenance,
    Degraded,
    NeedsSetup,
}

/// What an operation asks for, used to recognise a repeated request.
#[derive(Debug, Clone)]
pub enum OperationIntent {
    Wifi { ssid: String, encryption: String, key: Option<String> },
    Wan(WanDesired),
}

pub enum IntentView {
    Wifi { ssid: Seq<char>, encryption: Seq<char>, key: Option<Seq<char>> },
    Wan(WanView),
}

impl View for OperationIntent {
    type V = IntentView;

    open spec fn view(&self) -> IntentView {
        match self {
            OperationIntent::Wifi { ssid, encryption, key } => IntentView::Wifi {
                ssid: ssid@,
                encryption: encryption@,
                key: opt_str_view(*key),
            },
            OperationIntent::Wan(w) => IntentView::Wan(w@),
        }
    }
}

pub open spec fn opt_intent_view(i: Option<OperationIntent>) -> Option<IntentView> {
    match i {
        Some(x) => Some(x@),
        None => None,
    }
}

impl OperationIntent {
    pub fn copy(&self) -> (r: OperationIntent)
        ensures
            r@ == self@,
    {
        match self {
            OperationIntent::Wifi { ssid, encryption, key } => OperationIntent::Wifi {
                ssid: ssid.clone(),
                encryption: encryption.clone(),
                key: clone_opt_str(key),
            },
            OperationIntent::Wan(w) => OperationIntent::Wan(w.copy()),
        }
    }

    /// Equality by content.
    pub fn same_as(&self, other: &OperationIntent) -> (r: bool)
        ensures
            r == (self@ == other@),
    {
        match (self, other) {
            (
                OperationIntent::Wifi { ssid: a1, encryption: a2, key: a3 },
                OperationIntent::Wifi { ssid: b1, encryption: b2, key: b3 },
            ) => *a1 == *b1 && *a2 == *b2 && crate::text::opt_str_eq(a3, b3),
            (OperationIntent::Wan(a), OperationIntent::Wan(b)) => crate::wan::wan_desired_eq(a, b),
            _ => false,
        }
    }
}

/// The operation currently in progress, as published.
#[derive(Debug, Clone)]
pub struct PublicOperation {
    pub id: String,
    pub request_id: Option<String>,
    pub source: OperationSource,
    pub kind: String,
    pub status: OperationStatus,
    pub requested_ssid: String,
    pub intent: Option<OperationIntent>,
    pub error: Option<DomainError>,
}

/// The outcome of the last finished user operation.
#[derive(Debug, Clone)]
pub struct LastOperation {
    pub id: String,
    pub request_id: Option<String>,
    pub source: OperationSource,
    pub kind: String,
    pub status: OperationStatus,
    pub revision: u64,
    pub requested_ssid: String,
    pub intent: Option<OperationIntent>,
    pub error: Option<DomainError>,
    pub finished_at_ms: u64,
}

/// The answer to a configuration request.
#[derive(Debug, Clone)]
pub struct OperationAccepted {
    pub operation_id: String,
    pub status: OperationStatus,
    pub noop: bool,
}

/// Which part of the configuration a journal is about.
#[derive(Debug, Clone, Copy, PartialEq, Eq, Structural)]
pub enum TransactionKind {
    Wifi,
    Wan,
}

/// The durable record of an accepted operation, used to recover after a restart.
#[derive(Debug, Clone)]
pub struct TransactionJournal {
    pub schema_version: u32,
    pub operation_id: String,
    pub request_id: String,
    pub source: OperationSource,
    pub base_revision: u64,
    pub target_revision: u64,
    pub kind: TransactionKind,
    pub old_ssid: String,
    pub new_ssid: String,
    pub old_encryption: String,
    pub new_encryption: String,
    pub old_key: Option<String>,
    pub new_key: Option<String>,
    pub targets: Vec<String>,
    pub old_wan: Option<WanDesired>,
    pub new_wan: Option<WanDesired>,
    pub phase: OperationStatus,
}

/// A Wi-Fi change in progress.
#[derive(Debug, Clone)]
pub struct ChangeContext {
    pub operation_id: String,
    pub request_id: Option<String>,
    pub source: OperationSource,
    pub base_revision: u64,
    pub target_revision: u64,
    pub old_wifi: WifiNetworkConfig,
    pub new_wifi: WifiNetworkConfig,
    pub targets: Vec<String>,
    pub backhaul: Option<MeshBackhaulConfig>,
    pub radio_channels: Vec<RadioChannelConfig>,
}

/// A WAN change in progress.
#[derive(Debug, Clone)]
pub struct WanChangeContext {
    pub operation_id: String,
    pub request_id: Option<String>,
    pub source: OperationSource,
    pub base_revision: u64,
    pub target_revision: u64,
    pub old_wan: WanDesired,
    pub new_wan: WanDesired,
}

/// The intent a Wi-Fi change carries.
pub open spec fn wifi_intent(w: WifiView) -> IntentView {
    IntentView::Wifi { ssid: w.ssid, encryption: w.encryption, key: w.key }
}

fn wifi_intent_of(w: &WifiNetworkConfig) -> (r: OperationIntent)
    ensures
        r@ == wifi_intent(w@),
{
    OperationIntent::Wifi {
        ssid: w.ssid.clone(),
        encryption: w.encryption.clone(),
        key: clone_opt_str(&w.key),
    }
}

impl ChangeContext {
    /// The operation as published while it runs.
    pub fn public(&self, status: OperationStatus, error: Option<DomainError>) -> (r: PublicOperation)
        ensures
            r.id@ == self.operation_id@,
            opt_str_view(r.request_id) == opt_str_view(self.request_id),
            r.source == self.source,
            r.kind@ == "wifi.set_config"@,
            r.status == status,
            r.requested_ssid@ == self.new_wifi.ssid@,
            opt_intent_view(r.intent) == Some(wifi_intent(self.new_wifi@)),
            r.error == error,
    {
        PublicOperation {
            id: self.operation_id.clone(),
            request_id: clone_opt_str(&self.request_id),
            source: self.source,
            kind: String::from_str("wifi.set_config"),
            status,
            requested_ssid: self.new_wifi.ssid.clone(),
            intent: Some(wifi_intent_of(&self.new_wifi)),
            error,
        }
    }

    /// The journal entry that makes this change recoverable.
    pub fn to_journal(&self, phase: OperationStatus) -> (r: TransactionJournal)
        ensures
            r.schema_version == STATE_SCHEMA_VERSION,
            r.operation_id@ == self.operation_id@,
            r.request_id@ == match self.request_id {
                Some(x) => x@,
                None => Seq::<char>::empty(),
            },
            r.source == self.source,
            r.base_revision == self.base_revision,
            r.target_revision == self.target_revision,
            r.kind == TransactionKind::Wifi,
            r.old_ssid@ == self.old_wifi.ssid@,
            r.new_ssid@ == self.new_wifi.ssid@,
            r.old_encryption@ == self.old_wifi.encryption@,
            r.new_encryption@ == self.new_wifi.encryption@,
            opt_str_view(r.old_key) == opt_str_view(self.old_wifi.key),
            opt_str_view(r.new_key) == opt_str_view(self.new_wifi.key),
            strs_view(r.targets@) == strs_view(self.targets@),
            r.old_wan is None,
            r.new_wan is None,
            r.phase == phase,
    {
        TransactionJournal {
            schema_version: STATE_SCHEMA_VERSION,
            operation_id: self.operation_id.clone(),
            request_id: match &self.request_id {
                Some(x) => x.clone(),
                None => String::new(),
            },
            source: self.source,
            base_revision: self.base_revision,
            target_revision: self.target_revision,
            kind: TransactionKind::Wifi,
            old_ssid: self.old_wifi.ssid.clone(),
            new_ssid: self.new_wifi.ssid.clone(),
            old_encryption: self.old_wifi.encryption.clone(),
            new_encryption: self.new_wifi.encryption.clone(),
            old_key: clone_opt_str(&self.old_wifi.key),
            new_key: clone_opt_str(&self.new_wifi.key),
            targets: clone_strs(&self.targets),
            old_wan: None,
            new_wan: None,
            phase,
        }
    }
}

impl WanChangeContext {
    /// The operation as published while it runs.
    pub fn public(&self, status: OperationStatus, error: Option<DomainError>) -> (r: PublicOperation)
        ensures
            r.id@ == self.operation_id@,
            opt_str_view(r.request_id) == opt_str_view(self.request_id),
            r.source == self.source,
            r.kind@ == "wan.set_config"@,
            r.status == status,
            r.requested_ssid@ == Seq::<char>::empty(),
            opt_intent_view(r.intent) == Some(IntentView::Wan(self.new_wan@)),
            r.error == error,
    {
        PublicOperation {
            id: self.operation_id.clone(),
            request_id: clone_opt_str(&self.request_id),
            source: self.source,
            kind: String::from_str("wan.set_config"),
            status,
            requested_ssid: String::new(),
            intent: Some(OperationIntent::Wan(self.new_wan.copy())),
            error,
        }
    }

    /// The journal entry that makes this change recoverable.
    pub fn to_journal(&self, phase: OperationStatus) -> (r: TransactionJournal)
        ensures
            r.schema_version == STATE_SCHEMA_VERSION,
            r.operation_id@ == self.operation_id@,
            r.request_id@ == match self.request_id {
                Some(x) => x@,
                None => Seq::<char>::empty(),
            },
            r.source == self.source,
            r.base_revision == self.base_revision,
            r.target_revision == self.target_revision,
            r.kind == TransactionKind::Wan,
            r.old_ssid@ == Seq::<char>::empty(),
            r.new_ssid@ == Seq::<char>::empty(),
            r.old_encryption@ == "none"@,
            r.new_encryption@ == "none"@,
            r.old_key is None,
            r.new_key is None,
            r.targets@.len() == 0,
            r.old_wan matches Some(w) && w@ == self.old_wan@,
            r.new_wan matches Some(w) && w@ == self.new_wan@,
            r.phase == phase,
    {
        TransactionJournal {
            schema_version: STATE_SCHEMA_VERSION,
            operation_id: self.operation_id.clone(),
            request_id: match &self.request_id {
                Some(x) => x.clone(),
                None => String::new(),
            },
            source: self.source,
            base_revision: self.base_revision,
            target_revision: self.target_revision,
            kind: TransactionKind::Wan,
            old_ssid: String::new(),
            new_ssid: String::new(),
            old_encryption: String::from_str("none"),
            new_encryption: String::from_str("none"),
            old_key: None,
            new_key: None,
            targets: Vec::new(),
            old_wan: Some(self.old_wan.copy()),
            new_wan: Some(self.new_wan.copy()),
            phase,
        }
    }
}

} // verus!

verus! {

/// Two published operations agree in content.
pub open spec fn same_public_op(a: PublicOperation, b: PublicOperation) -> bool {
    &&& a.id@ == b.id@
    &&& opt_str_view(a.request_id) == opt_str_view(b.request_id)
    &&& a.source == b.source
    &&& a.kind@ == b.kind@
    &&& a.status == b.status
    &&& a.requested_ssid@ == b.requested_ssid@
    &&& opt_intent_view(a.intent) == opt_intent_view(b.intent)
    &&& opt_err_view(a.error) == opt_err_view(b.error)
}

/// Two operation records agree in content.
pub open spec fn same_last_op(a: LastOperation, b: LastOperation) -> bool {
    &&& a.id@ == b.id@
    &&& opt_str_view(a.request_id) == opt_str_view(b.request_id)
    &&& a.source == b.source
    &&& a.kind@ == b.kind@
    &&& a.status == b.status
    &&& a.revision == b.revision
    &&& a.requested_ssid@ == b.requested_ssid@
    &&& opt_intent_view(a.intent) == opt_intent_view(b.intent)
    &&& opt_err_view(a.error) == opt_err_view(b.error)
    &&& a.finished_at_ms == b.finished_at_ms
}

fn copy_opt_intent(i: &Option<OperationIntent>) -> (r: Option<OperationIntent>)
    ensures
        opt_intent_view(r) == opt_intent_view(*i),
{
    match i {
        Some(x) => Some(x.copy()),
        None => None,
    }
}

impl PublicOperation {
    pub fn copy(&self) -> (r: PublicOperation)
        ensures
            same_public_op(r, *self),
    {
        PublicOperation {
            id: self.id.clone(),
            request_id: clone_opt_str(&self.request_id),
            source: self.source,
            kind: self.kind.clone(),
            status: self.status,
            requested_ssid: self.requested_ssid.clone(),
            intent: copy_opt_intent(&self.intent),
            error: crate::errors::copy_opt_err(&self.error),
        }
    }
}

impl LastOperation {
    pub fn copy(&self) -> (r: LastOperation)
        ensures
            same_last_op(r, *self),
    {
        LastOperation {
            id: self.id.clone(),
            request_id: clone_opt_str(&self.request_id),
            source: self.source,
            kind: self.kind.clone(),
            status: self.status,
            revision: self.revision,
            requested_ssid: self.requested_ssid.clone(),
            intent: copy_opt_intent(&self.intent),
            error: crate::errors::copy_opt_err(&self.error),
            finished_at_ms: self.finished_at_ms,
        }
    }
}

} // verus!
