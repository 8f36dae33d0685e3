//! Error values reported by every operation of the control plane.

use vstd::prelude::*;
use vstd::string::*;

verus! {

/// Machine-readable category of a failure.
#[derive(Debug, Clone, Copy, PartialEq, Eq, Structural)]
pub enum ErrorCode {
    InvalidArgument,
    NotFound,
    Busy,
    NotReady,
    MaintenanceMode,
    RevisionConflict,
    IdempotencyConflict,
    StateCorrupt,
    StateStoreFailed,
    TargetMissing,
    AmbiguousWifiConfig,
    UciStageFailed,
    UciStageMismatch,
    UciApplyFailed,
    RpcdSessionLost,
    ConfirmFailed,
    CommitUncertain,
    RollbackFailed,
    VerifyTimeout,
    ReconcileFailed,
    OperationInterrupted,
    Internal,
}

/// The phase of the control plane in which a failure was detected.
#[derive(Debug, Clone, Copy, PartialEq, Eq, Structural)]
pub enum ErrorStage {
    Validate,
    Bootstrap,
    Stage,
    Apply,
    Verify,
    Persist,
    Confirm,
    Rollback,
    Reconcile,
    Transport,
    Internal,
}

/// Structured context attached to some errors.
#[derive(Debug, Clone)]
pub enum ErrorDetails {
    /// The UTF-8 byte length of a rejected SSID.
    SsidBytes { bytes: usize },
    /// The revision a client expected and the revision the core holds.
    Revisions { expected_revision: u64, current_revision: u64 },
    /// The SSID first requested under a request id and the SSID requested now.
    SsidConflict { previous_ssid: String, requested_ssid: String },
}

/// A failure of a control-plane operation.
#[derive(Debug, Clone)]
pub struct DomainError {
    pub code: ErrorCode,
    pub stage: ErrorStage,
    pub message: String,
    pub retryable: bool,
    pub operation_id: Option<String>,
    pub request_id: Option<String>,
    pub details: Option<ErrorDetails>,
}

/// The view of an optional string.
pub open spec fn opt_str_view(o: Option<String>) -> Option<Seq<char>> {
    match o {
        Some(s) => Some(s@),
        None => None,
    }
}

/// An error with the given code, stage and message, and nothing else.
pub open spec fn is_plain_error(e: DomainError, code: ErrorCode, stage: ErrorStage, msg: Seq<char>) -> bool {
    &&& e.code == code
    &&& e.stage == stage
    &&& e.message@ == msg
    &&& !e.retryable
    &&& e.operation_id is None
    &&& e.request_id is None
    &&& e.details is None
}

impl DomainError {
    pub fn new(code: ErrorCode, stage: ErrorStage, message: String) -> (e: DomainError)
        ensures
            is_plain_error(e, code, stage, message@),
    {
        DomainError {
            code,
            stage,
            message,
            retryable: false,
            operation_id: None,
            request_id: None,
            details: None,
        }
    }

    /// An error built from a string slice message.
    pub fn from_message(code: ErrorCode, stage: ErrorStage, message: &str) -> (e: DomainError)
        ensures
            is_plain_error(e, code, stage, message@),
    {
        DomainError::new(code, stage, String::from_str(message))
    }

    /// The same error carrying the given details.
    pub fn details(self, details: ErrorDetails) -> (e: DomainError)
        ensures
            e == (DomainError { details: Some(details), ..self }),
    {
        DomainError { details: Some(details), ..self }
    }

    /// The same error with the given retry hint.
    pub fn retryable(self, retryable: bool) -> (e: DomainError)
        ensures
            e == (DomainError { retryable, ..self }),
    {
        DomainError { retryable, ..self }
    }

    /// The same error tagged with the operation that produced it.
    pub fn with_operation(self, operation_id: &str, request_id: Option<&str>) -> (e: DomainError)
        ensures
            e.code == self.code,
            e.stage == self.stage,
            e.message == self.message,
            e.retryable == self.retryable,
            e.details == self.details,
            e.operation_id matches Some(id) && id@ == operation_id@,
            match request_id {
                Some(r) => e.request_id matches Some(x) && x@ == r@,
                None => e.request_id is None,
            },
    {
        let request_id = match request_id {
            Some(r) => Some(String::from_str(r)),
            None => None,
        };
        DomainError { operation_id: Some(String::from_str(operation_id)), request_id, ..self }
    }
}

/// An `InvalidArgument` error raised while validating input.
pub fn invalid_argument(message: &str) -> (e: DomainError)
    ensures
        is_plain_error(e, ErrorCode::InvalidArgument, ErrorStage::Validate, message@),
{
    DomainError::from_message(ErrorCode::InvalidArgument, ErrorStage::Validate, message)
}

} // verus!

verus! {

pub enum DetailsView {
    SsidBytes { bytes: usize },
    Revisions { expected_revision: u64, current_revision: u64 },
    SsidConflict { previous_ssid: Seq<char>, requested_ssid: Seq<char> },
}

impl View for ErrorDetails {
    type V = DetailsView;

    open spec fn view(&self) -> DetailsView {
        match self {
            ErrorDetails::SsidBytes { bytes } => DetailsView::SsidBytes { bytes: *bytes },
            ErrorDetails::Revisions { expected_revision, current_revision } => DetailsView::Revisions {
                expected_revision: *expected_revision,
                current_revision: *current_revision,
            },
            ErrorDetails::SsidConflict { previous_ssid, requested_ssid } => DetailsView::SsidConflict {
                previous_ssid: previous_ssid@,
                requested_ssid: requested_ssid@,
            },
        }
    }
}

/// The mathematical content of a [`DomainError`].
pub struct ErrorView {
    pub code: ErrorCode,
    pub stage: ErrorStage,
    pub message: Seq<char>,
    pub retryable: bool,
    pub operation_id: Option<Seq<char>>,
    pub request_id: Option<Seq<char>>,
    pub details: Option<DetailsView>,
}

impl View for DomainError {
    type V = ErrorView;

    open spec fn view(&self) -> ErrorView {
        ErrorView {
            code: self.code,
            stage: self.stage,
            message: self.message@,
            retryable: self.retryable,
            operation_id: opt_str_view(self.operation_id),
            request_id: opt_str_view(self.request_id),
            details: match self.details {
                Some(d) => Some(d@),
                None => None,
            },
        }
    }
}

/// What an error with only a code, a stage and a message is.
pub open spec fn plain_error_view(code: ErrorCode, stage: ErrorStage, message: Seq<char>) -> ErrorView {
    ErrorView {
        code,
        stage,
        message,
        retryable: false,
        operation_id: None,
        request_id: None,
        details: None,
    }
}

pub open spec fn opt_err_view(e: Option<DomainError>) -> Option<ErrorView> {
    match e {
        Some(x) => Some(x@),
        None => None,
    }
}

impl ErrorDetails {
    pub fn copy(&self) -> (r: ErrorDetails)
        ensures
            r@ == self@,
    {
        match self {
            ErrorDetails::SsidBytes { bytes } => ErrorDetails::SsidBytes { bytes: *bytes },
            ErrorDetails::Revisions { expected_revision, current_revision } => ErrorDetails::Revisions {
                expected_revision: *expected_revision,
                current_revision: *current_revision,
            },
            ErrorDetails::SsidConflict { previous_ssid, requested_ssid } => ErrorDetails::SsidConflict {
                previous_ssid: previous_ssid.clone(),
                requested_ssid: requested_ssid.clone(),
            },
        }
    }

    pub fn same_as(&self, other: &ErrorDetails) -> (r: bool)
        ensures
            r == (self@ == other@),
    {
        match (self, other) {
            (ErrorDetails::SsidBytes { bytes: a }, ErrorDetails::SsidBytes { bytes: b }) => *a == *b,
            (
                ErrorDetails::Revisions { expected_revision: a1, current_revision: a2 },
                ErrorDetails::Revisions { expected_revision: b1, current_revision: b2 },
            ) => *a1 == *b1 && *a2 == *b2,
            (
                ErrorDetails::SsidConflict { previous_ssid: a1, requested_ssid: a2 },
                ErrorDetails::SsidConflict { previous_ssid: b1, requested_ssid: b2 },
            ) => *a1 == *b1 && *a2 == *b2,
            _ => false,
        }
    }
}

impl DomainError {
    pub fn copy(&self) -> (r: DomainError)
        ensures
            r@ == self@,
    {
        DomainError {
            code: self.code,
            stage: self.stage,
            message: self.message.clone(),
            retryable: self.retryable,
            operation_id: crate::text::clone_opt_str(&self.operation_id),
            request_id: crate::text::clone_opt_str(&self.request_id),
            details: match &self.details {
                Some(d) => Some(d.copy()),
                None => None,
            },
        }
    }

    /// Equality by content.
    pub fn same_as(&self, other: &DomainError) -> (r: bool)
        ensures
            r == (self@ == other@),
    {
        let details_same = match (&self.details, &other.details) {
            (Some(a), Some(b)) => a.same_as(b),
            (None, None) => true,
            _ => false,
        };
        self.code == other.code && self.stage == other.stage && self.message == other.message
            && self.retryable == other.retryable && crate::text::opt_str_eq(
            &self.operation_id,
            &other.operation_id,
        ) && crate::text::opt_str_eq(&self.request_id, &other.request_id) && details_same
    }
}

/// Equality of optional errors by content.
pub fn opt_err_same(a: &Option<DomainError>, b: &Option<DomainError>) -> (r: bool)
    ensures
        r == (opt_err_view(*a) == opt_err_view(*b)),
{
    match (a, b) {
        (Some(x), Some(y)) => x.same_as(y),
        (None, None) => true,
        _ => false,
    }
}

pub fn copy_opt_err(a: &Option<DomainError>) -> (r: Option<DomainError>)
    ensures
        opt_err_view(r) == opt_err_view(*a),
{
    match a {
        Some(x) => Some(x.copy()),
        None => None,
    }
}

} // verus!
