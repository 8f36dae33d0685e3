//! Forcing the router to the desired SSID: stage it in a session, check what was staged, apply
//! it, wait for the radios to converge, then confirm or roll back.

use vstd::prelude::*;
use vstd::string::*;

use crate::backend::{RouterBackend, ended_as, staged_prefix};
use crate::errors::{DomainError, ErrorCode, ErrorStage, is_plain_error};
use crate::operation::OperationSource;
use crate::state::WanStatus;
use crate::wan::WanDesired;
use crate::text::{concat, str_eq, strs_view};

verus! {

/// The SSID a list of readings gives a radio, the last reading winning.
pub open spec fn reading_of(pairs: Seq<(String, String)>, t: Seq<char>) -> Option<Seq<char>>
    decreases pairs.len(),
{
    if pairs.len() == 0 {
        None
    } else if pairs.last().0@ == t {
        Some(pairs.last().1@)
    } else {
        reading_of(pairs.drop_last(), t)
    }
}

/// Every target radio reads `ssid`.
pub open spec fn all_carry(pairs: Seq<(String, String)>, targets: Seq<Seq<char>>, ssid: Seq<char>) -> bool {
    forall|i: int| 0 <= i < targets.len() ==> reading_of(pairs, #[trigger] targets[i]) == Some(ssid)
}

fn reading<'a>(pairs: &'a Vec<(String, String)>, t: &str) -> (r: Option<&'a String>)
    ensures
        match r {
            Some(s) => reading_of(pairs@, t@) == Some(s@),
            None => reading_of(pairs@, t@) is None,
        },
{
    let mut i = pairs.len();
    proof {
        assert(pairs@.take(i as int) =~= pairs@);
    }
    while i > 0
        invariant
            i <= pairs@.len(),
            reading_of(pairs@, t@) == reading_of(pairs@.take(i as int), t@),
        decreases i,
    {
        proof {
            assert(pairs@.take(i as int).drop_last() =~= pairs@.take(i - 1));
            assert(pairs@.take(i as int).last() == pairs@[i - 1]);
        }
        if str_eq(pairs[i - 1].0.as_str(), t) {
            return Some(&pairs[i - 1].1);
        }
        i -= 1;
    }
    None
}

/// Whether every target radio reads `ssid` in `pairs`.
pub fn all_targets_carry(pairs: &Vec<(String, String)>, targets: &[String], ssid: &str) -> (r: bool)
    ensures
        r == all_carry(pairs@, strs_view(targets@), ssid@),
{
    let ghost ts = strs_view(targets@);
    let mut i: usize = 0;
    while i < targets.len()
        invariant
            i <= targets@.len(),
            ts == strs_view(targets@),
            forall|j: int| 0 <= j < i ==> reading_of(pairs@, #[trigger] ts[j]) == Some(ssid@),
        decreases targets@.len() - i,
    {
        proof {
            assert(ts[i as int] == targets@[i as int]@);
        }
        match reading(pairs, targets[i].as_str()) {
            Some(s) => {
                if !str_eq(s.as_str(), ssid) {
                    return false;
                }
            },
            None => {
                return false;
            },
        }
        i += 1;
    }
    true
}

/// The error for a sync without managed radios.
pub open spec fn is_no_targets_error(e: DomainError) -> bool {
    is_plain_error(e, ErrorCode::TargetMissing, ErrorStage::Reconcile, "cannot reconcile Wi-Fi without managed targets"@)
}

/// The error for a staged SSID that reads back differently.
pub open spec fn is_stage_mismatch(e: DomainError) -> bool {
    is_plain_error(e, ErrorCode::UciStageMismatch, ErrorStage::Reconcile, "recovery stage did not match desired state"@)
}

/// The steps of forcing an SSID onto the radios, in the order they run.
#[derive(Debug, Clone, Copy, PartialEq, Eq, Structural)]
pub enum SyncStep {
    /// Stage the SSID on the targets in the session.
    Stage,
    /// Read the targets back from the session and check that each carries the SSID.
    ReadBack,
    /// Apply the session with a rollback timer.
    Apply,
}

/// What follows a step of forcing an SSID.
#[derive(Debug)]
pub enum SyncNext {
    /// Run this step next.
    Run(SyncStep),
    /// The SSID is applied.
    Applied,
    /// Revert what the session staged, then return this error.
    Revert(DomainError),
    /// Roll the session back, revert what it staged, then return this error.
    RollBackAndRevert(DomainError),
}

/// The step after `step` ended with `outcome`: staging leads to the read-back, the read-back to
/// applying, applying to the end; a failed stage or read-back reverts the session, a failed
/// apply rolls it back and reverts it, and either way the step's error is returned.
pub open spec fn sync_next_spec(step: SyncStep, outcome: Result<(), DomainError>) -> SyncNext {
    match outcome {
        Ok(_) => match step {
            SyncStep::Stage => SyncNext::Run(SyncStep::ReadBack),
            SyncStep::ReadBack => SyncNext::Run(SyncStep::Apply),
            SyncStep::Apply => SyncNext::Applied,
        },
        Err(e) => match step {
            SyncStep::Stage | SyncStep::ReadBack => SyncNext::Revert(e),
            SyncStep::Apply => SyncNext::RollBackAndRevert(e),
        },
    }
}

/// Decides what follows a step of forcing an SSID from how it ended.
pub fn sync_next(step: SyncStep, outcome: Result<(), DomainError>) -> (r: SyncNext)
    ensures
        r == sync_next_spec(step, outcome),
{
    match outcome {
        Ok(()) => match step {
            SyncStep::Stage => SyncNext::Run(SyncStep::ReadBack),
            SyncStep::ReadBack => SyncNext::Run(SyncStep::Apply),
            SyncStep::Apply => SyncNext::Applied,
        },
        Err(e) => match step {
            SyncStep::Stage | SyncStep::ReadBack => SyncNext::Revert(e),
            SyncStep::Apply => SyncNext::RollBackAndRevert(e),
        },
    }
}

/// An SSID is applied only through every step in order: from staging, successful steps reach
/// the read-back, then applying, then the end; a failed step never ends applied, and a failure
/// after applying is the only one that rolls back.
pub proof fn lemma_sync_steps_in_order()
    ensures
        sync_next_spec(SyncStep::Stage, Ok(())) == SyncNext::Run(SyncStep::ReadBack),
        sync_next_spec(SyncStep::ReadBack, Ok(())) == SyncNext::Run(SyncStep::Apply),
        sync_next_spec(SyncStep::Apply, Ok(())) == SyncNext::Applied,
        forall|step: SyncStep, e: DomainError| !(#[trigger] sync_next_spec(step, Err(e)) is Applied),
        forall|step: SyncStep, e: DomainError|
            (#[trigger] sync_next_spec(step, Err(e)) is RollBackAndRevert) <==> step == SyncStep::Apply,
{
}

/// Checks what the session reads back for the targets: every target must carry `ssid`;
/// a failed read is passed on.
pub fn read_back_check(read: Result<Vec<(String, String)>, DomainError>, targets: &[String], ssid: &str) -> (r:
    Result<(), DomainError>)
    ensures
        match read {
            Ok(pairs) => if all_carry(pairs@, strs_view(targets@), ssid@) {
                r is Ok
            } else {
                r matches Err(e) && is_stage_mismatch(e)
            },
            Err(e) => r == Err::<(), DomainError>(e),
        },
{
    match read {
        Ok(pairs) => if all_targets_carry(&pairs, targets, ssid) {
            Ok(())
        } else {
            Err(
                DomainError::from_message(
                    ErrorCode::UciStageMismatch,
                    ErrorStage::Reconcile,
                    "recovery stage did not match desired state",
                ),
            )
        },
        Err(error) => Err(error),
    }
}

/// Stages `ssid` on the targets in `session`, checks that every target reads it back from the
/// session, and applies the session with a rollback timer, going from step to step as
/// `sync_next` says: a failed stage or read-back reverts the session; a failed apply rolls it
/// back and reverts it; the error of the failed step is returned. Without targets nothing is
/// done.
pub fn stage_and_apply<B: RouterBackend>(
    backend: &mut B,
    session: &str,
    targets: &[String],
    ssid: &str,
    rollback_timeout_secs: u32,
) -> (r: Result<(), DomainError>)
    ensures
        targets@.len() == 0 ==> (r matches Err(e) && is_no_targets_error(e)) && *final(backend) == *old(backend),
        targets@.len() > 0 ==> match old(backend).stage_error(session@, strs_view(targets@), ssid@) {
            Some(x) => (r matches Err(e) && e@ == x) && final(backend).committed_view() == old(
                backend,
            ).committed_view() && final(backend).wan_committed_view() == old(backend).wan_committed_view(),
            None => true,
        },
        r is Ok ==> forall|i: int| 0 <= i < targets@.len() ==> final(backend).committed_view().contains_key(
            #[trigger] targets@[i]@,
        ) && final(backend).committed_view()[targets@[i]@] == ssid@,
        r is Ok ==> old(backend).session_view(session@) is Some && final(backend).committed_view() == staged_prefix(
            old(backend).session_view(session@)->0,
            strs_view(targets@),
            ssid@,
            targets@.len() as nat,
        ) && final(backend).rollback_view(session@) == Some(old(backend).committed_view()),
        r is Err ==> final(backend).committed_view() == old(backend).committed_view() || (old(
            backend,
        ).rollback_view(session@) matches Some(m) && final(backend).committed_view() == m),
        r is Err ==> final(backend).wan_committed_view() == old(backend).wan_committed_view() || (old(
            backend,
        ).wan_rollback_view(session@) matches Some(w) && final(backend).wan_committed_view() == w),
{
    if targets.len() == 0 {
        return Err(
            DomainError::from_message(
                ErrorCode::TargetMissing,
                ErrorStage::Reconcile,
                "cannot reconcile Wi-Fi without managed targets",
            ),
        );
    }
    let ghost before = backend.session_view(session@);
    let staged_result = backend.stage_ssid(session, targets, ssid);
    if let SyncNext::Revert(error) = sync_next(SyncStep::Stage, staged_result) {
        let _ = backend.revert_staged(session);
        return Err(error);
    }
    let ghost staged = backend.session_view(session@)->0;
    proof {
        let ts = strs_view(targets@);
        let n = targets@.len() as nat;
        let m0 = before->0;
        assert forall|j: int| 0 <= j < n implies m0.contains_key(#[trigger] ts[j]) by {
            crate::backend::lemma_first_missing_prefix(m0, ts, 0, j);
        }
        crate::backend::lemma_staged_prefix_dom(m0, ts, ssid@, n);
        assert(ts.take(n as int) =~= ts);
        assert forall|i: int| 0 <= i < targets@.len() implies staged.contains_key(#[trigger] targets@[i]@)
            && staged[targets@[i]@] == ssid@ by {
            assert(ts[i] == targets@[i]@);
            assert(ts.contains(ts[i]));
            crate::backend::lemma_staged_prefix_at(m0, ts, ssid@, n, ts[i]);
        }
    }
    let read = backend.read_ssids(targets, Some(session));
    let read_back = read_back_check(read, targets, ssid);
    if let SyncNext::Revert(error) = sync_next(SyncStep::ReadBack, read_back) {
        let _ = backend.revert_staged(session);
        return Err(error);
    }
    let applied = backend.apply(session, rollback_timeout_secs);
    if let SyncNext::RollBackAndRevert(error) = sync_next(SyncStep::Apply, applied) {
        let _ = backend.rollback(session);
        let _ = backend.revert_staged(session);
        return Err(error);
    }
    Ok(())
}

/// Ends a sync once the radios were watched: a failed convergence rolls the session back and
/// is returned; a converged one is confirmed.
pub fn finish_sync<B: RouterBackend>(backend: &mut B, session: &str, converged: Result<(), DomainError>) -> (r: Result<
    (),
    DomainError,
>)
    ensures
        converged matches Err(e) ==> r == Err::<(), DomainError>(e),
        converged is Err ==> match old(backend).rollback_error(session@) {
            None => final(backend).committed_view() == match old(backend).rollback_view(session@) {
                Some(m) => m,
                None => old(backend).committed_view(),
            } && final(backend).wan_committed_view() == match old(backend).wan_rollback_view(session@) {
                Some(w) => w,
                None => old(backend).wan_committed_view(),
            },
            Some(_) => final(backend).committed_view() == old(backend).committed_view()
                && final(backend).wan_committed_view() == old(backend).wan_committed_view(),
        },
        converged is Ok ==> ended_as(r, old(backend).confirm_error(session@))
            && final(backend).committed_view() == old(backend).committed_view()
            && final(backend).wan_committed_view() == old(backend).wan_committed_view(),
{
    if let Err(error) = converged {
        let _ = backend.rollback(session);
        return Err(error);
    }
    backend.confirm(session)
}

/// Watches the radios converge: a change counts as converged after two healthy samples in a
/// row, and remembers why the last sample fell short.
#[derive(Debug)]
pub struct Convergence {
    pub successful_samples: u8,
    pub last_reason: String,
}

impl Convergence {
    pub fn new() -> (r: Convergence)
        ensures
            r.successful_samples == 0,
            r.last_reason@ == "wireless state not converged"@,
    {
        Convergence { successful_samples: 0, last_reason: String::from_str("wireless state not converged") }
    }

    /// The radios could not be read.
    pub fn read_failed(&mut self, error: &DomainError)
        ensures
            final(self).successful_samples == 0,
            final(self).last_reason@ == error.message@,
    {
        self.successful_samples = 0;
        self.last_reason = error.message.clone();
    }

    /// The committed configuration differs from the candidate.
    pub fn differs(&mut self)
        ensures
            final(self).successful_samples == 0,
            final(self).last_reason@ == "committed UCI does not match candidate Wi-Fi configuration"@,
    {
        self.successful_samples = 0;
        self.last_reason = String::from_str("committed UCI does not match candidate Wi-Fi configuration");
    }

    /// The committed configuration matches; `runtime` is the health of the wireless runtime.
    /// Tells whether the change has converged.
    pub fn runtime_sample(&mut self, runtime: Result<bool, DomainError>) -> (converged: bool)
        requires
            old(self).successful_samples < 2,
        ensures
            converged == (runtime == Ok::<bool, DomainError>(true) && old(self).successful_samples == 1),
            final(self).successful_samples < 2 || converged,
            runtime == Ok::<bool, DomainError>(true) ==> final(self).successful_samples == old(self).successful_samples + 1
                && final(self).last_reason == old(self).last_reason,
            runtime == Ok::<bool, DomainError>(false) ==> final(self).successful_samples == 0
                && final(self).last_reason@ == "wireless runtime is not healthy"@,
            runtime matches Err(e) ==> final(self).successful_samples == 0 && final(self).last_reason@ == e.message@,
    {
        match runtime {
            Ok(true) => {
                self.successful_samples = self.successful_samples + 1;
                self.successful_samples >= 2
            },
            Ok(false) => {
                self.successful_samples = 0;
                self.last_reason = String::from_str("wireless runtime is not healthy");
                false
            },
            Err(e) => {
                self.successful_samples = 0;
                self.last_reason = e.message;
                false
            },
        }
    }

    /// The error once the deadline passed without convergence.
    pub fn timeout_error(&self) -> (e: DomainError)
        ensures
            e.code == ErrorCode::VerifyTimeout,
            e.stage == ErrorStage::Verify,
            e.message@ == "Wi-Fi configuration did not converge before timeout: "@ + self.last_reason@,
            e.retryable,
            e.operation_id is None && e.request_id is None && e.details is None,
    {
        DomainError::new(
            ErrorCode::VerifyTimeout,
            ErrorStage::Verify,
            concat("Wi-Fi configuration did not converge before timeout: ", self.last_reason.as_str()),
        ).retryable(true)
    }
}


/// Stages the WAN configuration in `session`, applies and confirms it. A failed stage reverts
/// the session; a failed apply rolls it back and reverts it.
pub fn force_wan_state_sync<B: RouterBackend>(
    backend: &mut B,
    session: &str,
    desired: &WanDesired,
    rollback_timeout_secs: u32,
) -> (r: Result<(), DomainError>)
    ensures
        r is Ok ==> final(backend).wan_committed_view() == desired@,
        match old(backend).wan_stage_error(session@, desired@) {
            Some(x) => (r matches Err(e) && e@ == x) && final(backend).wan_committed_view() == old(
                backend,
            ).wan_committed_view() && final(backend).committed_view() == old(backend).committed_view(),
            None => true,
        },
        r is Err ==> final(backend).wan_committed_view() == old(backend).wan_committed_view()
            || final(backend).wan_committed_view() == desired@ || (old(backend).wan_rollback_view(session@) matches Some(
            w,
        ) && final(backend).wan_committed_view() == w),
{
    if let Err(error) = backend.stage_wan_config(session, desired) {
        let _ = backend.revert_staged(session);
        return Err(error);
    }
    if let Err(error) = backend.apply(session, rollback_timeout_secs) {
        let _ = backend.rollback(session);
        let _ = backend.revert_staged(session);
        return Err(error);
    }
    backend.confirm(session)
}

/// A WAN link that is up or coming up counts as ready.
pub fn wan_ready(status: WanStatus) -> (r: bool)
    ensures
        r == (status == WanStatus::Connected || status == WanStatus::Connecting),
{
    status == WanStatus::Connected || status == WanStatus::Connecting
}

/// A WAN change is watched only when it leaves a WAN configured.
pub fn wan_needs_verification(new_wan: &WanDesired) -> (r: bool)
    ensures
        r == new_wan.present,
{
    new_wan.present
}

/// The error once the WAN did not come up before the deadline.
pub fn wan_not_ready() -> (e: DomainError)
    ensures
        is_plain_error(e, ErrorCode::VerifyTimeout, ErrorStage::Verify, "WAN interface did not become ready"@),
{
    DomainError::from_message(ErrorCode::VerifyTimeout, ErrorStage::Verify, "WAN interface did not become ready")
}

/// A user change whose confirmation failed after it was saved may or may not be in force.
pub fn confirm_left_uncertain(source: OperationSource, error: &DomainError) -> (r: bool)
    ensures
        r == (source == OperationSource::User && error.code == ErrorCode::ConfirmFailed),
{
    source == OperationSource::User && error.code == ErrorCode::ConfirmFailed
}


/// The steps of a WAN change, in the order they run once a session is open.
#[derive(Debug, Clone, Copy, PartialEq, Eq, Structural)]
pub enum WanStep {
    /// Stage the new WAN configuration and apply it with a rollback timer.
    StageAndApply,
    /// Wait for the WAN to come up.
    Verify,
    /// Save the new configuration and confirm the session.
    PersistAndConfirm,
}

/// What the worker does after a step of a WAN change.
#[derive(Debug, Clone, PartialEq, Eq)]
pub enum WanNext {
    /// Run this step next.
    Run(WanStep),
    /// The change is in force: record its success.
    Succeed,
    /// Roll the session back (and, when `revert`, revert what it staged), then record the
    /// failure.
    Fail { revert: bool },
    /// Roll the session back and record that a user change may or may not be in force.
    Uncertain,
}

/// The step after `step` ended with `outcome`: each step that succeeds leads to the next, the
/// last to success; a failure rolls back, reverting staged changes when staging or applying
/// failed, and a user change whose confirmation failed is left uncertain.
pub open spec fn wan_next_spec(step: WanStep, failed_code: Option<ErrorCode>, source: OperationSource) -> WanNext {
    match failed_code {
        None => match step {
            WanStep::StageAndApply => WanNext::Run(WanStep::Verify),
            WanStep::Verify => WanNext::Run(WanStep::PersistAndConfirm),
            WanStep::PersistAndConfirm => WanNext::Succeed,
        },
        Some(code) => match step {
            WanStep::StageAndApply => WanNext::Fail { revert: true },
            WanStep::Verify => WanNext::Fail { revert: false },
            WanStep::PersistAndConfirm => if source == OperationSource::User && code == ErrorCode::ConfirmFailed {
                WanNext::Uncertain
            } else {
                WanNext::Fail { revert: false }
            },
        },
    }
}

/// Decides what follows a step of a WAN change from how it ended.
pub fn wan_next(step: WanStep, outcome: &Result<(), DomainError>, source: OperationSource) -> (r: WanNext)
    ensures
        r == wan_next_spec(
            step,
            match outcome {
                Ok(_) => None,
                Err(e) => Some(e.code),
            },
            source,
        ),
{
    match outcome {
        Ok(()) => match step {
            WanStep::StageAndApply => WanNext::Run(WanStep::Verify),
            WanStep::Verify => WanNext::Run(WanStep::PersistAndConfirm),
            WanStep::PersistAndConfirm => WanNext::Succeed,
        },
        Err(e) => match step {
            WanStep::StageAndApply => WanNext::Fail { revert: true },
            WanStep::Verify => WanNext::Fail { revert: false },
            WanStep::PersistAndConfirm => if confirm_left_uncertain(source, e) {
                WanNext::Uncertain
            } else {
                WanNext::Fail { revert: false }
            },
        },
    }
}

/// A WAN change succeeds only through every step in order: starting from staging, a run of
/// successful steps reaches success exactly after the third.
pub proof fn lemma_wan_steps_in_order(source: OperationSource)
    ensures
        wan_next_spec(WanStep::StageAndApply, None, source) == WanNext::Run(WanStep::Verify),
        wan_next_spec(WanStep::Verify, None, source) == WanNext::Run(WanStep::PersistAndConfirm),
        wan_next_spec(WanStep::PersistAndConfirm, None, source) == WanNext::Succeed,
        forall|step: WanStep, code: ErrorCode| !(#[trigger] wan_next_spec(step, Some(code), source) is Succeed),
{
}

} // verus!
