//! Diagnostic tools: the checks around a ping of a host.

use vstd::prelude::*;
use vstd::string::*;

use crate::errors::{DomainError, ErrorCode, ErrorStage, is_plain_error};
use crate::text::{concat, trim, trim_spec};

verus! {

/// A request to ping a host.
#[derive(Debug, Clone, PartialEq, Eq)]
pub struct PingRequest {
    pub host: String,
}

/// What the ping command printed.
#[derive(Debug, Clone, PartialEq, Eq)]
pub struct PingResult {
    pub output: String,
}

/// The host to ping: the request's host without surrounding whitespace, which must not be
/// empty.
pub fn ping_target(host: &str) -> (r: Result<String, DomainError>)
    ensures
        match r {
            Ok(h) => h@ == trim_spec(host@) && h@.len() > 0,
            Err(e) => trim_spec(host@).len() == 0 && is_plain_error(
                e,
                ErrorCode::InvalidArgument,
                ErrorStage::Validate,
                "host must not be empty"@,
            ),
        },
{
    let trimmed = trim(host);
    if trimmed.unicode_len() == 0 {
        return Err(DomainError::from_message(ErrorCode::InvalidArgument, ErrorStage::Validate, "host must not be empty"));
    }
    Ok(trimmed)
}

/// The output of a finished ping: standard output, standard error, or both one after the other.
pub fn ping_output(stdout: &str, stderr: &str) -> (r: PingResult)
    ensures
        r.output@ == if stdout@.len() == 0 {
            stderr@
        } else if stderr@.len() == 0 {
            stdout@
        } else {
            stdout@ + stderr@
        },
{
    let output = if stdout.unicode_len() == 0 {
        String::from_str(stderr)
    } else if stderr.unicode_len() == 0 {
        String::from_str(stdout)
    } else {
        concat(stdout, stderr)
    };
    PingResult { output }
}

/// The error for a ping command that could not be started.
pub fn ping_spawn_error(reason: &str) -> (e: DomainError)
    ensures
        is_plain_error(e, ErrorCode::Internal, ErrorStage::Transport, "failed to execute ping command: "@ + reason@),
{
    DomainError::new(ErrorCode::Internal, ErrorStage::Transport, concat("failed to execute ping command: ", reason))
}

} // verus!
