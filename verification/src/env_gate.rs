//! Before any stateful work begins, the six launcher environment signals
//! must all be present. Only presence is examined, never the values, and
//! any missing subset yields the same single generic failure.
//!
//! Validation is a pure function over an injected record of presence
//! flags; reading the actual process environment is the caller's business.

use vstd::prelude::*;

verus! {

/// Presence (not value) of the six environment signals the launcher is
/// expected to export for a workflow: workflow version, data directory,
/// cache directory, unique workflow id, workflow name, launcher version.
#[derive(Clone, Copy, Debug, PartialEq, Eq, Structural)]
pub struct EnvSignals {
    pub workflow_version: bool,
    pub workflow_data: bool,
    pub workflow_cache: bool,
    pub workflow_uid: bool,
    pub workflow_name: bool,
    pub alfred_version: bool,
}

/// The single failure kind of environment validation: the message
/// deliberately does not say which signal is missing.
#[derive(Clone, Copy, Debug, PartialEq, Eq, Structural)]
pub enum EnvironmentError {
    NotSetUp,
}

/// All six signals are present simultaneously.
pub open spec fn all_signals_present(e: EnvSignals) -> bool {
    &&& e.workflow_version
    &&& e.workflow_data
    &&& e.workflow_cache
    &&& e.workflow_uid
    &&& e.workflow_name
    &&& e.alfred_version
}

/// What `validate` returns on a given record of signals.
pub open spec fn validate_spec(e: EnvSignals) -> Result<(), EnvironmentError> {
    if all_signals_present(e) {
        Ok(())
    } else {
        Err(EnvironmentError::NotSetUp)
    }
}

/// Succeeds exactly when all six signals are present; any missing subset
/// fails with the one generic error kind.
pub fn validate(e: &EnvSignals) -> (r: Result<(), EnvironmentError>)
    ensures
        r == validate_spec(*e),
        r is Ok <==> all_signals_present(*e),
{
    if e.workflow_version && e.workflow_data && e.workflow_cache && e.workflow_uid
        && e.workflow_name && e.alfred_version {
        Ok(())
    } else {
        Err(EnvironmentError::NotSetUp)
    }
}

/// Validation is total: for every subset of present signals, it succeeds
/// exactly when all six are present, and every failing subset fails with
/// the same single error kind.
pub proof fn lemma_env_gate_totality(e: EnvSignals)
    ensures
        validate_spec(e) is Ok <==> all_signals_present(e),
        !all_signals_present(e) ==> validate_spec(e) == Result::<(), EnvironmentError>::Err(
            EnvironmentError::NotSetUp,
        ),
{
}

} // verus!
