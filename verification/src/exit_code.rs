//! Error taxonomy and exit-code mapping.
//!
//! Failures are split into classes that the operator can act on differently:
//! configuration and credential problems (and provider rejections of a
//! request) are user errors, everything else is an operational failure.

use vstd::prelude::*;

verus! {

/// The class of a failure, used to pick the process outcome.
#[derive(Clone, Copy, PartialEq, Eq, Structural, Debug)]
pub enum ErrorClass {
    /// Invalid or missing required settings; fatal, non-retryable.
    Configuration,
    /// Authentication material missing or unreadable; fatal at startup.
    Credential,
    /// Interface not found or address enumeration failed.
    AddressSource,
    /// A failure from a provider list/create/update/delete call.
    /// `user_actionable` marks requests the provider rejected
    /// (bad zone, bad auth) as opposed to transport failures.
    ProviderApi { user_actionable: bool },
    /// Anything unexpected.
    Internal,
}

/// How a provider call failed: the provider answered with an error
/// response, or the request never got a well-formed answer.
#[derive(Clone, Copy, PartialEq, Eq, Structural, Debug)]
pub enum ApiFailureKind {
    ErrorResponse,
    Invalid,
}

/// The generic failure exit code.
pub const FAILURE_CODE: u8 = 1;

/// The exit code for errors the operator can act on.
pub const USER_ERROR_CODE: u8 = 2;

/// The exit code for errors the operator can act on, as distinct from
/// operational failures.
pub fn user_error_exitcode() -> (r: u8)
    ensures
        r == USER_ERROR_CODE,
{
    USER_ERROR_CODE
}

/// The exit code owed to each error class: user-actionable classes get
/// the user-error code, the rest the generic failure code.
pub open spec fn exit_code_of(class: ErrorClass) -> u8 {
    match class {
        ErrorClass::Configuration => USER_ERROR_CODE,
        ErrorClass::Credential => USER_ERROR_CODE,
        ErrorClass::AddressSource => FAILURE_CODE,
        ErrorClass::ProviderApi { user_actionable } => if user_actionable {
            USER_ERROR_CODE
        } else {
            FAILURE_CODE
        },
        ErrorClass::Internal => FAILURE_CODE,
    }
}

/// A provider error is user-actionable exactly when the provider itself
/// rejected the request with an error response.
pub fn api_error_to_exitcode(kind: &ApiFailureKind) -> (r: u8)
    ensures
        r == exit_code_of(
            ErrorClass::ProviderApi { user_actionable: kind is ErrorResponse },
        ),
        r == USER_ERROR_CODE <==> kind is ErrorResponse,
{
    match kind {
        ApiFailureKind::ErrorResponse => USER_ERROR_CODE,
        ApiFailureKind::Invalid => FAILURE_CODE,
    }
}

/// A failure together with the exit code it should produce.
#[derive(Clone, Copy, PartialEq, Eq, Structural, Debug)]
pub struct ExitCodeError {
    pub class: ErrorClass,
    pub exit_code: u8,
}

impl ExitCodeError {
    /// Whether the exit code is the one owed to the class.
    pub open spec fn wf(self) -> bool {
        self.exit_code == exit_code_of(self.class)
    }

    /// Build the error owed to a failure class.
    pub fn new(class: ErrorClass) -> (r: Self)
        ensures
            r.class == class,
            r.wf(),
    {
        let code = match class {
            ErrorClass::Configuration => USER_ERROR_CODE,
            ErrorClass::Credential => USER_ERROR_CODE,
            ErrorClass::AddressSource => FAILURE_CODE,
            ErrorClass::ProviderApi { user_actionable } => if user_actionable {
                USER_ERROR_CODE
            } else {
                FAILURE_CODE
            },
            ErrorClass::Internal => FAILURE_CODE,
        };
        ExitCodeError { class, exit_code: code }
    }
}

/// A run outcome as reported to the process supervisor.
pub struct AppResult<T, E>(pub Result<T, E>);

impl<T> AppResult<T, ExitCodeError> {
    /// The exit code of the whole run: success exits with zero, a failure
    /// with the code it carries.
    pub fn report(self) -> (r: u8)
        ensures
            self.0 is Ok ==> r == 0,
            self.0 matches Err(e) ==> r == e.exit_code,
    {
        match self.0 {
            Ok(_) => 0,
            Err(e) => e.exit_code,
        }
    }
}

} // verus!
