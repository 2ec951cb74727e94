//! Statuses by which the virtual machine reports a failure.

use vstd::prelude::*;

verus! {

/// The kind of a failure.
#[derive(Clone, Copy, Debug, PartialEq, Eq, Structural)]
pub enum StatusCode {
    /// A point was reached that a verified program can never reach.
    Unreachable,
    /// The registry of native functions disagrees with itself.
    NativeFunctionInternalInconsistency,
    /// A native function failed as part of its ordinary semantics.
    NativeFunctionError,
    /// Any other status of the virtual machine, by its numeric code.
    Other(u64),
}

impl StatusCode {
    /// Whether the status reports a defect of the virtual machine itself,
    /// as opposed to a failure of the running program.
    pub open spec fn spec_is_invariant_violation(self) -> bool {
        self == StatusCode::Unreachable || self == StatusCode::NativeFunctionInternalInconsistency
    }

    #[verifier::when_used_as_spec(spec_is_invariant_violation)]
    pub fn is_invariant_violation(self) -> (violation: bool)
        ensures
            violation == self.spec_is_invariant_violation(),
    {
        match self {
            StatusCode::Unreachable => true,
            StatusCode::NativeFunctionInternalInconsistency => true,
            StatusCode::NativeFunctionError => false,
            StatusCode::Other(_) => false,
        }
    }
}

/// A failure: its kind, an optional finer code and an optional diagnostic message.
#[derive(Clone, Debug, PartialEq, Eq)]
pub struct VMStatus {
    pub major_status: StatusCode,
    pub sub_status: Option<u64>,
    pub message: Option<String>,
}

/// What a `VMStatus` denotes: the message is taken as its characters.
pub struct VMStatusView {
    pub major_status: StatusCode,
    pub sub_status: Option<u64>,
    pub message: Option<Seq<char>>,
}

impl View for VMStatus {
    type V = VMStatusView;

    open spec fn view(&self) -> VMStatusView {
        VMStatusView {
            major_status: self.major_status,
            sub_status: self.sub_status,
            message: match self.message {
                Some(text) => Some(text@),
                None => None,
            },
        }
    }
}

impl VMStatus {
    /// A status of the given kind, with neither sub-status nor message.
    pub fn new(major_status: StatusCode) -> (status: VMStatus)
        ensures
            status@ == (VMStatusView { major_status, sub_status: None, message: None }),
    {
        VMStatus { major_status, sub_status: None, message: None }
    }

    /// The same status with its sub-status set.
    pub fn with_sub_status(self, sub_status: u64) -> (status: VMStatus)
        ensures
            status@ == (VMStatusView { sub_status: Some(sub_status), ..self@ }),
    {
        VMStatus { major_status: self.major_status, sub_status: Some(sub_status), message: self.message }
    }

    /// The same status with its message set.
    pub fn with_message(self, message: String) -> (status: VMStatus)
        ensures
            status@ == (VMStatusView { message: Some(message@), ..self@ }),
    {
        VMStatus { major_status: self.major_status, sub_status: self.sub_status, message: Some(message) }
    }
}

} // verus!
