//! The dispatcher: from a native function to the routine that implements
//! it, and what a run of that routine hands back.

use crate::gas::{CostTable, GasUnits};
use crate::registry::NativeFunction;
use crate::status::{StatusCode, VMStatus, VMStatusView};
use std::collections::VecDeque;
use vstd::prelude::*;

verus! {

/// Result of a native function execution that is charged for.
///
/// The cost is owed whether the execution succeeded or not. A failure in
/// `result` is part of the function's own semantics, such as an abort on bad
/// input. A violation of an invariant of the virtual machine is no such
/// failure: it is returned in place of a `NativeResult`, and nothing is
/// charged for it.
#[derive(Debug, PartialEq, Eq)]
pub struct NativeResult<V> {
    /// The cost for running the function, whether successfully or not.
    pub cost: GasUnits,
    /// Either the values that the function returns or the failure to report.
    pub result: Result<Vec<V>, VMStatus>,
}

impl<V> NativeResult<V> {
    /// Return values of a successful execution.
    pub fn ok(cost: GasUnits, values: Vec<V>) -> (outcome: Self)
        ensures
            outcome.cost == cost,
            outcome.result == Ok::<Vec<V>, VMStatus>(values),
    {
        NativeResult { cost, result: Ok(values) }
    }

    /// Status of a failed execution: a failure at run time of the function,
    /// no violation of an invariant of the virtual machine.
    pub fn err(cost: GasUnits, err: VMStatus) -> (outcome: Self)
        ensures
            outcome.cost == cost,
            outcome.result == Err::<Vec<V>, VMStatus>(err),
    {
        NativeResult { cost, result: Err(err) }
    }
}

/// A routine that implements native functions.
///
/// The routines are not part of the dispatcher: whoever runs it supplies
/// them. Each takes the type arguments, the queue of argument values and the
/// cost table, and returns a charged result or a violation of an invariant.
#[allow(non_camel_case_types)]
#[derive(Clone, Copy, Debug, PartialEq, Eq, Structural)]
pub enum NativeRoutine {
    Sha2_256,
    Sha3_256,
    Ed25519SignatureVerification,
    Ed25519ThresholdSignatureVerification,
    AddressToBytes,
    U64ToBytes,
    BytearrayConcat,
    Length,
    Empty,
    Borrow,
    PushBack,
    Pop,
    DestroyEmpty,
    Swap,
}

impl NativeFunction {
    /// The routine that implements the function, if any does. Borrowing from
    /// a vector is one routine, whether the borrow is mutable or not.
    pub open spec fn spec_routine(self) -> Option<NativeRoutine> {
        match self {
            NativeFunction::HashSha2_256 => Some(NativeRoutine::Sha2_256),
            NativeFunction::HashSha3_256 => Some(NativeRoutine::Sha3_256),
            NativeFunction::SigED25519Verify => Some(NativeRoutine::Ed25519SignatureVerification),
            NativeFunction::SigED25519ThresholdVerify => Some(
                NativeRoutine::Ed25519ThresholdSignatureVerification,
            ),
            NativeFunction::AddrUtilToBytes => Some(NativeRoutine::AddressToBytes),
            NativeFunction::U64UtilToBytes => Some(NativeRoutine::U64ToBytes),
            NativeFunction::BytearrayConcat => Some(NativeRoutine::BytearrayConcat),
            NativeFunction::VectorLength => Some(NativeRoutine::Length),
            NativeFunction::VectorEmpty => Some(NativeRoutine::Empty),
            NativeFunction::VectorBorrow => Some(NativeRoutine::Borrow),
            NativeFunction::VectorBorrowMut => Some(NativeRoutine::Borrow),
            NativeFunction::VectorPushBack => Some(NativeRoutine::PushBack),
            NativeFunction::VectorPopBack => Some(NativeRoutine::Pop),
            NativeFunction::VectorDestroyEmpty => Some(NativeRoutine::DestroyEmpty),
            NativeFunction::VectorSwap => Some(NativeRoutine::Swap),
            NativeFunction::AccountWriteEvent => None,
            NativeFunction::AccountSaveAccount => None,
        }
    }

    #[verifier::when_used_as_spec(spec_routine)]
    pub fn routine(self) -> (routine: Option<NativeRoutine>)
        ensures
            routine == self.spec_routine(),
    {
        match self {
            Self::HashSha2_256 => Some(NativeRoutine::Sha2_256),
            Self::HashSha3_256 => Some(NativeRoutine::Sha3_256),
            Self::SigED25519Verify => Some(NativeRoutine::Ed25519SignatureVerification),
            Self::SigED25519ThresholdVerify => Some(
                NativeRoutine::Ed25519ThresholdSignatureVerification,
            ),
            Self::AddrUtilToBytes => Some(NativeRoutine::AddressToBytes),
            Self::U64UtilToBytes => Some(NativeRoutine::U64ToBytes),
            Self::BytearrayConcat => Some(NativeRoutine::BytearrayConcat),
            Self::VectorLength => Some(NativeRoutine::Length),
            Self::VectorEmpty => Some(NativeRoutine::Empty),
            Self::VectorBorrow => Some(NativeRoutine::Borrow),
            Self::VectorBorrowMut => Some(NativeRoutine::Borrow),
            Self::VectorPushBack => Some(NativeRoutine::PushBack),
            Self::VectorPopBack => Some(NativeRoutine::Pop),
            Self::VectorDestroyEmpty => Some(NativeRoutine::DestroyEmpty),
            Self::VectorSwap => Some(NativeRoutine::Swap),
            Self::AccountWriteEvent => None,
            Self::AccountSaveAccount => None,
        }
    }

    /// The failure with which a function that no routine implements is
    /// turned away.
    pub open spec fn no_native_implementation(self) -> VMStatusView {
        VMStatusView {
            major_status: StatusCode::Unreachable,
            sub_status: None,
            message: Some(
                if self == NativeFunction::AccountWriteEvent {
                    "write_to_event_store does not have a native implementation"@
                } else {
                    "save_account does not have a native implementation"@
                },
            ),
        }
    }

    /// Given the type arguments and the queue of arguments, executes the
    /// native function: hands them, with the cost table, to the routine that
    /// implements it, and returns what the routine returns.
    ///
    /// A function that no routine implements is turned away as a violation
    /// of an invariant, whatever the arguments: nothing is run and nothing
    /// is charged.
    pub fn dispatch<T, V, F>(
        self,
        t: Vec<T>,
        v: VecDeque<V>,
        c: &CostTable,
        natives: &F,
    ) -> (outcome: Result<NativeResult<V>, VMStatus>) where
        F: Fn(NativeRoutine, Vec<T>, VecDeque<V>, &CostTable) -> Result<NativeResult<V>, VMStatus>,

        requires
            self.spec_routine() matches Some(routine) ==> call_requires(
                natives,
                (routine, t, v, c),
            ),
        ensures
            match self.spec_routine() {
                Some(routine) => call_ensures(natives, (routine, t, v, c), outcome),
                None => outcome matches Err(status) && status@ == self.no_native_implementation(),
            },
    {
        match self {
            Self::HashSha2_256 => natives(NativeRoutine::Sha2_256, t, v, c),
            Self::HashSha3_256 => natives(NativeRoutine::Sha3_256, t, v, c),
            Self::SigED25519Verify => natives(NativeRoutine::Ed25519SignatureVerification, t, v, c),
            Self::SigED25519ThresholdVerify => natives(
                NativeRoutine::Ed25519ThresholdSignatureVerification,
                t,
                v,
                c,
            ),
            Self::AddrUtilToBytes => natives(NativeRoutine::AddressToBytes, t, v, c),
            Self::U64UtilToBytes => natives(NativeRoutine::U64ToBytes, t, v, c),
            Self::BytearrayConcat => natives(NativeRoutine::BytearrayConcat, t, v, c),
            Self::VectorLength => natives(NativeRoutine::Length, t, v, c),
            Self::VectorEmpty => natives(NativeRoutine::Empty, t, v, c),
            Self::VectorBorrow => natives(NativeRoutine::Borrow, t, v, c),
            Self::VectorBorrowMut => natives(NativeRoutine::Borrow, t, v, c),
            Self::VectorPushBack => natives(NativeRoutine::PushBack, t, v, c),
            Self::VectorPopBack => natives(NativeRoutine::Pop, t, v, c),
            Self::VectorDestroyEmpty => natives(NativeRoutine::DestroyEmpty, t, v, c),
            Self::VectorSwap => natives(NativeRoutine::Swap, t, v, c),
            Self::AccountWriteEvent => Err(
                VMStatus::new(StatusCode::Unreachable).with_message(
                    "write_to_event_store does not have a native implementation".to_string(),
                ),
            ),
            Self::AccountSaveAccount => Err(
                VMStatus::new(StatusCode::Unreachable).with_message(
                    "save_account does not have a native implementation".to_string(),
                ),
            ),
        }
    }
}

/// Exactly two functions of the registry have no routine, and what turns
/// them away is a violation of an invariant.
pub proof fn lemma_functions_without_routine(entry: NativeFunction)
    ensures
        entry.spec_routine() is None <==> (entry == NativeFunction::AccountWriteEvent || entry
            == NativeFunction::AccountSaveAccount),
        entry.no_native_implementation().major_status.spec_is_invariant_violation(),
{
}

} // verus!
