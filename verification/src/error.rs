//! The closed set of ways in which execution can fail.
use vstd::prelude::*;

verus! {

/// Why a run was aborted. Every failure is terminal: the machine never
/// tries to recover from one.
#[derive(Copy, Clone, Debug, PartialEq, Eq, Structural)]
pub enum ExecuteError {
    Generic,
    Bounds,
    Unreachable,
    IllegalOpcode,
    InvalidNativeInvoke,
    NotSupported,
    InvalidInput,
    ExecutionLimit,
    MemoryLimit,
    SlotLimit,
    FatalSignal,
    Fuse,
    DivideByZero,
}

pub type ExecuteResult<T> = Result<T, ExecuteError>;

impl ExecuteError {
    /// The small positive number that identifies this kind of failure.
    pub open spec fn kind(&self) -> int {
        match self {
            ExecuteError::Generic => 1,
            ExecuteError::Bounds => 2,
            ExecuteError::Unreachable => 3,
            ExecuteError::IllegalOpcode => 4,
            ExecuteError::InvalidNativeInvoke => 5,
            ExecuteError::NotSupported => 6,
            ExecuteError::InvalidInput => 7,
            ExecuteError::ExecutionLimit => 8,
            ExecuteError::MemoryLimit => 9,
            ExecuteError::SlotLimit => 10,
            ExecuteError::FatalSignal => 11,
            ExecuteError::Fuse => 12,
            ExecuteError::DivideByZero => 13,
        }
    }

    /// The status code an aborted run reports: the negated kind number.
    pub fn status(&self) -> (s: i32)
        ensures
            s == -self.kind(),
    {
        match self {
            ExecuteError::Generic => -1,
            ExecuteError::Bounds => -2,
            ExecuteError::Unreachable => -3,
            ExecuteError::IllegalOpcode => -4,
            ExecuteError::InvalidNativeInvoke => -5,
            ExecuteError::NotSupported => -6,
            ExecuteError::InvalidInput => -7,
            ExecuteError::ExecutionLimit => -8,
            ExecuteError::MemoryLimit => -9,
            ExecuteError::SlotLimit => -10,
            ExecuteError::FatalSignal => -11,
            ExecuteError::Fuse => -12,
            ExecuteError::DivideByZero => -13,
        }
    }

    /// Kind numbers lie in `1..=13`, and no two kinds share one; so a status
    /// code is negative and names its kind.
    pub proof fn lemma_kind_identifies(a: ExecuteError, b: ExecuteError)
        ensures
            1 <= a.kind() <= 13,
            a.kind() == b.kind() ==> a == b,
    {
    }
}

} // verus!
