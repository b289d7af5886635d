//! The errors that a workflow ends with.
use vstd::prelude::*;
use crate::build::error::BuildError;
use crate::flow::Step;

verus! {

/// The answer ends a workflow with an execution error of this text.
pub open spec fn execution_error<A, T>(step: Step<A, T, BuildError>, text: Seq<char>) -> bool {
    step matches Step::Return(Err(BuildError::ExecutionError(m))) && m@ == text
}

/// The answer ends a workflow with an injection error of this text.
pub open spec fn injection_error<A, T>(step: Step<A, T, BuildError>, text: Seq<char>) -> bool {
    step matches Step::Return(Err(BuildError::InjectionError(m))) && m@ == text
}

/// The answer ends a workflow with a VM error of this text.
pub open spec fn vm_error<A, T>(step: Step<A, T, BuildError>, text: Seq<char>) -> bool {
    step matches Step::Return(Err(BuildError::VmError(m))) && m@ == text
}

/// The answer ends a workflow with an I/O error of this text.
pub open spec fn io_error<A, T>(step: Step<A, T, BuildError>, text: Seq<char>) -> bool {
    step matches Step::Return(Err(BuildError::IoError(m))) && m@ == text
}

} // verus!
