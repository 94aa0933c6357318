use vstd::prelude::*;

verus! {

/// Errors raised by the stacks, the control-frame handling and the typed
/// memory reads. Every failure is returned to the immediate caller; no
/// recovery happens at this layer, and operations are not transactional.
#[derive(Clone, Debug, PartialEq, Eq)]
pub enum WgseEngineError {
    /// A typed memory read found a stored tag different from the handle's.
    InconsistentTypes { expect: Vec<u8>, found: Vec<u8> },
    /// An unwinding operation did not find the kind of frame it looked for.
    MismatchedTarget(String),
    /// Pop or top on an empty stack.
    StackEmpty,
    /// An access asked for an element past the stack's height.
    StackIndexExceeded { expect: u64, size: u64 },
    /// A bulk pop or drop asked for more elements than the stack holds.
    StackReverseIndexExceeded { expect: u64, size: u64 },
    /// A memory decode ran past the end of the buffer.
    DecodeFailed,
    /// The interpretation loop used up its step budget.
    StepLimitExceeded,
    /// A failure raised by the external command executor, kept apart
    /// from the kernel's own stack and memory errors so that a caller
    /// can attribute it.
    ExecutorFailure(String),
}

} // verus!
