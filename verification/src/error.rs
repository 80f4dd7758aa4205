//! The error taxonomy of the engine.

use vstd::prelude::*;
use vstd::string::StringExecFns;
use crate::entry::EntryKind;

verus! {

/// Every way in which an engine operation can refuse or fail.
#[derive(Debug, Clone, Copy, PartialEq, Eq, Structural)]
pub enum EngineError {
    /// The underlying side effect failed; it is retried within the budget.
    TransientOperationError,
    /// Replay met a recorded entry of another kind than the operation that the
    /// handler issues at that position (or met an entry where the handler
    /// returns). Fatal.
    NonDeterminismError { position: usize, found: EntryKind },
    /// The promise already had its outcome; nothing was changed.
    AlreadyResolved,
    /// The invocation, or the workflow run of the key, is terminal already.
    AlreadyCompleted,
    /// The backing medium cannot be written.
    StorageUnavailable,
    /// A queued invocation waited past the configured bound.
    LockTimeout,
    /// No invocation with that identifier.
    UnknownInvocation,
    /// No promise with that identifier.
    UnknownPromise,
    /// No timer with that identifier.
    UnknownTimer,
    /// The operation needs an invocation that is executing.
    NotRunning,
    /// The entry offered is not of the kind that the handler's pending
    /// operation records.
    UnexpectedEntry,
    /// The status offered is not a terminal one.
    NotTerminal,
}

/// What a failure asks for.
#[derive(Debug, Clone, Copy, PartialEq, Eq, Structural)]
pub enum Remedy {
    /// The operation that failed is performed again, the invocation staying
    /// where it is.
    Repeat,
    /// The invocation starts over and replays its journal.
    Restart,
    /// Nothing: the condition is no failure.
    Ignore,
    /// The invocation fails for good.
    Fail,
}

impl EngineError {
    /// What the condition asks for: a side effect that failed for the moment
    /// is performed again, any other retryable failure starts the invocation
    /// over, an idempotent no-op asks for nothing, and everything else is
    /// fatal.
    pub open spec fn spec_remedy(self) -> Remedy {
        if self is TransientOperationError {
            Remedy::Repeat
        } else if self.spec_is_retryable() {
            Remedy::Restart
        } else if self.spec_is_idempotent_noop() {
            Remedy::Ignore
        } else {
            Remedy::Fail
        }
    }

    /// See [`Self::spec_remedy`].
    #[verifier::when_used_as_spec(spec_remedy)]
    pub fn remedy(self) -> (r: Remedy)
        ensures
            r == self.spec_remedy(),
    {
        match self {
            EngineError::TransientOperationError => Remedy::Repeat,
            EngineError::StorageUnavailable => Remedy::Restart,
            EngineError::LockTimeout => Remedy::Restart,
            EngineError::AlreadyResolved => Remedy::Ignore,
            EngineError::AlreadyCompleted => Remedy::Ignore,
            _ => Remedy::Fail,
        }
    }

    /// Whether a caller may try the same request again later.
    pub open spec fn spec_is_retryable(self) -> bool {
        self is TransientOperationError || self is StorageUnavailable || self is LockTimeout
    }

    /// Whether the condition is an idempotent no-op rather than a failure.
    pub open spec fn spec_is_idempotent_noop(self) -> bool {
        self is AlreadyResolved || self is AlreadyCompleted
    }

    /// Whether a caller may try the same request again later: true of
    /// transient operation errors, an unavailable store and lock timeouts.
    #[verifier::when_used_as_spec(spec_is_retryable)]
    pub fn is_retryable(self) -> (r: bool)
        ensures
            r == self.spec_is_retryable(),
    {
        match self {
            EngineError::TransientOperationError => true,
            EngineError::StorageUnavailable => true,
            EngineError::LockTimeout => true,
            _ => false,
        }
    }

    /// Whether the condition reports a duplicate request that changed nothing.
    #[verifier::when_used_as_spec(spec_is_idempotent_noop)]
    pub fn is_idempotent_noop(self) -> (r: bool)
        ensures
            r == self.spec_is_idempotent_noop(),
    {
        match self {
            EngineError::AlreadyResolved => true,
            EngineError::AlreadyCompleted => true,
            _ => false,
        }
    }

    /// The name of the condition, as it is shown to callers.
    pub open spec fn spec_name(self) -> Seq<char> {
        match self {
            EngineError::TransientOperationError => "TransientOperationError"@,
            EngineError::NonDeterminismError { .. } => "NonDeterminismError"@,
            EngineError::AlreadyResolved => "AlreadyResolved"@,
            EngineError::AlreadyCompleted => "AlreadyCompleted"@,
            EngineError::StorageUnavailable => "StorageUnavailable"@,
            EngineError::LockTimeout => "LockTimeout"@,
            EngineError::UnknownInvocation => "UnknownInvocation"@,
            EngineError::UnknownPromise => "UnknownPromise"@,
            EngineError::UnknownTimer => "UnknownTimer"@,
            EngineError::NotRunning => "NotRunning"@,
            EngineError::UnexpectedEntry => "UnexpectedEntry"@,
            EngineError::NotTerminal => "NotTerminal"@,
        }
    }

    /// The name of the condition, as it is shown to callers.
    pub fn name(self) -> (s: String)
        ensures
            s@ == self.spec_name(),
    {
        match self {
            EngineError::TransientOperationError => String::from_str("TransientOperationError"),
            EngineError::NonDeterminismError { .. } => String::from_str("NonDeterminismError"),
            EngineError::AlreadyResolved => String::from_str("AlreadyResolved"),
            EngineError::AlreadyCompleted => String::from_str("AlreadyCompleted"),
            EngineError::StorageUnavailable => String::from_str("StorageUnavailable"),
            EngineError::LockTimeout => String::from_str("LockTimeout"),
            EngineError::UnknownInvocation => String::from_str("UnknownInvocation"),
            EngineError::UnknownPromise => String::from_str("UnknownPromise"),
            EngineError::UnknownTimer => String::from_str("UnknownTimer"),
            EngineError::NotRunning => String::from_str("NotRunning"),
            EngineError::UnexpectedEntry => String::from_str("UnexpectedEntry"),
            EngineError::NotTerminal => String::from_str("NotTerminal"),
        }
    }
}

} // verus!
