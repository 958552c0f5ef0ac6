//! What the store reports when it does not do what it was asked, as plain
//! values, and what the service makes of it.

use vstd::prelude::*;

verus! {

/// A failure of the store, as its driver reports it.
#[derive(Debug, Clone, PartialEq, Eq)]
pub enum StoreFailure {
    /// The connection to the store broke while it was used.
    Io,
    /// The secure channel to the store could not be set up.
    Tls,
    /// No connection to the store came free in time.
    PoolTimedOut,
    /// The pool of connections to the store is closed.
    PoolClosed,
    /// One row was asked for and the store holds none that fits.
    RowNotFound,
    /// The store turned the statement down. `code` is the code of the store's
    /// own error, where it gave one.
    Database { code: Option<String> },
    /// Anything else.
    Other,
}

impl StoreFailure {
    /// Whether the failure says that the store could not be reached: a broken
    /// connection, a channel that could not be set up, or a pool that gave no
    /// connection.
    pub open spec fn spec_unreachable(&self) -> bool {
        *self is Io || *self is Tls || *self is PoolTimedOut || *self is PoolClosed
    }

    /// Whether the failure says that the store could not be reached.
    #[verifier::when_used_as_spec(spec_unreachable)]
    pub fn unreachable(&self) -> (yes: bool)
        ensures
            yes == self.spec_unreachable(),
    {
        match self {
            StoreFailure::Io => true,
            StoreFailure::Tls => true,
            StoreFailure::PoolTimedOut => true,
            StoreFailure::PoolClosed => true,
            StoreFailure::RowNotFound => false,
            StoreFailure::Database { .. } => false,
            StoreFailure::Other => false,
        }
    }

    /// Whether the store turned the statement down for a broken uniqueness
    /// rule: its error code is `23505`.
    pub open spec fn spec_unique_violation(&self) -> bool {
        *self matches StoreFailure::Database { code: Some(text) } && text@ == "23505"@
    }

    /// Whether the store turned the statement down for a broken uniqueness
    /// rule.
    #[verifier::when_used_as_spec(spec_unique_violation)]
    pub fn unique_violation(&self) -> (yes: bool)
        ensures
            yes == self.spec_unique_violation(),
    {
        match self {
            StoreFailure::Database { code: Some(text) } => {
                let unique: String = "23505".to_owned();
                *text == unique
            },
            _ => false,
        }
    }
}

/// A failure never says both that the store could not be reached and that it
/// broke a uniqueness rule.
pub proof fn lemma_failure_classes_apart(failure: StoreFailure)
    ensures
        !(failure.spec_unreachable() && failure.spec_unique_violation()),
        !StoreFailure::RowNotFound.spec_unreachable(),
        !StoreFailure::RowNotFound.spec_unique_violation(),
{
}

} // verus!
