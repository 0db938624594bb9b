//! The per-attempt login state machine. A driver holding a real
//! backend transaction walks one attempt through
//! `Started → TokenSwapped → PasswordChecked → Committed | RolledBack`,
//! and these transitions are the only decisions it has to make: each
//! one says exactly which state follows from which observation.

use vstd::prelude::*;

verus! {

/// Why an attempt was rolled back.
#[derive(Clone, Copy, Debug, PartialEq, Eq, Structural)]
pub enum RollbackReason {
    UserNotFound,
    WrongPassword,
}

/// Where one login attempt stands.
#[derive(Clone, Copy, Debug, PartialEq, Eq, Structural)]
pub enum AttemptState {
    /// The transaction is open; the speculative token update is next.
    Started,
    /// The token update touched exactly one row; read back and verify.
    TokenSwapped,
    /// The password has been checked against the stored digest.
    PasswordChecked { ok: bool },
    /// The swap was kept: the attempt ends in a successful login.
    Committed,
    /// The swap was discarded; the row is as it was before.
    RolledBack { reason: RollbackReason },
}

impl AttemptState {
    /// No transition leaves these states.
    pub open spec fn is_terminal(&self) -> bool {
        *self is Committed || *self is RolledBack
    }

    /// The step after the speculative token update: exactly one row
    /// touched means the user exists and the attempt goes on; zero
    /// rows means the user is absent. More than one row — a schema
    /// invariant violation that is never expected — is treated the
    /// defensive way, as the attempt of an unknown user, and also
    /// rolled back.
    pub fn after_token_update(self, rows_affected: u64) -> (s: AttemptState)
        requires
            self is Started,
        ensures
            s == if rows_affected == 1 {
                AttemptState::TokenSwapped
            } else {
                AttemptState::RolledBack { reason: RollbackReason::UserNotFound }
            },
    {
        if rows_affected == 1 {
            AttemptState::TokenSwapped
        } else {
            AttemptState::RolledBack { reason: RollbackReason::UserNotFound }
        }
    }

    /// The step after reading the row back and verifying the password
    /// within the same transaction.
    pub fn after_password_check(self, ok: bool) -> (s: AttemptState)
        requires
            self is TokenSwapped,
        ensures
            s == (AttemptState::PasswordChecked { ok }),
    {
        AttemptState::PasswordChecked { ok }
    }

    /// The final decision: commit the swap exactly when the password
    /// verified; otherwise the mandatory rollback that keeps the
    /// stored token unchanged.
    pub fn decide(self) -> (s: AttemptState)
        requires
            self is PasswordChecked,
        ensures
            s == if self->PasswordChecked_ok {
                AttemptState::Committed
            } else {
                AttemptState::RolledBack { reason: RollbackReason::WrongPassword }
            },
            s.is_terminal(),
    {
        match self {
            AttemptState::PasswordChecked { ok: true } => AttemptState::Committed,
            _ => AttemptState::RolledBack { reason: RollbackReason::WrongPassword },
        }
    }
}

} // verus!
