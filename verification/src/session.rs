//! Session tokens: the re-creatable binding from an ephemeral signing
//! credential to a real bidder identity, scoped per auction and per bidder.
//! Verifying the ephemeral signature itself is the session authority's job;
//! the core only records and rotates the binding.

use vstd::prelude::*;
use crate::state::{AccountId, SessionToken};

verus! {

/// CreateOrRotateSession: builds the token that binds `session_signer` to
/// `bidder` for this auction. Writing it over an existing token is safe —
/// the binding is scoped per (auction, bidder), so a rotated signer simply
/// replaces the previous one.
pub fn handle_create_session(
    auction: AccountId,
    bidder: AccountId,
    session_signer: AccountId,
    now: i64,
    bump: u8,
) -> (t: SessionToken)
    ensures
        t == (SessionToken { auction, bidder, session_signer, created_at: now, bump }),
{
    SessionToken { auction, bidder, session_signer, created_at: now, bump }
}

/// Rotates the ephemeral signer of an existing token in place (the
/// client restarted and generated a new key). The token's scope — its
/// auction, bidder and bump — never changes.
pub fn rotate_session(session: &mut SessionToken, session_signer: AccountId, now: i64)
    ensures
        *final(session) == (SessionToken {
            session_signer,
            created_at: now,
            ..*old(session)
        }),
{
    session.session_signer = session_signer;
    session.created_at = now;
}

} // verus!
