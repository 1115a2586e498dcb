//! Token Authority: the singleton token configuration record, the two-step
//! authority transfer with a 24-hour acceptance window, mint rate-limiting,
//! and the treasury reference that reward payouts are funded from.
//!
//! The core only decides *that* and *how much* to mint or move; executing a
//! movement is delegated to the external token ledger.  An operation that owes
//! a movement returns a directive describing it.

use vstd::prelude::*;

use crate::errors::ErrorCode;
use crate::{AccountId, valid_time};

verus! {

/// Seconds a proposed authority has to accept the transfer.
pub const AUTHORITY_TRANSFER_WINDOW: i64 = 86_400;

/// Minimum seconds between two successful mints.
pub const MINT_COOLDOWN: i64 = 3_600;

/// The token and treasury configuration record.
pub struct MdnxToken {
    /// Token name.
    pub name: String,
    /// Token symbol.
    pub symbol: String,
    /// URI to the token metadata.
    pub uri: String,
    /// Total supply fixed at initialization; always positive.
    pub total_supply: u64,
    /// Identity currently permitted to administer the token.
    pub authority: AccountId,
    /// Whether the record has been initialized.
    pub is_initialized: bool,
    /// Last update timestamp (seconds).
    pub last_update_timestamp: i64,
    /// Address of the mint in the external token ledger.
    pub mint: AccountId,
    /// Outstanding authority transfer proposal, if any.
    pub proposed_authority: Option<AccountId>,
    /// When the outstanding proposal was made; 0 while none is pending.
    pub authority_proposal_timestamp: i64,
    /// When the last successful mint happened; 0 before the first mint.
    pub last_mint_timestamp: i64,
    /// Holding account that reward payouts are funded from.
    pub treasury: AccountId,
}

/// A transfer the external token ledger is asked to execute.
#[derive(Clone, Copy, Debug, PartialEq, Eq, Structural)]
pub struct TransferRequest {
    /// Source holding account.
    pub from: AccountId,
    /// Destination holding account.
    pub to: AccountId,
    /// Number of tokens to move.
    pub amount: u64,
}

/// A mint the external token ledger is asked to execute.
#[derive(Clone, Copy, Debug, PartialEq, Eq, Structural)]
pub struct MintRequest {
    /// The mint to draw from.
    pub mint: AccountId,
    /// Destination holding account.
    pub to: AccountId,
    /// Number of tokens to mint.
    pub amount: u64,
}

impl MdnxToken {
    /// Well-formedness, established at initialization and preserved by every
    /// operation: the record is initialized with a positive supply, its
    /// timestamps are clock readings, and the proposal timestamp is zero
    /// exactly while no proposal is outstanding.
    pub open spec fn wf(self) -> bool {
        &&& self.is_initialized
        &&& self.total_supply > 0
        &&& valid_time(self.last_update_timestamp)
        &&& valid_time(self.authority_proposal_timestamp)
        &&& valid_time(self.last_mint_timestamp)
        &&& self.proposed_authority is None ==> self.authority_proposal_timestamp == 0
    }
}

/// Outcome of `initialize_token`: the supply must be positive; the caller
/// becomes both authority and treasury, no proposal is pending, and no mint
/// has happened yet.
pub open spec fn initialize_token_step(
    authority: AccountId,
    mint: AccountId,
    now: i64,
    name: String,
    symbol: String,
    uri: String,
    total_supply: u64,
) -> Result<MdnxToken, ErrorCode> {
    if total_supply == 0 {
        Err(ErrorCode::InvalidTokenSupply)
    } else {
        Ok(MdnxToken {
            name,
            symbol,
            uri,
            total_supply,
            authority,
            is_initialized: true,
            last_update_timestamp: now,
            mint,
            proposed_authority: None,
            authority_proposal_timestamp: 0,
            last_mint_timestamp: 0,
            treasury: authority,
        })
    }
}

/// Create the token configuration record; `authority` is the caller, `mint`
/// the address of the freshly created mint.
pub fn initialize_token(
    authority: AccountId,
    mint: AccountId,
    now: i64,
    name: String,
    symbol: String,
    uri: String,
    total_supply: u64,
) -> (result: Result<MdnxToken, ErrorCode>)
    requires
        valid_time(now),
    ensures
        result == initialize_token_step(authority, mint, now, name, symbol, uri, total_supply),
        result matches Ok(t) ==> t.wf(),
{
    if total_supply == 0 {
        return Err(ErrorCode::InvalidTokenSupply);
    }
    Ok(MdnxToken {
        name,
        symbol,
        uri,
        total_supply,
        authority,
        is_initialized: true,
        last_update_timestamp: now,
        mint,
        proposed_authority: None,
        authority_proposal_timestamp: 0,
        last_mint_timestamp: 0,
        treasury: authority,
    })
}

/// Outcome of `propose_authority_transfer`: only the current authority may
/// propose; a new proposal overwrites any outstanding one.
pub open spec fn propose_authority_transfer_step(
    t: MdnxToken,
    caller: AccountId,
    now: i64,
    new_authority: AccountId,
) -> Result<MdnxToken, ErrorCode> {
    if caller != t.authority {
        Err(ErrorCode::UnauthorizedAccess)
    } else {
        Ok(MdnxToken {
            proposed_authority: Some(new_authority),
            authority_proposal_timestamp: now,
            last_update_timestamp: now,
            ..t
        })
    }
}

/// Propose handing the authority to `new_authority`; the proposal must be
/// accepted within [`AUTHORITY_TRANSFER_WINDOW`] seconds.
pub fn propose_authority_transfer(
    t: &mut MdnxToken,
    caller: AccountId,
    now: i64,
    new_authority: AccountId,
) -> (result: Result<(), ErrorCode>)
    requires
        old(t).wf(),
        valid_time(now),
    ensures
        match propose_authority_transfer_step(*old(t), caller, now, new_authority) {
            Ok(t2) => result == Ok::<(), ErrorCode>(()) && *final(t) == t2,
            Err(e) => result == Err::<(), ErrorCode>(e) && *final(t) == *old(t),
        },
        final(t).wf(),
{
    if caller != t.authority {
        return Err(ErrorCode::UnauthorizedAccess);
    }
    t.proposed_authority = Some(new_authority);
    t.authority_proposal_timestamp = now;
    t.last_update_timestamp = now;
    Ok(())
}

/// Outcome of `accept_authority_transfer`: there must be an outstanding
/// proposal, the caller must be the proposed authority, and the proposal must
/// not be older than [`AUTHORITY_TRANSFER_WINDOW`] seconds; then the authority
/// changes hands and the proposal is cleared.
pub open spec fn accept_authority_transfer_step(
    t: MdnxToken,
    caller: AccountId,
    now: i64,
) -> Result<MdnxToken, ErrorCode> {
    match t.proposed_authority {
        None => Err(ErrorCode::InvalidAuthorityTransferState),
        Some(proposed) => if caller != proposed {
            Err(ErrorCode::UnauthorizedAccess)
        } else if now - t.authority_proposal_timestamp > AUTHORITY_TRANSFER_WINDOW {
            Err(ErrorCode::AuthorityTransferExpired)
        } else {
            Ok(MdnxToken {
                authority: proposed,
                proposed_authority: None,
                authority_proposal_timestamp: 0,
                last_update_timestamp: now,
                ..t
            })
        },
    }
}

/// Accept an outstanding authority transfer; the caller must be the proposed
/// authority.
pub fn accept_authority_transfer(t: &mut MdnxToken, caller: AccountId, now: i64) -> (result:
    Result<(), ErrorCode>)
    requires
        old(t).wf(),
        valid_time(now),
    ensures
        match accept_authority_transfer_step(*old(t), caller, now) {
            Ok(t2) => result == Ok::<(), ErrorCode>(()) && *final(t) == t2,
            Err(e) => result == Err::<(), ErrorCode>(e) && *final(t) == *old(t),
        },
        final(t).wf(),
{
    let proposed = match t.proposed_authority {
        None => {
            return Err(ErrorCode::InvalidAuthorityTransferState);
        },
        Some(p) => p,
    };
    if caller != proposed {
        return Err(ErrorCode::UnauthorizedAccess);
    }
    if now - t.authority_proposal_timestamp > AUTHORITY_TRANSFER_WINDOW {
        return Err(ErrorCode::AuthorityTransferExpired);
    }
    t.authority = proposed;
    t.proposed_authority = None;
    t.authority_proposal_timestamp = 0;
    t.last_update_timestamp = now;
    Ok(())
}

/// Outcome of `cancel_authority_transfer`: only the current authority may
/// cancel; the proposal is cleared unconditionally, however old it is.
pub open spec fn cancel_authority_transfer_step(
    t: MdnxToken,
    caller: AccountId,
    now: i64,
) -> Result<MdnxToken, ErrorCode> {
    if caller != t.authority {
        Err(ErrorCode::UnauthorizedAccess)
    } else {
        Ok(MdnxToken {
            proposed_authority: None,
            authority_proposal_timestamp: 0,
            last_update_timestamp: now,
            ..t
        })
    }
}

/// Withdraw any outstanding authority transfer proposal.
pub fn cancel_authority_transfer(t: &mut MdnxToken, caller: AccountId, now: i64) -> (result:
    Result<(), ErrorCode>)
    requires
        old(t).wf(),
        valid_time(now),
    ensures
        match cancel_authority_transfer_step(*old(t), caller, now) {
            Ok(t2) => result == Ok::<(), ErrorCode>(()) && *final(t) == t2,
            Err(e) => result == Err::<(), ErrorCode>(e) && *final(t) == *old(t),
        },
        final(t).wf(),
{
    if caller != t.authority {
        return Err(ErrorCode::UnauthorizedAccess);
    }
    t.proposed_authority = None;
    t.authority_proposal_timestamp = 0;
    t.last_update_timestamp = now;
    Ok(())
}

/// Outcome of `mint_tokens`: only the current authority may mint, and no
/// sooner than [`MINT_COOLDOWN`] seconds after the previous successful mint;
/// on success the rate-limit marker moves to `now` and the external ledger is
/// asked to mint `amount` tokens to `destination`.
pub open spec fn mint_tokens_step(
    t: MdnxToken,
    caller: AccountId,
    now: i64,
    amount: u64,
    destination: AccountId,
) -> Result<(MdnxToken, MintRequest), ErrorCode> {
    if caller != t.authority {
        Err(ErrorCode::UnauthorizedAccess)
    } else if t.last_mint_timestamp > 0 && now - t.last_mint_timestamp < MINT_COOLDOWN {
        Err(ErrorCode::RateLimited)
    } else {
        Ok((
            MdnxToken { last_mint_timestamp: now, last_update_timestamp: now, ..t },
            MintRequest { mint: t.mint, to: destination, amount },
        ))
    }
}

/// Decide a mint of `amount` tokens to `destination`; the returned directive
/// is handed to the external token ledger for execution.
pub fn mint_tokens(
    t: &mut MdnxToken,
    caller: AccountId,
    now: i64,
    amount: u64,
    destination: AccountId,
) -> (result: Result<MintRequest, ErrorCode>)
    requires
        old(t).wf(),
        valid_time(now),
    ensures
        match mint_tokens_step(*old(t), caller, now, amount, destination) {
            Ok((t2, req)) => result == Ok::<MintRequest, ErrorCode>(req) && *final(t) == t2,
            Err(e) => result == Err::<MintRequest, ErrorCode>(e) && *final(t) == *old(t),
        },
        final(t).wf(),
{
    if caller != t.authority {
        return Err(ErrorCode::UnauthorizedAccess);
    }
    if t.last_mint_timestamp > 0 && now - t.last_mint_timestamp < MINT_COOLDOWN {
        return Err(ErrorCode::RateLimited);
    }
    let request = MintRequest { mint: t.mint, to: destination, amount };
    t.last_mint_timestamp = now;
    t.last_update_timestamp = now;
    Ok(request)
}

/// Outcome of `set_treasury`: only the current authority may change the
/// treasury, and does so unconditionally.
pub open spec fn set_treasury_step(
    t: MdnxToken,
    caller: AccountId,
    now: i64,
    new_treasury: AccountId,
) -> Result<MdnxToken, ErrorCode> {
    if caller != t.authority {
        Err(ErrorCode::UnauthorizedAccess)
    } else {
        Ok(MdnxToken { treasury: new_treasury, last_update_timestamp: now, ..t })
    }
}

/// Point reward payouts at a new treasury holding account.
pub fn set_treasury(
    t: &mut MdnxToken,
    caller: AccountId,
    now: i64,
    new_treasury: AccountId,
) -> (result: Result<(), ErrorCode>)
    requires
        old(t).wf(),
        valid_time(now),
    ensures
        match set_treasury_step(*old(t), caller, now, new_treasury) {
            Ok(t2) => result == Ok::<(), ErrorCode>(()) && *final(t) == t2,
            Err(e) => result == Err::<(), ErrorCode>(e) && *final(t) == *old(t),
        },
        final(t).wf(),
{
    if caller != t.authority {
        return Err(ErrorCode::UnauthorizedAccess);
    }
    t.treasury = new_treasury;
    t.last_update_timestamp = now;
    Ok(())
}

/// Authority transfer round trip: a proposal made by the current authority
/// always succeeds, and an acceptance by the proposed authority succeeds
/// exactly when it comes within [`AUTHORITY_TRANSFER_WINDOW`] seconds of the
/// proposal, leaving the proposed identity as authority and no proposal
/// pending; one second later it fails with `AuthorityTransferExpired` and the
/// authority is unchanged.
pub proof fn lemma_authority_transfer_round_trip(
    t: MdnxToken,
    new_authority: AccountId,
    proposed_at: i64,
    accepted_at: i64,
)
    requires
        t.wf(),
        valid_time(proposed_at),
        valid_time(accepted_at),
    ensures
        propose_authority_transfer_step(t, t.authority, proposed_at, new_authority) matches Ok(t1)
            ==> {
            &&& accepted_at - proposed_at <= AUTHORITY_TRANSFER_WINDOW ==> (
            accept_authority_transfer_step(t1, new_authority, accepted_at) matches Ok(t2)
                && t2.authority == new_authority && t2.proposed_authority is None)
            &&& accepted_at - proposed_at > AUTHORITY_TRANSFER_WINDOW ==> (
            accept_authority_transfer_step(t1, new_authority, accepted_at) matches Err(e)
                && e == ErrorCode::AuthorityTransferExpired && t1.authority == t.authority)
        },
        propose_authority_transfer_step(t, t.authority, proposed_at, new_authority) is Ok,
{
}

/// Mint rate limiting: starting from a configuration that has never minted,
/// a first mint by the authority at a positive time succeeds; a second mint
/// less than [`MINT_COOLDOWN`] seconds after it fails with `RateLimited`,
/// while one [`MINT_COOLDOWN`] or more seconds after it succeeds.
pub proof fn lemma_mint_rate_limited(
    t: MdnxToken,
    first_at: i64,
    second_at: i64,
    first_amount: u64,
    second_amount: u64,
    first_destination: AccountId,
    second_destination: AccountId,
)
    requires
        t.wf(),
        t.last_mint_timestamp == 0,
        0 < first_at,
        valid_time(second_at),
    ensures
        mint_tokens_step(t, t.authority, first_at, first_amount, first_destination) matches Ok(r1)
            ==> {
            &&& second_at - first_at < MINT_COOLDOWN ==> (mint_tokens_step(
                r1.0,
                t.authority,
                second_at,
                second_amount,
                second_destination,
            ) matches Err(e) && e == ErrorCode::RateLimited)
            &&& second_at - first_at >= MINT_COOLDOWN ==> mint_tokens_step(
                r1.0,
                t.authority,
                second_at,
                second_amount,
                second_destination,
            ) is Ok
        },
        mint_tokens_step(t, t.authority, first_at, first_amount, first_destination) is Ok,
{
}

} // verus!
