use medinex_ai::errors::ErrorCode;
use medinex_ai::token::{
    accept_authority_transfer, cancel_authority_transfer, initialize_token, mint_tokens,
    propose_authority_transfer, set_treasury, MdnxToken, MintRequest, AUTHORITY_TRANSFER_WINDOW,
    MINT_COOLDOWN,
};

const AUTHORITY: u64 = 9;
const MINT: u64 = 11;
const NEW_AUTHORITY: u64 = 21;

fn sample_token() -> MdnxToken {
    initialize_token(
        AUTHORITY,
        MINT,
        1_000,
        "MediNex Token".to_string(),
        "MDNX".to_string(),
        "https://medinex.life/token".to_string(),
        1_000_000_000,
    )
    .expect("Failed to initialize token")
}

#[test]
fn test_initialize_token() {
    let t = sample_token();
    assert_eq!(t.name, "MediNex Token");
    assert_eq!(t.symbol, "MDNX");
    assert_eq!(t.uri, "https://medinex.life/token");
    assert_eq!(t.total_supply, 1_000_000_000);
    assert_eq!(t.authority, AUTHORITY);
    assert!(t.is_initialized);
    assert_eq!(t.last_update_timestamp, 1_000);
    assert_eq!(t.mint, MINT);
    assert_eq!(t.proposed_authority, None);
    assert_eq!(t.authority_proposal_timestamp, 0);
    assert_eq!(t.last_mint_timestamp, 0);
    // the treasury is self-custodied until reassigned
    assert_eq!(t.treasury, AUTHORITY);
}

#[test]
fn test_initialize_token_zero_supply() {
    let r = initialize_token(
        AUTHORITY,
        MINT,
        1_000,
        "MediNex Token".to_string(),
        "MDNX".to_string(),
        "https://medinex.life/token".to_string(),
        0,
    );
    // no token configuration record comes back
    assert_eq!(r.err(), Some(ErrorCode::InvalidTokenSupply));
}

#[test]
fn test_propose_requires_authority() {
    let mut t = sample_token();
    let r = propose_authority_transfer(&mut t, NEW_AUTHORITY, 2_000, NEW_AUTHORITY);
    assert_eq!(r, Err(ErrorCode::UnauthorizedAccess));
    assert_eq!(t.proposed_authority, None);
}

#[test]
fn test_authority_transfer_round_trip() {
    // accepted at the last second of the window
    let mut t = sample_token();
    propose_authority_transfer(&mut t, AUTHORITY, 2_000, NEW_AUTHORITY)
        .expect("Failed to propose");
    assert_eq!(t.proposed_authority, Some(NEW_AUTHORITY));
    assert_eq!(t.authority_proposal_timestamp, 2_000);
    let r = accept_authority_transfer(&mut t, NEW_AUTHORITY, 2_000 + AUTHORITY_TRANSFER_WINDOW);
    assert_eq!(r, Ok(()));
    assert_eq!(t.authority, NEW_AUTHORITY);
    assert_eq!(t.proposed_authority, None);
    assert_eq!(t.authority_proposal_timestamp, 0);

    // one second past the window: expired, the authority is unchanged
    let mut t = sample_token();
    propose_authority_transfer(&mut t, AUTHORITY, 2_000, NEW_AUTHORITY)
        .expect("Failed to propose");
    let r = accept_authority_transfer(&mut t, NEW_AUTHORITY, 2_001 + AUTHORITY_TRANSFER_WINDOW);
    assert_eq!(r, Err(ErrorCode::AuthorityTransferExpired));
    assert_eq!(t.authority, AUTHORITY);
    assert_eq!(t.proposed_authority, Some(NEW_AUTHORITY));
}

#[test]
fn test_accept_without_proposal() {
    let mut t = sample_token();
    let r = accept_authority_transfer(&mut t, NEW_AUTHORITY, 2_000);
    assert_eq!(r, Err(ErrorCode::InvalidAuthorityTransferState));
    assert_eq!(t.authority, AUTHORITY);
}

#[test]
fn test_accept_requires_proposed_authority() {
    let mut t = sample_token();
    propose_authority_transfer(&mut t, AUTHORITY, 2_000, NEW_AUTHORITY)
        .expect("Failed to propose");
    let r = accept_authority_transfer(&mut t, 99, 2_100);
    assert_eq!(r, Err(ErrorCode::UnauthorizedAccess));
    assert_eq!(t.authority, AUTHORITY);
    assert_eq!(t.proposed_authority, Some(NEW_AUTHORITY));
}

#[test]
fn test_new_proposal_overwrites_old() {
    let mut t = sample_token();
    propose_authority_transfer(&mut t, AUTHORITY, 2_000, NEW_AUTHORITY)
        .expect("Failed to propose");
    propose_authority_transfer(&mut t, AUTHORITY, 3_000, 42).expect("Failed to propose");
    assert_eq!(t.proposed_authority, Some(42));
    assert_eq!(t.authority_proposal_timestamp, 3_000);
}

#[test]
fn test_cancel_authority_transfer() {
    let mut t = sample_token();
    propose_authority_transfer(&mut t, AUTHORITY, 2_000, NEW_AUTHORITY)
        .expect("Failed to propose");
    // the cancel works however old the proposal is
    let r = cancel_authority_transfer(&mut t, AUTHORITY, 2_000 + 10 * AUTHORITY_TRANSFER_WINDOW);
    assert_eq!(r, Ok(()));
    assert_eq!(t.proposed_authority, None);
    assert_eq!(t.authority_proposal_timestamp, 0);
    assert_eq!(t.authority, AUTHORITY);

    let r = cancel_authority_transfer(&mut t, NEW_AUTHORITY, 2_100);
    assert_eq!(r, Err(ErrorCode::UnauthorizedAccess));
}

#[test]
fn test_mint_rate_limiting() {
    // two mints inside the cooldown: the second is refused
    let mut t = sample_token();
    let req = mint_tokens(&mut t, AUTHORITY, 5_000, 777, 55).expect("Failed to mint");
    assert_eq!(req, MintRequest { mint: MINT, to: 55, amount: 777 });
    assert_eq!(t.last_mint_timestamp, 5_000);
    let r = mint_tokens(&mut t, AUTHORITY, 5_000 + MINT_COOLDOWN - 1, 1, 55);
    assert_eq!(r, Err(ErrorCode::RateLimited));
    assert_eq!(t.last_mint_timestamp, 5_000);

    // spaced exactly one cooldown apart: both succeed
    let mut t = sample_token();
    mint_tokens(&mut t, AUTHORITY, 5_000, 777, 55).expect("Failed to mint");
    let req = mint_tokens(&mut t, AUTHORITY, 5_000 + MINT_COOLDOWN, 88, 56)
        .expect("Failed to mint after cooldown");
    assert_eq!(req, MintRequest { mint: MINT, to: 56, amount: 88 });
    assert_eq!(t.last_mint_timestamp, 5_000 + MINT_COOLDOWN);
}

#[test]
fn test_mint_requires_authority() {
    let mut t = sample_token();
    let r = mint_tokens(&mut t, NEW_AUTHORITY, 5_000, 777, 55);
    assert_eq!(r, Err(ErrorCode::UnauthorizedAccess));
    assert_eq!(t.last_mint_timestamp, 0);
}

#[test]
fn test_set_treasury() {
    let mut t = sample_token();
    let r = set_treasury(&mut t, AUTHORITY, 6_000, 123);
    assert_eq!(r, Ok(()));
    assert_eq!(t.treasury, 123);
    assert_eq!(t.last_update_timestamp, 6_000);

    let r = set_treasury(&mut t, NEW_AUTHORITY, 6_100, 456);
    assert_eq!(r, Err(ErrorCode::UnauthorizedAccess));
    assert_eq!(t.treasury, 123);
}
