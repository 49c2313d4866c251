use vstd::prelude::*;

use crate::address::lemma_canonical_bump_unique;
use crate::handlers::{
    burn_tokens_spec, initialize_spec, mint_tokens_spec, pause_spec, transfer_authority_spec,
    transfer_tokens_spec, unpause_spec, BurnTokens, Initialize, MintTokens, PauseToken,
    TransferAuthority, TransferTokens,
};
use crate::key::Key;
use crate::state::{config_seed, store_wf, ErrorCode, StoreModel};

verus! {

/// In a sound store no two records govern the same token.
pub proof fn lemma_one_record_per_token(s: StoreModel, a1: Seq<u8>, a2: Seq<u8>)
    requires
        store_wf(s),
        s.records.contains_key(a1),
        s.records.contains_key(a2),
        s.records[a1].mint == s.records[a2].mint,
    ensures
        a1 == a2,
{
    lemma_canonical_bump_unique(config_seed(), s.records[a1].mint, s.program, s.records[a1].bump, s.records[a2].bump);
}

/// Once a token has been initialised, every further initialisation of the
/// same token fails with `AlreadyExists`, whatever its other inputs.
pub proof fn lemma_initialize_once(
    s: StoreModel,
    first: Initialize,
    decimals: u8,
    name: Seq<char>,
    symbol: Seq<char>,
    s1: StoreModel,
    second: Initialize,
    decimals2: u8,
    name2: Seq<char>,
    symbol2: Seq<char>,
)
    requires
        initialize_spec(s, first, decimals, name, symbol) == Ok::<StoreModel, ErrorCode>(s1),
        second.mint@ == first.mint@,
    ensures
        initialize_spec(s1, second, decimals2, name2, symbol2) == Err::<StoreModel, ErrorCode>(ErrorCode::AlreadyExists),
{
}

/// Pausing and then unpausing, by the same caller, gives back the store as
/// it was before the pause.
pub proof fn lemma_pause_unpause_round_trip(s: StoreModel, accounts: PauseToken, s1: StoreModel)
    requires
        pause_spec(s, accounts) == Ok::<StoreModel, ErrorCode>(s1),
    ensures
        unpause_spec(s1, accounts) == Ok::<StoreModel, ErrorCode>(s),
{
    let a = accounts.token_config@;
    assert(s.records.insert(a, s.records[a]) =~= s.records);
    assert(s1.records.insert(a, s.records[a]) =~= s.records);
}

/// A second pause in a row fails with `AlreadyPaused`.
pub proof fn lemma_pause_twice(s: StoreModel, accounts: PauseToken, s1: StoreModel)
    requires
        pause_spec(s, accounts) == Ok::<StoreModel, ErrorCode>(s1),
    ensures
        pause_spec(s1, accounts) == Err::<StoreModel, ErrorCode>(ErrorCode::AlreadyPaused),
{
}

/// A second unpause in a row fails with `NotPaused`.
pub proof fn lemma_unpause_twice(s: StoreModel, accounts: PauseToken, s1: StoreModel)
    requires
        unpause_spec(s, accounts) == Ok::<StoreModel, ErrorCode>(s1),
    ensures
        unpause_spec(s1, accounts) == Err::<StoreModel, ErrorCode>(ErrorCode::NotPaused),
{
}

/// While a token is paused every mint of it fails with `TokenPaused`,
/// whoever calls and whatever the amount.
pub proof fn lemma_paused_blocks_mint(s: StoreModel, accounts: MintTokens, amount: u64)
    requires
        store_wf(s),
        s.records.contains_key(accounts.token_config@),
        s.records[accounts.token_config@].mint == accounts.mint@,
        s.records[accounts.token_config@].paused,
    ensures
        mint_tokens_spec(s, accounts, amount) == Err::<crate::handlers::LedgerCall, ErrorCode>(ErrorCode::TokenPaused),
{
}

/// While a token is paused every burn of it fails with `TokenPaused`,
/// whoever calls and whatever the amount.
pub proof fn lemma_paused_blocks_burn(s: StoreModel, accounts: BurnTokens, amount: u64)
    requires
        store_wf(s),
        s.records.contains_key(accounts.token_config@),
        s.records[accounts.token_config@].mint == accounts.mint@,
        s.records[accounts.token_config@].paused,
    ensures
        burn_tokens_spec(s, accounts, amount) == Err::<crate::handlers::LedgerCall, ErrorCode>(ErrorCode::TokenPaused),
{
}

/// While a token is paused every transfer of it fails with `TokenPaused`,
/// whoever calls and whatever the amount.
pub proof fn lemma_paused_blocks_transfer(s: StoreModel, accounts: TransferTokens, amount: u64)
    requires
        store_wf(s),
        s.records.contains_key(accounts.token_config@),
        s.records[accounts.token_config@].paused,
    ensures
        transfer_tokens_spec(s, accounts, amount) == Err::<crate::handlers::LedgerCall, ErrorCode>(ErrorCode::TokenPaused),
{
}

/// A caller other than the authority can never mint; while the token is
/// active the mint fails with `UnauthorizedMinter`.
pub proof fn lemma_mint_needs_authority(s: StoreModel, accounts: MintTokens, amount: u64)
    requires
        store_wf(s),
        s.records.contains_key(accounts.token_config@),
        s.records[accounts.token_config@].mint == accounts.mint@,
        accounts.authority@ != s.records[accounts.token_config@].authority,
    ensures
        mint_tokens_spec(s, accounts, amount) is Err,
        !s.records[accounts.token_config@].paused ==> mint_tokens_spec(s, accounts, amount)
            == Err::<crate::handlers::LedgerCall, ErrorCode>(ErrorCode::UnauthorizedMinter),
{
}

/// After the authority hands a token over to `new_authority`, the former
/// authority's admin operations fail with `UnauthorizedAdmin`, while the new
/// authority may hand it on, pause it when active and unpause it when paused.
pub proof fn lemma_authority_handover(
    s: StoreModel,
    accounts: TransferAuthority,
    new_authority: Key,
    s1: StoreModel,
    next_authority: Key,
)
    requires
        transfer_authority_spec(s, accounts, new_authority@) == Ok::<StoreModel, ErrorCode>(s1),
        accounts.authority@ != new_authority@,
    ensures
        transfer_authority_spec(s1, accounts, next_authority@) == Err::<StoreModel, ErrorCode>(ErrorCode::UnauthorizedAdmin),
        pause_spec(s1, (PauseToken { token_config: accounts.token_config, authority: accounts.authority }))
            == Err::<StoreModel, ErrorCode>(ErrorCode::UnauthorizedAdmin),
        unpause_spec(s1, (PauseToken { token_config: accounts.token_config, authority: accounts.authority }))
            == Err::<StoreModel, ErrorCode>(ErrorCode::UnauthorizedAdmin),
        transfer_authority_spec(
            s1,
            (TransferAuthority { token_config: accounts.token_config, authority: new_authority }),
            next_authority@,
        ) is Ok,
        pause_spec(s1, (PauseToken { token_config: accounts.token_config, authority: new_authority })) is Ok
            <==> !s.records[accounts.token_config@].paused,
        unpause_spec(s1, (PauseToken { token_config: accounts.token_config, authority: new_authority })) is Ok
            <==> s.records[accounts.token_config@].paused,
{
}

} // verus!
