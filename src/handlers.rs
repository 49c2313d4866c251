use vstd::prelude::*;

use crate::key::Key;
use crate::state::{
    create_spec, load_own_spec, load_spec, with_record, ConfigModel, ConfigStore, ErrorCode,
    StoreModel,
};

verus! {

/// The accounts of an initialisation: the token and the caller, who becomes
/// its authority.
#[derive(Clone, Copy, Debug)]
pub struct Initialize {
    pub mint: Key,
    pub authority: Key,
}

/// The accounts of a mint: the record claimed for the token, the token, the
/// account credited, and the caller.
#[derive(Clone, Copy, Debug)]
pub struct MintTokens {
    pub token_config: Key,
    pub mint: Key,
    pub destination: Key,
    pub authority: Key,
}

/// The accounts of a burn: the record claimed for the token, the token, the
/// account debited, and the caller, who must own that account on the ledger.
#[derive(Clone, Copy, Debug)]
pub struct BurnTokens {
    pub token_config: Key,
    pub mint: Key,
    pub from: Key,
    pub authority: Key,
}

/// The accounts of a pause or an unpause: the record and the caller.
#[derive(Clone, Copy, Debug)]
pub struct PauseToken {
    pub token_config: Key,
    pub authority: Key,
}

/// The accounts of an authority transfer: the record and the caller.
#[derive(Clone, Copy, Debug)]
pub struct TransferAuthority {
    pub token_config: Key,
    pub authority: Key,
}

/// The accounts of a transfer: the record, the accounts debited and
/// credited, and the caller, who must own the debited account on the ledger.
#[derive(Clone, Copy, Debug)]
pub struct TransferTokens {
    pub token_config: Key,
    pub from: Key,
    pub to: Key,
    pub authority: Key,
}

/// A ledger operation that a successful handler asks for.
#[derive(Clone, Copy, Debug, PartialEq, Eq)]
pub enum LedgerCall {
    /// Mint `amount` of `mint` into `to`. `authority` is the configuration
    /// record, which signs with the seeds `[CONFIG_SEED, mint, [bump]]`.
    MintTo { mint: Key, to: Key, authority: Key, bump: u8, amount: u64 },
    /// Burn `amount` of `mint` from `from`, signed by the caller `authority`.
    Burn { mint: Key, from: Key, authority: Key, amount: u64 },
    /// Move `amount` from `from` to `to`, signed by the caller `authority`.
    Transfer { from: Key, to: Key, authority: Key, amount: u64 },
}

/// The outcome of `initialize`.
pub open spec fn initialize_spec(
    s: StoreModel,
    accounts: Initialize,
    decimals: u8,
    name: Seq<char>,
    symbol: Seq<char>,
) -> Result<StoreModel, ErrorCode> {
    create_spec(s, accounts.mint@, accounts.authority@, decimals, name, symbol)
}

/// The outcome of `mint_tokens`: the record must load, the token must be
/// active, and the caller must be the authority.
pub open spec fn mint_tokens_spec(s: StoreModel, accounts: MintTokens, amount: u64) -> Result<LedgerCall, ErrorCode> {
    match load_spec(s, accounts.token_config@, accounts.mint@) {
        Err(e) => Err(e),
        Ok(c) => if c.paused {
            Err(ErrorCode::TokenPaused)
        } else if accounts.authority@ != c.authority {
            Err(ErrorCode::UnauthorizedMinter)
        } else {
            Ok(LedgerCall::MintTo {
                mint: accounts.mint,
                to: accounts.destination,
                authority: accounts.token_config,
                bump: c.bump,
                amount,
            })
        },
    }
}

/// The outcome of `burn_tokens`: the record must load and the token must be
/// active; the authority is not consulted.
pub open spec fn burn_tokens_spec(s: StoreModel, accounts: BurnTokens, amount: u64) -> Result<LedgerCall, ErrorCode> {
    match load_spec(s, accounts.token_config@, accounts.mint@) {
        Err(e) => Err(e),
        Ok(c) => if c.paused {
            Err(ErrorCode::TokenPaused)
        } else {
            Ok(LedgerCall::Burn {
                mint: accounts.mint,
                from: accounts.from,
                authority: accounts.authority,
                amount,
            })
        },
    }
}

/// The outcome of `transfer_tokens`: the record must load and the token must
/// be active; the authority is not consulted.
pub open spec fn transfer_tokens_spec(s: StoreModel, accounts: TransferTokens, amount: u64) -> Result<LedgerCall, ErrorCode> {
    match load_own_spec(s, accounts.token_config@) {
        Err(e) => Err(e),
        Ok(c) => if c.paused {
            Err(ErrorCode::TokenPaused)
        } else {
            Ok(LedgerCall::Transfer {
                from: accounts.from,
                to: accounts.to,
                authority: accounts.authority,
                amount,
            })
        },
    }
}

/// The outcome of `pause`: the caller must be the authority and the token
/// active; the latch is then set.
pub open spec fn pause_spec(s: StoreModel, accounts: PauseToken) -> Result<StoreModel, ErrorCode> {
    match load_own_spec(s, accounts.token_config@) {
        Err(e) => Err(e),
        Ok(c) => if accounts.authority@ != c.authority {
            Err(ErrorCode::UnauthorizedAdmin)
        } else if c.paused {
            Err(ErrorCode::AlreadyPaused)
        } else {
            Ok(with_record(s, accounts.token_config@, ConfigModel { paused: true, ..c }))
        },
    }
}

/// The outcome of `unpause`: the caller must be the authority and the token
/// paused; the latch is then released.
pub open spec fn unpause_spec(s: StoreModel, accounts: PauseToken) -> Result<StoreModel, ErrorCode> {
    match load_own_spec(s, accounts.token_config@) {
        Err(e) => Err(e),
        Ok(c) => if accounts.authority@ != c.authority {
            Err(ErrorCode::UnauthorizedAdmin)
        } else if !c.paused {
            Err(ErrorCode::NotPaused)
        } else {
            Ok(with_record(s, accounts.token_config@, ConfigModel { paused: false, ..c }))
        },
    }
}

/// The outcome of `transfer_authority`: the caller must be the authority,
/// which is then overwritten at once.
pub open spec fn transfer_authority_spec(s: StoreModel, accounts: TransferAuthority, new_authority: Seq<u8>) -> Result<StoreModel, ErrorCode> {
    match load_own_spec(s, accounts.token_config@) {
        Err(e) => Err(e),
        Ok(c) => if accounts.authority@ != c.authority {
            Err(ErrorCode::UnauthorizedAdmin)
        } else {
            Ok(with_record(s, accounts.token_config@, ConfigModel { authority: new_authority, ..c }))
        },
    }
}

/// A handler that changes the store has the outcome `expected`: on success
/// the store is the new one, on failure it is unchanged.
pub open spec fn store_outcome(
    r: Result<(), ErrorCode>,
    before: StoreModel,
    after: StoreModel,
    expected: Result<StoreModel, ErrorCode>,
) -> bool {
    match r {
        Ok(()) => expected == Ok::<StoreModel, ErrorCode>(after),
        Err(e) => expected == Err::<StoreModel, ErrorCode>(e) && after == before,
    }
}

/// Creates the configuration record of `accounts.mint`, with the caller as
/// authority and the token active.
pub fn initialize(
    store: &mut ConfigStore,
    accounts: &Initialize,
    decimals: u8,
    name: String,
    symbol: String,
) -> (r: Result<(), ErrorCode>)
    requires
        old(store).wf(),
    ensures
        final(store).wf(),
        store_outcome(r, old(store)@, final(store)@, initialize_spec(old(store)@, *accounts, decimals, name@, symbol@)),
{
    store.create(&accounts.mint, &accounts.authority, decimals, name, symbol)
}

/// Checks a mint: the record must load with the address derived from
/// `accounts.mint`, the token must be active and the caller the authority.
/// On success returns the mint to perform, signed by the record.
pub fn mint_tokens(store: &ConfigStore, accounts: &MintTokens, amount: u64) -> (r: Result<LedgerCall, ErrorCode>)
    requires
        store.wf(),
    ensures
        r == mint_tokens_spec(store@, *accounts, amount),
{
    let config = match store.load(&accounts.token_config, &accounts.mint) {
        Ok(c) => c,
        Err(e) => return Err(e),
    };
    if config.paused {
        return Err(ErrorCode::TokenPaused);
    }
    if !accounts.authority.same(&config.authority) {
        return Err(ErrorCode::UnauthorizedMinter);
    }
    Ok(LedgerCall::MintTo {
        mint: accounts.mint,
        to: accounts.destination,
        authority: accounts.token_config,
        bump: config.bump,
        amount,
    })
}

/// Checks a burn: the record must load with the address derived from
/// `accounts.mint` and the token must be active. On success returns the burn
/// to perform, signed by the caller.
pub fn burn_tokens(store: &ConfigStore, accounts: &BurnTokens, amount: u64) -> (r: Result<LedgerCall, ErrorCode>)
    requires
        store.wf(),
    ensures
        r == burn_tokens_spec(store@, *accounts, amount),
{
    let config = match store.load(&accounts.token_config, &accounts.mint) {
        Ok(c) => c,
        Err(e) => return Err(e),
    };
    if config.paused {
        return Err(ErrorCode::TokenPaused);
    }
    Ok(LedgerCall::Burn {
        mint: accounts.mint,
        from: accounts.from,
        authority: accounts.authority,
        amount,
    })
}

/// Checks a transfer: the record must load and the token must be active. On
/// success returns the transfer to perform, signed by the caller.
pub fn transfer_tokens(store: &ConfigStore, accounts: &TransferTokens, amount: u64) -> (r: Result<LedgerCall, ErrorCode>)
    requires
        store.wf(),
    ensures
        r == transfer_tokens_spec(store@, *accounts, amount),
{
    let config = match store.load_own(&accounts.token_config) {
        Ok(c) => c,
        Err(e) => return Err(e),
    };
    if config.paused {
        return Err(ErrorCode::TokenPaused);
    }
    Ok(LedgerCall::Transfer {
        from: accounts.from,
        to: accounts.to,
        authority: accounts.authority,
        amount,
    })
}

/// Sets the pause latch, by the authority, of an active token.
pub fn pause(store: &mut ConfigStore, accounts: &PauseToken) -> (r: Result<(), ErrorCode>)
    requires
        old(store).wf(),
    ensures
        final(store).wf(),
        store_outcome(r, old(store)@, final(store)@, pause_spec(old(store)@, *accounts)),
{
    let (authority, paused) = match store.load_own(&accounts.token_config) {
        Ok(c) => (c.authority, c.paused),
        Err(e) => return Err(e),
    };
    if !accounts.authority.same(&authority) {
        return Err(ErrorCode::UnauthorizedAdmin);
    }
    if paused {
        return Err(ErrorCode::AlreadyPaused);
    }
    store.set_paused(&accounts.token_config, true);
    Ok(())
}

/// Releases the pause latch, by the authority, of a paused token.
pub fn unpause(store: &mut ConfigStore, accounts: &PauseToken) -> (r: Result<(), ErrorCode>)
    requires
        old(store).wf(),
    ensures
        final(store).wf(),
        store_outcome(r, old(store)@, final(store)@, unpause_spec(old(store)@, *accounts)),
{
    let (authority, paused) = match store.load_own(&accounts.token_config) {
        Ok(c) => (c.authority, c.paused),
        Err(e) => return Err(e),
    };
    if !accounts.authority.same(&authority) {
        return Err(ErrorCode::UnauthorizedAdmin);
    }
    if !paused {
        return Err(ErrorCode::NotPaused);
    }
    store.set_paused(&accounts.token_config, false);
    Ok(())
}

/// Hands the administration of a token, by its authority, to `new_authority`.
pub fn transfer_authority(store: &mut ConfigStore, accounts: &TransferAuthority, new_authority: Key) -> (r: Result<(), ErrorCode>)
    requires
        old(store).wf(),
    ensures
        final(store).wf(),
        store_outcome(
            r,
            old(store)@,
            final(store)@,
            transfer_authority_spec(old(store)@, *accounts, new_authority@),
        ),
{
    let authority = match store.load_own(&accounts.token_config) {
        Ok(c) => c.authority,
        Err(e) => return Err(e),
    };
    if !accounts.authority.same(&authority) {
        return Err(ErrorCode::UnauthorizedAdmin);
    }
    store.set_authority(&accounts.token_config, &new_authority);
    Ok(())
}

} // verus!
