use crypto_token::{
    burn_tokens, initialize, mint_tokens, pause, transfer_authority, transfer_tokens, unpause,
    BurnTokens, ConfigStore, ErrorCode, Initialize, Key, LedgerCall, MintTokens, PauseToken,
    TransferAuthority, TransferTokens,
};

fn key(b: u8) -> Key {
    Key::new([b; 32])
}

const PROGRAM: u8 = 200;
const MINT: u8 = 1;
const ADMIN: u8 = 2;
const OTHER: u8 = 3;
const HOLDER: u8 = 4;
const RECEIVER: u8 = 5;

/// A store with one token, initialised by ADMIN; returns the record's address.
fn setup() -> (ConfigStore, Key) {
    let mut store = ConfigStore::new(key(PROGRAM));
    let accounts = Initialize { mint: key(MINT), authority: key(ADMIN) };
    assert_eq!(initialize(&mut store, &accounts, 9, "Demo".to_string(), "DMO".to_string()), Ok(()));
    let (address, _) = store.derive_address(&key(MINT)).unwrap();
    (store, address)
}

fn pause_accounts(config: Key, caller: u8) -> PauseToken {
    PauseToken { token_config: config, authority: key(caller) }
}

fn mint_accounts(config: Key, caller: u8) -> MintTokens {
    MintTokens { token_config: config, mint: key(MINT), destination: key(HOLDER), authority: key(caller) }
}

fn burn_accounts(config: Key, caller: u8) -> BurnTokens {
    BurnTokens { token_config: config, mint: key(MINT), from: key(HOLDER), authority: key(caller) }
}

fn transfer_accounts(config: Key, caller: u8) -> TransferTokens {
    TransferTokens { token_config: config, from: key(HOLDER), to: key(RECEIVER), authority: key(caller) }
}

#[test]
fn initialize_creates_active_record() {
    let (store, address) = setup();
    let config = store.load_own(&address).unwrap();
    assert_eq!(config.authority, key(ADMIN));
    assert_eq!(config.mint, key(MINT));
    assert!(!config.paused);
    assert_eq!(config.name, "Demo");
    assert_eq!(config.symbol, "DMO");
    assert_eq!(config.decimals, 9);
    let (_, bump) = store.derive_address(&key(MINT)).unwrap();
    assert_eq!(config.bump, bump);
    assert!(bump >= 1);
}

#[test]
fn derived_address_is_stable_and_not_the_mint() {
    let store = ConfigStore::new(key(PROGRAM));
    let first = store.derive_address(&key(MINT)).unwrap();
    let second = store.derive_address(&key(MINT)).unwrap();
    assert_eq!(first, second);
    assert_ne!(first.0, key(MINT));
    assert_ne!(first.0, key(PROGRAM));
    let other = store.derive_address(&key(OTHER)).unwrap();
    assert_ne!(first.0, other.0);
    let elsewhere = ConfigStore::new(key(OTHER)).derive_address(&key(MINT)).unwrap();
    assert_ne!(first.0, elsewhere.0);
}

#[test]
fn second_initialize_already_exists() {
    let (mut store, _) = setup();
    let again = Initialize { mint: key(MINT), authority: key(OTHER) };
    assert_eq!(
        initialize(&mut store, &again, 6, "Other".to_string(), "OTH".to_string()),
        Err(ErrorCode::AlreadyExists)
    );
    let too_long = "x".repeat(40);
    assert_eq!(
        initialize(&mut store, &again, 6, too_long, "OTH".to_string()),
        Err(ErrorCode::AlreadyExists)
    );
}

#[test]
fn two_tokens_get_two_records() {
    let (mut store, first) = setup();
    let accounts = Initialize { mint: key(OTHER), authority: key(OTHER) };
    assert_eq!(initialize(&mut store, &accounts, 6, "Other".to_string(), "OTH".to_string()), Ok(()));
    let (second, _) = store.derive_address(&key(OTHER)).unwrap();
    assert_ne!(first, second);
    assert_eq!(store.load_own(&first).unwrap().authority, key(ADMIN));
    assert_eq!(store.load_own(&second).unwrap().authority, key(OTHER));
}

#[test]
fn name_of_forty_characters_is_invalid() {
    let mut store = ConfigStore::new(key(PROGRAM));
    let accounts = Initialize { mint: key(MINT), authority: key(ADMIN) };
    let name = "n".repeat(40);
    assert_eq!(initialize(&mut store, &accounts, 9, name, "DMO".to_string()), Err(ErrorCode::InvalidInput));
    let (address, _) = store.derive_address(&key(MINT)).unwrap();
    assert_eq!(store.load_own(&address).err(), Some(ErrorCode::NotFound));
}

#[test]
fn name_of_thirty_two_characters_is_accepted() {
    let mut store = ConfigStore::new(key(PROGRAM));
    let accounts = Initialize { mint: key(MINT), authority: key(ADMIN) };
    let name = "n".repeat(32);
    assert_eq!(initialize(&mut store, &accounts, 9, name.clone(), "DMO".to_string()), Ok(()));
    let (address, _) = store.derive_address(&key(MINT)).unwrap();
    assert_eq!(store.load_own(&address).unwrap().name, name);
}

#[test]
fn name_length_counts_characters() {
    let mut store = ConfigStore::new(key(PROGRAM));
    let accounts = Initialize { mint: key(MINT), authority: key(ADMIN) };
    let name = "\u{e9}".repeat(32);
    assert_eq!(name.len(), 64);
    assert_eq!(initialize(&mut store, &accounts, 9, name, "DMO".to_string()), Ok(()));
}

#[test]
fn symbol_limit_is_ten_characters() {
    let mut store = ConfigStore::new(key(PROGRAM));
    let accounts = Initialize { mint: key(MINT), authority: key(ADMIN) };
    assert_eq!(
        initialize(&mut store, &accounts, 9, "Demo".to_string(), "S".repeat(11)),
        Err(ErrorCode::InvalidInput)
    );
    assert_eq!(initialize(&mut store, &accounts, 9, "Demo".to_string(), "S".repeat(10)), Ok(()));
}

#[test]
fn pause_then_unpause_round_trip() {
    let (mut store, address) = setup();
    assert_eq!(pause(&mut store, &pause_accounts(address, ADMIN)), Ok(()));
    assert!(store.load_own(&address).unwrap().paused);
    assert_eq!(unpause(&mut store, &pause_accounts(address, ADMIN)), Ok(()));
    assert!(!store.load_own(&address).unwrap().paused);
}

#[test]
fn pause_twice_already_paused() {
    let (mut store, address) = setup();
    assert_eq!(pause(&mut store, &pause_accounts(address, ADMIN)), Ok(()));
    assert_eq!(pause(&mut store, &pause_accounts(address, ADMIN)), Err(ErrorCode::AlreadyPaused));
    assert!(store.load_own(&address).unwrap().paused);
}

#[test]
fn unpause_when_active_not_paused() {
    let (mut store, address) = setup();
    assert_eq!(unpause(&mut store, &pause_accounts(address, ADMIN)), Err(ErrorCode::NotPaused));
    assert_eq!(pause(&mut store, &pause_accounts(address, ADMIN)), Ok(()));
    assert_eq!(unpause(&mut store, &pause_accounts(address, ADMIN)), Ok(()));
    assert_eq!(unpause(&mut store, &pause_accounts(address, ADMIN)), Err(ErrorCode::NotPaused));
}

#[test]
fn pause_by_stranger_unauthorized() {
    let (mut store, address) = setup();
    assert_eq!(pause(&mut store, &pause_accounts(address, OTHER)), Err(ErrorCode::UnauthorizedAdmin));
    assert!(!store.load_own(&address).unwrap().paused);
    assert_eq!(pause(&mut store, &pause_accounts(address, ADMIN)), Ok(()));
    assert_eq!(unpause(&mut store, &pause_accounts(address, OTHER)), Err(ErrorCode::UnauthorizedAdmin));
    assert!(store.load_own(&address).unwrap().paused);
}

#[test]
fn paused_token_refuses_ledger_operations() {
    let (mut store, address) = setup();
    assert_eq!(pause(&mut store, &pause_accounts(address, ADMIN)), Ok(()));
    for caller in [ADMIN, OTHER, HOLDER] {
        for amount in [0u64, 1, 100, u64::MAX] {
            assert_eq!(mint_tokens(&store, &mint_accounts(address, caller), amount), Err(ErrorCode::TokenPaused));
            assert_eq!(burn_tokens(&store, &burn_accounts(address, caller), amount), Err(ErrorCode::TokenPaused));
            assert_eq!(
                transfer_tokens(&store, &transfer_accounts(address, caller), amount),
                Err(ErrorCode::TokenPaused)
            );
        }
    }
}

#[test]
fn mint_by_stranger_unauthorized() {
    let (store, address) = setup();
    for amount in [0u64, 50, u64::MAX] {
        assert_eq!(
            mint_tokens(&store, &mint_accounts(address, OTHER), amount),
            Err(ErrorCode::UnauthorizedMinter)
        );
    }
}

#[test]
fn mint_by_authority_signed_by_record() {
    let (store, address) = setup();
    let (_, bump) = store.derive_address(&key(MINT)).unwrap();
    assert_eq!(
        mint_tokens(&store, &mint_accounts(address, ADMIN), 100),
        Ok(LedgerCall::MintTo { mint: key(MINT), to: key(HOLDER), authority: address, bump, amount: 100 })
    );
}

#[test]
fn burn_and_transfer_do_not_consult_authority() {
    let (store, address) = setup();
    assert_eq!(
        burn_tokens(&store, &burn_accounts(address, HOLDER), 7),
        Ok(LedgerCall::Burn { mint: key(MINT), from: key(HOLDER), authority: key(HOLDER), amount: 7 })
    );
    assert_eq!(
        transfer_tokens(&store, &transfer_accounts(address, HOLDER), 8),
        Ok(LedgerCall::Transfer { from: key(HOLDER), to: key(RECEIVER), authority: key(HOLDER), amount: 8 })
    );
}

#[test]
fn unknown_record_not_found() {
    let (mut store, _) = setup();
    let nowhere = key(99);
    assert_eq!(mint_tokens(&store, &mint_accounts(nowhere, ADMIN), 1), Err(ErrorCode::NotFound));
    assert_eq!(burn_tokens(&store, &burn_accounts(nowhere, ADMIN), 1), Err(ErrorCode::NotFound));
    assert_eq!(transfer_tokens(&store, &transfer_accounts(nowhere, ADMIN), 1), Err(ErrorCode::NotFound));
    assert_eq!(pause(&mut store, &pause_accounts(nowhere, ADMIN)), Err(ErrorCode::NotFound));
    assert_eq!(unpause(&mut store, &pause_accounts(nowhere, ADMIN)), Err(ErrorCode::NotFound));
    let handover = TransferAuthority { token_config: nowhere, authority: key(ADMIN) };
    assert_eq!(transfer_authority(&mut store, &handover, key(OTHER)), Err(ErrorCode::NotFound));
}

#[test]
fn record_of_another_token_address_mismatch() {
    let (store, address) = setup();
    let mut accounts = mint_accounts(address, ADMIN);
    accounts.mint = key(OTHER);
    assert_eq!(mint_tokens(&store, &accounts, 1), Err(ErrorCode::AddressMismatch));
    let mut accounts = burn_accounts(address, ADMIN);
    accounts.mint = key(OTHER);
    assert_eq!(burn_tokens(&store, &accounts, 1), Err(ErrorCode::AddressMismatch));
    assert_eq!(store.load(&address, &key(OTHER)).err(), Some(ErrorCode::AddressMismatch));
    assert_eq!(store.load(&address, &key(MINT)).unwrap().mint, key(MINT));
}

#[test]
fn authority_handover_takes_effect_at_once() {
    let (mut store, address) = setup();
    let handover = TransferAuthority { token_config: address, authority: key(ADMIN) };
    assert_eq!(transfer_authority(&mut store, &handover, key(OTHER)), Ok(()));
    assert_eq!(store.load_own(&address).unwrap().authority, key(OTHER));
    assert_eq!(pause(&mut store, &pause_accounts(address, ADMIN)), Err(ErrorCode::UnauthorizedAdmin));
    assert_eq!(transfer_authority(&mut store, &handover, key(ADMIN)), Err(ErrorCode::UnauthorizedAdmin));
    assert_eq!(mint_tokens(&store, &mint_accounts(address, ADMIN), 1), Err(ErrorCode::UnauthorizedMinter));
    assert_eq!(pause(&mut store, &pause_accounts(address, OTHER)), Ok(()));
    assert_eq!(unpause(&mut store, &pause_accounts(address, ADMIN)), Err(ErrorCode::UnauthorizedAdmin));
    assert_eq!(unpause(&mut store, &pause_accounts(address, OTHER)), Ok(()));
    let onward = TransferAuthority { token_config: address, authority: key(OTHER) };
    assert_eq!(transfer_authority(&mut store, &onward, key(HOLDER)), Ok(()));
    assert_eq!(store.load_own(&address).unwrap().authority, key(HOLDER));
}

#[test]
fn handover_by_stranger_unauthorized() {
    let (mut store, address) = setup();
    let handover = TransferAuthority { token_config: address, authority: key(OTHER) };
    assert_eq!(transfer_authority(&mut store, &handover, key(OTHER)), Err(ErrorCode::UnauthorizedAdmin));
    assert_eq!(store.load_own(&address).unwrap().authority, key(ADMIN));
}

#[test]
fn end_to_end_demo_token() {
    let mut store = ConfigStore::new(key(PROGRAM));
    let accounts = Initialize { mint: key(MINT), authority: key(ADMIN) };
    assert_eq!(initialize(&mut store, &accounts, 9, "Demo".to_string(), "DMO".to_string()), Ok(()));
    let (address, bump) = store.derive_address(&key(MINT)).unwrap();
    assert!(!store.load_own(&address).unwrap().paused);
    assert_eq!(pause(&mut store, &pause_accounts(address, ADMIN)), Ok(()));
    assert!(store.load_own(&address).unwrap().paused);
    assert_eq!(mint_tokens(&store, &mint_accounts(address, ADMIN), 100), Err(ErrorCode::TokenPaused));
    assert_eq!(unpause(&mut store, &pause_accounts(address, ADMIN)), Ok(()));
    assert_eq!(
        mint_tokens(&store, &mint_accounts(address, ADMIN), 100),
        Ok(LedgerCall::MintTo { mint: key(MINT), to: key(HOLDER), authority: address, bump, amount: 100 })
    );
    assert_eq!(mint_tokens(&store, &mint_accounts(address, OTHER), 50), Err(ErrorCode::UnauthorizedMinter));
}

#[test]
fn keys_compare_by_bytes() {
    let mut bytes = [5u8; 32];
    assert_eq!(Key::new(bytes), key(5));
    assert!(Key::new(bytes).same(&key(5)));
    bytes[31] = 6;
    assert_ne!(Key::new(bytes), key(5));
    assert!(!Key::new(bytes).same(&key(5)));
}

fn demo_record(store: &ConfigStore) -> (Key, crypto_token::TokenConfig) {
    let (address, bump) = store.derive_address(&key(MINT)).unwrap();
    let config = crypto_token::TokenConfig {
        authority: key(ADMIN),
        mint: key(MINT),
        paused: true,
        name: "Demo".to_string(),
        symbol: "DMO".to_string(),
        decimals: 9,
        bump,
    };
    (address, config)
}

#[test]
fn restore_accepts_derived_record() {
    let mut store = ConfigStore::new(key(PROGRAM));
    let (address, config) = demo_record(&store);
    assert_eq!(store.restore(address, config), Ok(()));
    assert!(store.load_own(&address).unwrap().paused);
    assert_eq!(mint_tokens(&store, &mint_accounts(address, ADMIN), 1), Err(ErrorCode::TokenPaused));
    let (_, again) = demo_record(&store);
    assert_eq!(store.restore(address, again), Err(ErrorCode::AlreadyExists));
}

#[test]
fn restore_refuses_forged_address() {
    let mut store = ConfigStore::new(key(PROGRAM));
    let (_, config) = demo_record(&store);
    assert_eq!(store.restore(key(77), config), Err(ErrorCode::AddressMismatch));
    let (address, mut config) = demo_record(&store);
    config.bump = config.bump.wrapping_sub(1);
    assert_eq!(store.restore(address, config), Err(ErrorCode::AddressMismatch));
    let (address, mut config) = demo_record(&store);
    config.mint = key(OTHER);
    assert_eq!(store.restore(address, config), Err(ErrorCode::AddressMismatch));
    assert_eq!(store.load_own(&address).err(), Some(ErrorCode::NotFound));
}

#[test]
fn restore_refuses_oversized_metadata() {
    let mut store = ConfigStore::new(key(PROGRAM));
    let (address, mut config) = demo_record(&store);
    config.symbol = "S".repeat(11);
    assert_eq!(store.restore(address, config), Err(ErrorCode::InvalidInput));
}

#[test]
fn config_seed_spells_token_config() {
    assert_eq!(&crypto_token::CONFIG_SEED, b"token-config");
    assert_eq!(crypto_token::MAX_NAME_LEN, 32);
    assert_eq!(crypto_token::MAX_SYMBOL_LEN, 10);
}
