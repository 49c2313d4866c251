use vstd::prelude::*;

use crate::address::{
    canonical_address, canonical_bump, create_program_address, find_program_address,
    has_canonical_bump, is_canonical_bump, lemma_canonical_bump_is_chosen, program_address,
};
use crate::key::Key;

verus! {

/// First seed of every configuration record's address: the bytes of "token-config".
pub const CONFIG_SEED: [u8; 12] = [116, 111, 107, 101, 110, 45, 99, 111, 110, 102, 105, 103];

/// Longest token name, in characters.
pub const MAX_NAME_LEN: usize = 32;

/// Longest token symbol, in characters.
pub const MAX_SYMBOL_LEN: usize = 10;

/// The first seed, as a sequence of bytes.
pub open spec fn config_seed() -> Seq<u8> {
    CONFIG_SEED@
}

/// Why a handler refused to act. Each refusal leaves every record unchanged.
#[derive(Clone, Copy, Debug, PartialEq, Eq, Structural)]
pub enum ErrorCode {
    /// Mint, burn or transfer while the token is paused.
    TokenPaused,
    /// Mint by a caller other than the authority.
    UnauthorizedMinter,
    /// Pause, unpause or authority transfer by a caller other than the authority.
    UnauthorizedAdmin,
    /// Pause of a paused token.
    AlreadyPaused,
    /// Unpause of a token that is not paused.
    NotPaused,
    /// A second initialisation of the same token.
    AlreadyExists,
    /// A name or a symbol that is too long.
    InvalidInput,
    /// No record at the address given.
    NotFound,
    /// The address given is not the one derived from the token.
    AddressMismatch,
    /// No bump seed derives an address for the token.
    NoViableAddress,
}

/// The configuration record of one token.
#[derive(Debug)]
pub struct TokenConfig {
    /// The administrator: the only caller that may mint, pause, unpause or hand over.
    pub authority: Key,
    /// The token this record governs.
    pub mint: Key,
    /// While set, mint, burn and transfer are refused.
    pub paused: bool,
    pub name: String,
    pub symbol: String,
    pub decimals: u8,
    /// The bump seed that, with the mint, derives the record's address.
    pub bump: u8,
}

/// The mathematical value of a configuration record.
pub struct ConfigModel {
    pub authority: Seq<u8>,
    pub mint: Seq<u8>,
    pub paused: bool,
    pub name: Seq<char>,
    pub symbol: Seq<char>,
    pub decimals: u8,
    pub bump: u8,
}

impl View for TokenConfig {
    type V = ConfigModel;

    open spec fn view(&self) -> ConfigModel {
        ConfigModel {
            authority: self.authority@,
            mint: self.mint@,
            paused: self.paused,
            name: self.name@,
            symbol: self.symbol@,
            decimals: self.decimals,
            bump: self.bump,
        }
    }
}

/// The mathematical value of the store: the program that owns the records and
/// each record by its address.
pub struct StoreModel {
    pub program: Seq<u8>,
    pub records: Map<Seq<u8>, ConfigModel>,
}

/// A record stored at `address` under `program` is sound: its metadata fits,
/// and the address is the one derived from its mint with its canonical bump.
pub open spec fn record_wf(program: Seq<u8>, address: Seq<u8>, c: ConfigModel) -> bool {
    &&& c.name.len() <= MAX_NAME_LEN
    &&& c.symbol.len() <= MAX_SYMBOL_LEN
    &&& is_canonical_bump(config_seed(), c.mint, program, c.bump)
    &&& program_address(config_seed(), c.mint, c.bump, program) == Some(address)
}

/// Every record of the store is sound.
pub open spec fn store_wf(s: StoreModel) -> bool {
    forall|a: Seq<u8>| #[trigger] s.records.contains_key(a) ==> record_wf(s.program, a, s.records[a])
}

/// The store with the record at `address` set to `c`.
pub open spec fn with_record(s: StoreModel, address: Seq<u8>, c: ConfigModel) -> StoreModel {
    StoreModel { program: s.program, records: s.records.insert(address, c) }
}

/// The record at `claimed`, after re-deriving its address from `mint` and the
/// record's bump; refused where there is no record or the address differs.
pub open spec fn load_spec(s: StoreModel, claimed: Seq<u8>, mint: Seq<u8>) -> Result<ConfigModel, ErrorCode> {
    if !s.records.contains_key(claimed) {
        Err(ErrorCode::NotFound)
    } else if program_address(config_seed(), mint, s.records[claimed].bump, s.program) != Some(claimed) {
        Err(ErrorCode::AddressMismatch)
    } else {
        Ok(s.records[claimed])
    }
}

/// As `load_spec`, with the address re-derived from the record's own mint.
pub open spec fn load_own_spec(s: StoreModel, claimed: Seq<u8>) -> Result<ConfigModel, ErrorCode> {
    load_spec(s, claimed, s.records[claimed].mint)
}

/// The outcome of creating the record of `mint` for `authority`.
pub open spec fn create_spec(
    s: StoreModel,
    mint: Seq<u8>,
    authority: Seq<u8>,
    decimals: u8,
    name: Seq<char>,
    symbol: Seq<char>,
) -> Result<StoreModel, ErrorCode> {
    if !has_canonical_bump(config_seed(), mint, s.program) {
        Err(ErrorCode::NoViableAddress)
    } else if s.records.contains_key(canonical_address(config_seed(), mint, s.program)) {
        Err(ErrorCode::AlreadyExists)
    } else if name.len() > MAX_NAME_LEN || symbol.len() > MAX_SYMBOL_LEN {
        Err(ErrorCode::InvalidInput)
    } else {
        Ok(with_record(
            s,
            canonical_address(config_seed(), mint, s.program),
            ConfigModel {
                authority,
                mint,
                paused: false,
                name,
                symbol,
                decimals,
                bump: canonical_bump(config_seed(), mint, s.program),
            },
        ))
    }
}

/// The outcome of taking in the record `c` kept at `address`.
pub open spec fn restore_spec(s: StoreModel, address: Seq<u8>, c: ConfigModel) -> Result<StoreModel, ErrorCode> {
    if s.records.contains_key(address) {
        Err(ErrorCode::AlreadyExists)
    } else if !has_canonical_bump(config_seed(), c.mint, s.program) {
        Err(ErrorCode::NoViableAddress)
    } else if canonical_address(config_seed(), c.mint, s.program) != address
        || canonical_bump(config_seed(), c.mint, s.program) != c.bump {
        Err(ErrorCode::AddressMismatch)
    } else if c.name.len() > MAX_NAME_LEN || c.symbol.len() > MAX_SYMBOL_LEN {
        Err(ErrorCode::InvalidInput)
    } else {
        Ok(with_record(s, address, c))
    }
}

/// A configuration record with the address it is stored at.
pub struct ConfigAccount {
    pub address: Key,
    pub config: TokenConfig,
}

/// The configuration records of one program, one per token.
pub struct ConfigStore {
    program_id: Key,
    accounts: Vec<ConfigAccount>,
    records: Ghost<Map<Seq<u8>, ConfigModel>>,
}

impl View for ConfigStore {
    type V = StoreModel;

    closed spec fn view(&self) -> StoreModel {
        StoreModel { program: self.program_id@, records: self.records@ }
    }
}

impl ConfigStore {
    /// The accounts hold exactly the records of the view, at distinct
    /// addresses, and every record is sound.
    pub closed spec fn wf(&self) -> bool {
        &&& forall|i: int| 0 <= i < self.accounts@.len() ==> {
            &&& #[trigger] self.records@.contains_key(self.accounts@[i].address@)
            &&& self.records@[self.accounts@[i].address@] == self.accounts@[i].config@
        }
        &&& forall|i: int, j: int|
            0 <= i < self.accounts@.len() && 0 <= j < self.accounts@.len() && i != j
                ==> #[trigger] self.accounts@[i].address@ != #[trigger] self.accounts@[j].address@
        &&& forall|a: Seq<u8>| #[trigger] self.records@.contains_key(a)
            ==> exists|i: int| 0 <= i < self.accounts@.len() && self.accounts@[i].address@ == a
        &&& store_wf(self@)
    }

    /// Every record of a well-formed store is sound, so the laws stated over
    /// sound stores apply to it.
    pub proof fn lemma_wf_store(&self)
        requires
            self.wf(),
        ensures
            store_wf(self@),
    {
    }

    /// An empty store for the program `program_id`.
    pub fn new(program_id: Key) -> (r: ConfigStore)
        ensures
            r.wf(),
            r@.program == program_id@,
            r@.records == Map::<Seq<u8>, ConfigModel>::empty(),
    {
        ConfigStore { program_id, accounts: Vec::new(), records: Ghost(Map::empty()) }
    }

    /// The program that owns the records.
    pub fn program_id(&self) -> (r: Key)
        ensures
            r@ == self@.program,
    {
        self.program_id
    }

    /// The address of the record of `mint` and its bump seed, derived with the
    /// canonical bump; `None` where no bump derives an address.
    pub fn derive_address(&self, mint: &Key) -> (r: Option<(Key, u8)>)
        ensures
            match r {
                Some((k, b)) => {
                    &&& has_canonical_bump(config_seed(), mint@, self@.program)
                    &&& b == canonical_bump(config_seed(), mint@, self@.program)
                    &&& k@ == canonical_address(config_seed(), mint@, self@.program)
                },
                None => !has_canonical_bump(config_seed(), mint@, self@.program),
            },
    {
        let r = find_program_address(CONFIG_SEED.as_slice(), mint, &self.program_id);
        proof {
            match r {
                Some((k, b)) => {
                    lemma_canonical_bump_is_chosen(config_seed(), mint@, self@.program, b);
                },
                None => {
                    if has_canonical_bump(config_seed(), mint@, self@.program) {
                        let b = choose|b: u8| is_canonical_bump(config_seed(), mint@, self@.program, b);
                        assert(program_address(config_seed(), mint@, b, self@.program) is None);
                    }
                },
            }
        }
        r
    }

    /// Where the record at `address` sits among the accounts.
    fn find(&self, address: &Key) -> (r: Option<usize>)
        requires
            self.wf(),
        ensures
            match r {
                Some(i) => i < self.accounts@.len() && self.accounts@[i as int].address@ == address@,
                None => !self@.records.contains_key(address@),
            },
    {
        let mut i: usize = 0;
        while i < self.accounts.len()
            invariant
                self.wf(),
                i <= self.accounts@.len(),
                forall|j: int| 0 <= j < i ==> self.accounts@[j].address@ != address@,
            decreases self.accounts@.len() - i,
        {
            if self.accounts[i].address.same(address) {
                return Some(i);
            }
            i = i + 1;
        }
        None
    }

    /// Finds the record at `claimed` and checks that the address derived from
    /// `mint` and the record's bump is `claimed`.
    fn locate(&self, claimed: &Key, mint: &Key) -> (r: Result<usize, ErrorCode>)
        requires
            self.wf(),
        ensures
            match r {
                Ok(i) => {
                    &&& i < self.accounts@.len()
                    &&& self.accounts@[i as int].address@ == claimed@
                    &&& load_spec(self@, claimed@, mint@) == Ok::<ConfigModel, ErrorCode>(self.accounts@[i as int].config@)
                },
                Err(e) => load_spec(self@, claimed@, mint@) == Err::<ConfigModel, ErrorCode>(e),
            },
    {
        match self.find(claimed) {
            None => Err(ErrorCode::NotFound),
            Some(i) => {
                let bump = self.accounts[i].config.bump;
                match create_program_address(CONFIG_SEED.as_slice(), mint, bump, &self.program_id) {
                    Some(derived) => {
                        if derived.same(claimed) {
                            Ok(i)
                        } else {
                            Err(ErrorCode::AddressMismatch)
                        }
                    },
                    None => Err(ErrorCode::AddressMismatch),
                }
            },
        }
    }

    /// The record at `claimed`, once its address has been re-derived from
    /// `mint` and found equal.
    pub fn load(&self, claimed: &Key, mint: &Key) -> (r: Result<&TokenConfig, ErrorCode>)
        requires
            self.wf(),
        ensures
            match r {
                Ok(c) => load_spec(self@, claimed@, mint@) == Ok::<ConfigModel, ErrorCode>(c@),
                Err(e) => load_spec(self@, claimed@, mint@) == Err::<ConfigModel, ErrorCode>(e),
            },
    {
        match self.locate(claimed, mint) {
            Ok(i) => Ok(&self.accounts[i].config),
            Err(e) => Err(e),
        }
    }

    /// The record at `claimed`, once its address has been re-derived from the
    /// record's own mint and found equal.
    pub fn load_own(&self, claimed: &Key) -> (r: Result<&TokenConfig, ErrorCode>)
        requires
            self.wf(),
        ensures
            match r {
                Ok(c) => load_own_spec(self@, claimed@) == Ok::<ConfigModel, ErrorCode>(c@),
                Err(e) => load_own_spec(self@, claimed@) == Err::<ConfigModel, ErrorCode>(e),
            },
    {
        match self.find(claimed) {
            None => Err(ErrorCode::NotFound),
            Some(i) => {
                let mint = self.accounts[i].config.mint;
                self.load(claimed, &mint)
            },
        }
    }

    /// Sets the pause latch of the record at `claimed`.
    pub fn set_paused(&mut self, claimed: &Key, paused: bool)
        requires
            old(self).wf(),
            old(self)@.records.contains_key(claimed@),
        ensures
            final(self).wf(),
            final(self)@ == with_record(
                old(self)@,
                claimed@,
                ConfigModel { paused, ..old(self)@.records[claimed@] },
            ),
    {
        match self.find(claimed) {
            Some(i) => self.set_paused_at(i, claimed, paused),
            None => {},
        }
    }

    /// Sets the authority of the record at `claimed`.
    pub fn set_authority(&mut self, claimed: &Key, authority: &Key)
        requires
            old(self).wf(),
            old(self)@.records.contains_key(claimed@),
        ensures
            final(self).wf(),
            final(self)@ == with_record(
                old(self)@,
                claimed@,
                ConfigModel { authority: authority@, ..old(self)@.records[claimed@] },
            ),
    {
        match self.find(claimed) {
            Some(i) => self.set_authority_at(i, claimed, authority),
            None => {},
        }
    }

    /// Creates the record of `mint` at its derived address, with `authority`
    /// as administrator and the pause latch released.
    pub fn create(
        &mut self,
        mint: &Key,
        authority: &Key,
        decimals: u8,
        name: String,
        symbol: String,
    ) -> (r: Result<(), ErrorCode>)
        requires
            old(self).wf(),
        ensures
            final(self).wf(),
            match r {
                Ok(()) => create_spec(old(self)@, mint@, authority@, decimals, name@, symbol@)
                    == Ok::<StoreModel, ErrorCode>(final(self)@),
                Err(e) => {
                    &&& create_spec(old(self)@, mint@, authority@, decimals, name@, symbol@)
                        == Err::<StoreModel, ErrorCode>(e)
                    &&& final(self)@ == old(self)@
                },
            },
    {
        match self.derive_address(mint) {
            None => Err(ErrorCode::NoViableAddress),
            Some((address, bump)) => {
                if self.find(&address).is_some() {
                    return Err(ErrorCode::AlreadyExists);
                }
                if name.as_str().unicode_len() > MAX_NAME_LEN || symbol.as_str().unicode_len() > MAX_SYMBOL_LEN {
                    return Err(ErrorCode::InvalidInput);
                }
                let config = TokenConfig {
                    authority: *authority,
                    mint: *mint,
                    paused: false,
                    name,
                    symbol,
                    decimals,
                    bump,
                };
                self.insert_new(address, config);
                Ok(())
            },
        }
    }

    /// Adds a sound record at an address that holds none yet.
    fn insert_new(&mut self, address: Key, config: TokenConfig)
        requires
            old(self).wf(),
            !old(self)@.records.contains_key(address@),
            record_wf(old(self)@.program, address@, config@),
        ensures
            final(self).wf(),
            final(self)@ == with_record(old(self)@, address@, config@),
    {
        let ghost old_accounts = self.accounts@;
        let ghost model = config@;
        self.accounts.push(ConfigAccount { address, config });
        self.records = Ghost(self.records@.insert(address@, model));
        proof {
            assert forall|i: int| 0 <= i < self.accounts@.len() implies {
                &&& #[trigger] self.records@.contains_key(self.accounts@[i].address@)
                &&& self.records@[self.accounts@[i].address@] == self.accounts@[i].config@
            } by {
                if i < old_accounts.len() {
                    assert(old_accounts[i] == self.accounts@[i]);
                }
            }
            assert forall|a: Seq<u8>| #[trigger] self.records@.contains_key(a)
                implies exists|i: int| 0 <= i < self.accounts@.len() && self.accounts@[i].address@ == a by {
                if a == address@ {
                    assert(self.accounts@[old_accounts.len() as int].address@ == a);
                } else {
                    let i = choose|i: int| 0 <= i < old_accounts.len() && old_accounts[i].address@ == a;
                    assert(self.accounts@[i] == old_accounts[i]);
                }
            }
        }
    }

    /// Takes in a record kept elsewhere (an account's data) at `address`,
    /// after checking that `address` is the one derived from the record's
    /// mint with the canonical bump, that the bump is the one recorded, and
    /// that the metadata fits.
    pub fn restore(&mut self, address: Key, config: TokenConfig) -> (r: Result<(), ErrorCode>)
        requires
            old(self).wf(),
        ensures
            final(self).wf(),
            match r {
                Ok(()) => restore_spec(old(self)@, address@, config@) == Ok::<StoreModel, ErrorCode>(final(self)@),
                Err(e) => {
                    &&& restore_spec(old(self)@, address@, config@) == Err::<StoreModel, ErrorCode>(e)
                    &&& final(self)@ == old(self)@
                },
            },
    {
        if self.find(&address).is_some() {
            return Err(ErrorCode::AlreadyExists);
        }
        match self.derive_address(&config.mint) {
            None => Err(ErrorCode::NoViableAddress),
            Some((derived, bump)) => {
                if !derived.same(&address) || bump != config.bump {
                    return Err(ErrorCode::AddressMismatch);
                }
                if config.name.as_str().unicode_len() > MAX_NAME_LEN
                    || config.symbol.as_str().unicode_len() > MAX_SYMBOL_LEN {
                    return Err(ErrorCode::InvalidInput);
                }
                proof {
                    let c = config@;
                    assert(is_canonical_bump(config_seed(), c.mint, self@.program, c.bump));
                }
                self.insert_new(address, config);
                Ok(())
            },
        }
    }

    /// Sets the pause latch of the record at account `i`.
    fn set_paused_at(&mut self, i: usize, claimed: &Key, paused: bool)
        requires
            old(self).wf(),
            i < old(self).accounts@.len(),
            old(self).accounts@[i as int].address@ == claimed@,
        ensures
            final(self).wf(),
            final(self)@ == with_record(
                old(self)@,
                claimed@,
                ConfigModel { paused, ..old(self)@.records[claimed@] },
            ),
    {
        assert(self.records@.contains_key(self.accounts@[i as int].address@));
        let ghost model = ConfigModel { paused, ..self@.records[claimed@] };
        self.accounts[i].config.paused = paused;
        self.records = Ghost(self.records@.insert(claimed@, model));
        proof {
            assert(model == self.accounts@[i as int].config@);
            self.lemma_updated_at(old(self), i as int);
        }
    }

    /// Sets the authority of the record at account `i`.
    fn set_authority_at(&mut self, i: usize, claimed: &Key, authority: &Key)
        requires
            old(self).wf(),
            i < old(self).accounts@.len(),
            old(self).accounts@[i as int].address@ == claimed@,
        ensures
            final(self).wf(),
            final(self)@ == with_record(
                old(self)@,
                claimed@,
                ConfigModel { authority: authority@, ..old(self)@.records[claimed@] },
            ),
    {
        assert(self.records@.contains_key(self.accounts@[i as int].address@));
        let ghost model = ConfigModel { authority: authority@, ..self@.records[claimed@] };
        self.accounts[i].config.authority = *authority;
        self.records = Ghost(self.records@.insert(claimed@, model));
        proof {
            assert(model == self.accounts@[i as int].config@);
            self.lemma_updated_at(old(self), i as int);
        }
    }

    /// A store that differs from a sound one only in the record of account
    /// `i`, with the same address, mint, bump, name and symbol, is sound.
    proof fn lemma_updated_at(&self, prev: &ConfigStore, i: int)
        requires
            prev.wf(),
            0 <= i < prev.accounts@.len(),
            self.program_id == prev.program_id,
            self.accounts@.len() == prev.accounts@.len(),
            forall|j: int| 0 <= j < prev.accounts@.len() && j != i ==> self.accounts@[j] == prev.accounts@[j],
            self.accounts@[i].address == prev.accounts@[i].address,
            self.records@ == prev.records@.insert(prev.accounts@[i].address@, self.accounts@[i].config@),
            self.accounts@[i].config.mint == prev.accounts@[i].config.mint,
            self.accounts@[i].config.bump == prev.accounts@[i].config.bump,
            self.accounts@[i].config.name == prev.accounts@[i].config.name,
            self.accounts@[i].config.symbol == prev.accounts@[i].config.symbol,
        ensures
            self.wf(),
    {
        let a = prev.accounts@[i].address@;
        assert forall|j: int| 0 <= j < self.accounts@.len() implies {
            &&& #[trigger] self.records@.contains_key(self.accounts@[j].address@)
            &&& self.records@[self.accounts@[j].address@] == self.accounts@[j].config@
        } by {
            if j != i {
                assert(self.accounts@[j] == prev.accounts@[j]);
                assert(prev.records@.contains_key(prev.accounts@[j].address@));
                assert(prev.accounts@[j].address@ != a);
            }
        }
        assert forall|b: Seq<u8>| #[trigger] self.records@.contains_key(b)
            implies exists|j: int| 0 <= j < self.accounts@.len() && self.accounts@[j].address@ == b by {
            let j = choose|j: int| 0 <= j < prev.accounts@.len() && prev.accounts@[j].address@ == b;
            assert(self.accounts@[j].address@ == b);
        }
        assert forall|b: Seq<u8>| #[trigger] self@.records.contains_key(b)
            implies record_wf(self@.program, b, self@.records[b]) by {
            assert(prev@.records.contains_key(b));
        }
    }
}

} // verus!
