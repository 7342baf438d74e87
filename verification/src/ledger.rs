use crate::account::AccountId;
use crate::token_program::{
    mint_account_len, MintExtension, ACCOUNT_TYPE_LEN, BASE_ACCOUNT_LEN, BASE_MINT_LEN,
    EXTENSION_HEADER_LEN, PERMANENT_DELEGATE_LEN,
};
use vstd::prelude::*;

verus! {

/// Why the ledger refuses an operation.
#[derive(Clone, Copy, Debug, PartialEq, Eq, Structural)]
pub enum LedgerError {
    /// The base record of the mint is written already.
    MintAlreadyInitialized,
    /// The mint has a permanent delegate already.
    DelegateAlreadyBound,
    /// The mint account does not have the length that its extensions need.
    WrongAccountSize,
    /// The base record of the mint is not written yet.
    MintNotInitialized,
    /// A token account exists at that address already.
    AccountExists,
    /// No token account exists at that address.
    UnknownAccount,
    /// The signing authority has no right over the mint or the account.
    Unauthorized,
    /// The decimals stated are not those of the mint.
    DecimalsMismatch,
    /// The account holds less than the amount asked for.
    InsufficientFunds,
    /// The supply would no longer fit its counter.
    SupplyOverflow,
}

/// How far the mint account has come. It starts allocated and empty, may be
/// given a permanent delegate, and is initialized once; from then on decimals,
/// authorities and delegate stay as they are.
#[derive(Clone, Copy, Debug, PartialEq, Eq)]
pub enum MintStage {
    Uninitialized { space: usize, delegate: Option<AccountId> },
    Initialized {
        decimals: u8,
        mint_authority: AccountId,
        freeze_authority: Option<AccountId>,
        delegate: Option<AccountId>,
    },
}

/// A token account: the balance that `owner` holds of the mint.
#[derive(Clone, Copy, Debug, PartialEq, Eq)]
pub struct TokenAccount {
    pub address: AccountId,
    pub owner: AccountId,
    pub balance: u64,
}

/// Whether a token account stands at `address`.
pub open spec fn holds(accounts: Seq<TokenAccount>, address: AccountId) -> bool {
    exists|i: int| 0 <= i < accounts.len() && (#[trigger] accounts[i]).address == address
}

/// A place in `accounts` where the token account at `address` stands.
pub open spec fn index_of(accounts: Seq<TokenAccount>, address: AccountId) -> int {
    choose|i: int| 0 <= i < accounts.len() && (#[trigger] accounts[i]).address == address
}

/// No two token accounts share an address.
pub open spec fn distinct(accounts: Seq<TokenAccount>) -> bool {
    forall|i: int, j: int|
        0 <= i < j < accounts.len() ==> (#[trigger] accounts[i]).address != (
        #[trigger] accounts[j]).address
}

/// The sum of all balances.
pub open spec fn total(accounts: Seq<TokenAccount>) -> nat
    decreases accounts.len(),
{
    if accounts.len() == 0 {
        0
    } else {
        total(accounts.drop_last()) + accounts.last().balance as nat
    }
}

/// `accounts` with the balance at `address` replaced.
pub open spec fn with_balance(
    accounts: Seq<TokenAccount>,
    address: AccountId,
    balance: u64,
) -> Seq<TokenAccount> {
    let i = index_of(accounts, address);
    accounts.update(i, TokenAccount { address, owner: accounts[i].owner, balance })
}

/// The extensions that an uninitialized mint account has had written to it.
pub open spec fn written_extensions(delegate: Option<AccountId>) -> Seq<MintExtension> {
    match delegate {
        Some(_) => seq![MintExtension::PermanentDelegate],
        None => Seq::empty(),
    }
}

/// The state of one mint and of its token accounts, as the token program is
/// expected to keep it.
pub struct LedgerView {
    pub stage: MintStage,
    pub accounts: Seq<TokenAccount>,
    pub supply: nat,
}

impl LedgerView {
    /// Addresses are distinct, and the supply is the sum of all balances.
    pub open spec fn wf(self) -> bool {
        &&& distinct(self.accounts)
        &&& total(self.accounts) == self.supply
        &&& self.supply <= u64::MAX
    }

    /// Whether a token account stands at `address`.
    pub open spec fn has_account(self, address: AccountId) -> bool {
        holds(self.accounts, address)
    }

    /// The balance of the token account at `address`.
    pub open spec fn balance(self, address: AccountId) -> nat {
        self.accounts[index_of(self.accounts, address)].balance as nat
    }

    /// The owner of the token account at `address`.
    pub open spec fn owner(self, address: AccountId) -> AccountId {
        self.accounts[index_of(self.accounts, address)].owner
    }

    /// The permanent delegate of the mint, if it has one.
    pub open spec fn delegate(self) -> Option<AccountId> {
        match self.stage {
            MintStage::Uninitialized { delegate, .. } => delegate,
            MintStage::Initialized { delegate, .. } => delegate,
        }
    }

    /// Whether a signature of `authority` lets tokens leave the account at
    /// `address`: the owner's does, and so does the permanent delegate's,
    /// whoever the owner is.
    pub open spec fn may_move(self, authority: AccountId, address: AccountId) -> bool {
        authority == self.owner(address) || self.delegate() == Some(authority)
    }

    /// Binding `delegate` to the mint for good. Only an account that holds no
    /// base record and no delegate yet, and that has room for the extension,
    /// takes it.
    pub open spec fn bind_delegate(self, delegate: AccountId) -> Result<LedgerView, LedgerError> {
        match self.stage {
            MintStage::Initialized { .. } => Err(LedgerError::MintAlreadyInitialized),
            MintStage::Uninitialized { space, delegate: bound } => {
                if bound is Some {
                    Err(LedgerError::DelegateAlreadyBound)
                } else if space < mint_account_len(seq![MintExtension::PermanentDelegate]) {
                    Err(LedgerError::WrongAccountSize)
                } else {
                    Ok(
                        LedgerView {
                            stage: MintStage::Uninitialized { space, delegate: Some(delegate) },
                            ..self
                        },
                    )
                }
            },
        }
    }

    /// Writing the base record. The account must have exactly the length
    /// that the extensions written so far need.
    pub open spec fn initialize(
        self,
        decimals: u8,
        mint_authority: AccountId,
        freeze_authority: Option<AccountId>,
    ) -> Result<LedgerView, LedgerError> {
        match self.stage {
            MintStage::Initialized { .. } => Err(LedgerError::MintAlreadyInitialized),
            MintStage::Uninitialized { space, delegate } => {
                if space != mint_account_len(written_extensions(delegate)) {
                    Err(LedgerError::WrongAccountSize)
                } else {
                    Ok(
                        LedgerView {
                            stage: MintStage::Initialized {
                                decimals,
                                mint_authority,
                                freeze_authority,
                                delegate,
                            },
                            ..self
                        },
                    )
                }
            },
        }
    }

    /// Creating the empty token account of `owner` at `address`.
    pub open spec fn open_account(self, address: AccountId, owner: AccountId) -> Result<
        LedgerView,
        LedgerError,
    > {
        if self.stage is Uninitialized {
            Err(LedgerError::MintNotInitialized)
        } else if self.has_account(address) {
            Err(LedgerError::AccountExists)
        } else {
            Ok(
                LedgerView {
                    accounts: self.accounts.push(TokenAccount { address, owner, balance: 0 }),
                    ..self
                },
            )
        }
    }

    /// Minting `amount` new units to `destination` on the signature of
    /// `authority`.
    pub open spec fn mint(self, destination: AccountId, authority: AccountId, amount: u64) -> Result<
        LedgerView,
        LedgerError,
    > {
        match self.stage {
            MintStage::Uninitialized { .. } => Err(LedgerError::MintNotInitialized),
            MintStage::Initialized { mint_authority, .. } => {
                if !self.has_account(destination) {
                    Err(LedgerError::UnknownAccount)
                } else if authority != mint_authority {
                    Err(LedgerError::Unauthorized)
                } else if self.supply + amount > u64::MAX {
                    Err(LedgerError::SupplyOverflow)
                } else {
                    Ok(
                        LedgerView {
                            accounts: with_balance(
                                self.accounts,
                                destination,
                                (self.balance(destination) + amount) as u64,
                            ),
                            supply: (self.supply + amount) as nat,
                            ..self
                        },
                    )
                }
            },
        }
    }

    /// Moving `amount` units from `source` to `destination` on the signature
    /// of `authority`, who states `decimals` for the mint.
    pub open spec fn transfer(
        self,
        source: AccountId,
        destination: AccountId,
        authority: AccountId,
        amount: u64,
        decimals: u8,
    ) -> Result<LedgerView, LedgerError> {
        match self.stage {
            MintStage::Uninitialized { .. } => Err(LedgerError::MintNotInitialized),
            MintStage::Initialized { decimals: recorded, .. } => {
                if !self.has_account(source) || !self.has_account(destination) {
                    Err(LedgerError::UnknownAccount)
                } else if self.balance(source) < amount {
                    Err(LedgerError::InsufficientFunds)
                } else if decimals != recorded {
                    Err(LedgerError::DecimalsMismatch)
                } else if !self.may_move(authority, source) {
                    Err(LedgerError::Unauthorized)
                } else if source == destination {
                    Ok(self)
                } else {
                    Ok(
                        LedgerView {
                            accounts: with_balance(
                                with_balance(
                                    self.accounts,
                                    source,
                                    (self.balance(source) - amount) as u64,
                                ),
                                destination,
                                (self.balance(destination) + amount) as u64,
                            ),
                            ..self
                        },
                    )
                }
            },
        }
    }

    /// Destroying `amount` units held at `account` on the signature of
    /// `authority`, who states `decimals` for the mint.
    pub open spec fn burn(self, account: AccountId, authority: AccountId, amount: u64, decimals: u8) -> Result<
        LedgerView,
        LedgerError,
    > {
        match self.stage {
            MintStage::Uninitialized { .. } => Err(LedgerError::MintNotInitialized),
            MintStage::Initialized { decimals: recorded, .. } => {
                if !self.has_account(account) {
                    Err(LedgerError::UnknownAccount)
                } else if self.balance(account) < amount {
                    Err(LedgerError::InsufficientFunds)
                } else if decimals != recorded {
                    Err(LedgerError::DecimalsMismatch)
                } else if !self.may_move(authority, account) {
                    Err(LedgerError::Unauthorized)
                } else {
                    Ok(
                        LedgerView {
                            accounts: with_balance(
                                self.accounts,
                                account,
                                (self.balance(account) - amount) as u64,
                            ),
                            supply: (self.supply - amount) as nat,
                            ..self
                        },
                    )
                }
            },
        }
    }
}

/// The state in which an operation leaves the ledger: the new one where it
/// is accepted, the old one where it is refused.
pub open spec fn settled(before: LedgerView, outcome: Result<LedgerView, LedgerError>) -> LedgerView {
    match outcome {
        Ok(after) => after,
        Err(_) => before,
    }
}

/// What an operation reports: nothing where it is accepted, the reason where
/// it is refused.
pub open spec fn verdict(outcome: Result<LedgerView, LedgerError>) -> Result<(), LedgerError> {
    match outcome {
        Ok(_) => Ok(()),
        Err(e) => Err(e),
    }
}

/// Under distinct addresses, the account at a given place is the only one
/// with its address.
pub proof fn lemma_index_unique(accounts: Seq<TokenAccount>, i: int)
    requires
        distinct(accounts),
        0 <= i < accounts.len(),
    ensures
        holds(accounts, accounts[i].address),
        index_of(accounts, accounts[i].address) == i,
{
    let k = index_of(accounts, accounts[i].address);
    assert(accounts[i].address == accounts[i].address);
    if k < i {
        assert(accounts[k].address != accounts[i].address);
    } else if i < k {
        assert(accounts[i].address != accounts[k].address);
    }
}

/// Replacing one account changes the sum by the difference of the balances.
pub proof fn lemma_total_update(accounts: Seq<TokenAccount>, i: int, account: TokenAccount)
    requires
        0 <= i < accounts.len(),
    ensures
        total(accounts.update(i, account)) + accounts[i].balance == total(accounts)
            + account.balance,
        accounts[i].balance <= total(accounts),
    decreases accounts.len(),
{
    let updated = accounts.update(i, account);
    if i == accounts.len() - 1 {
        assert(updated.drop_last() =~= accounts.drop_last());
    } else {
        lemma_total_update(accounts.drop_last(), i, account);
        assert(updated.drop_last() =~= accounts.drop_last().update(i, account));
    }
}

/// Replacing a balance keeps the addresses where they are.
pub proof fn lemma_with_balance(accounts: Seq<TokenAccount>, address: AccountId, balance: u64)
    requires
        distinct(accounts),
        holds(accounts, address),
    ensures
        distinct(with_balance(accounts, address, balance)),
        with_balance(accounts, address, balance).len() == accounts.len(),
        forall|a: AccountId|
            holds(with_balance(accounts, address, balance), a) == holds(accounts, a),
        forall|a: AccountId|
            holds(accounts, a) ==> index_of(with_balance(accounts, address, balance), a)
                == index_of(accounts, a),
        total(with_balance(accounts, address, balance)) + accounts[index_of(
            accounts,
            address,
        )].balance == total(accounts) + balance,
{
    let i = index_of(accounts, address);
    let after = with_balance(accounts, address, balance);
    assert forall|k: int| 0 <= k < accounts.len() implies (#[trigger] after[k]).address
        == accounts[k].address by {}
    assert(distinct(after)) by {
        assert forall|p: int, q: int| 0 <= p < q < after.len() implies (#[trigger] after[p]).address
            != (#[trigger] after[q]).address by {
            assert(accounts[p].address != accounts[q].address);
        }
    }
    assert forall|a: AccountId| holds(after, a) == holds(accounts, a) by {
        if holds(after, a) {
            let k = index_of(after, a);
            assert(accounts[k].address == a);
        }
        if holds(accounts, a) {
            let k = index_of(accounts, a);
            assert(after[k].address == a);
        }
    }
    assert forall|a: AccountId| holds(accounts, a) implies index_of(after, a) == index_of(
        accounts,
        a,
    ) by {
        let k = index_of(accounts, a);
        assert(after[k].address == a);
        lemma_index_unique(after, k);
    }
    lemma_total_update(accounts, i, after[i]);
}

/// One mint and its token accounts, kept by the rules that the token program
/// is expected to enforce. Operations that are refused change nothing.
#[derive(Debug)]
pub struct Ledger {
    stage: MintStage,
    accounts: Vec<TokenAccount>,
    supply: u64,
}

impl View for Ledger {
    type V = LedgerView;

    closed spec fn view(&self) -> LedgerView {
        LedgerView { stage: self.stage, accounts: self.accounts@, supply: self.supply as nat }
    }
}

impl Ledger {
    /// A mint account of `space` bytes that nothing has been written to, and
    /// no token account.
    pub fn new(space: usize) -> (ledger: Ledger)
        ensures
            ledger@ == (LedgerView {
                stage: MintStage::Uninitialized { space, delegate: None },
                accounts: Seq::empty(),
                supply: 0,
            }),
            ledger@.wf(),
    {
        Ledger {
            stage: MintStage::Uninitialized { space, delegate: None },
            accounts: Vec::new(),
            supply: 0,
        }
    }

    /// How far the mint has come.
    pub fn stage(&self) -> (stage: MintStage)
        ensures
            stage == self@.stage,
    {
        self.stage
    }

    /// The number of units in existence.
    pub fn supply(&self) -> (supply: u64)
        ensures
            supply == self@.supply,
    {
        self.supply
    }

    /// The permanent delegate of the mint, if it has one.
    pub fn permanent_delegate(&self) -> (delegate: Option<AccountId>)
        ensures
            delegate == self@.delegate(),
    {
        match self.stage {
            MintStage::Uninitialized { delegate, .. } => delegate,
            MintStage::Initialized { delegate, .. } => delegate,
        }
    }

    /// Where the token account at `address` stands, if there is one.
    fn find(&self, address: &AccountId) -> (place: Option<usize>)
        requires
            self@.wf(),
        ensures
            place is Some == self@.has_account(*address),
            place matches Some(i) ==> i < self.accounts@.len() && i == index_of(
                self.accounts@,
                *address,
            ) && self.accounts@[i as int].address == *address,
    {
        let mut i: usize = 0;
        while i < self.accounts.len()
            invariant
                i <= self.accounts@.len(),
                self@.wf(),
                forall|k: int| 0 <= k < i ==> (#[trigger] self.accounts@[k]).address != *address,
            decreases self.accounts@.len() - i,
        {
            if self.accounts[i].address.is(address) {
                proof {
                    lemma_index_unique(self.accounts@, i as int);
                }
                return Some(i);
            }
            i += 1;
        }
        None
    }

    /// The token account at `address`, if there is one.
    pub fn account(&self, address: &AccountId) -> (account: Option<TokenAccount>)
        requires
            self@.wf(),
        ensures
            account is Some == self@.has_account(*address),
            account matches Some(a) ==> a.address == *address && a.owner == self@.owner(*address)
                && a.balance == self@.balance(*address),
    {
        match self.find(address) {
            Some(i) => Some(self.accounts[i]),
            None => None,
        }
    }

    /// The balance of the token account at `address`, if there is one.
    pub fn balance_of(&self, address: &AccountId) -> (balance: Option<u64>)
        requires
            self@.wf(),
        ensures
            balance is Some == self@.has_account(*address),
            balance matches Some(b) ==> b == self@.balance(*address),
    {
        match self.find(address) {
            Some(i) => Some(self.accounts[i].balance),
            None => None,
        }
    }

    /// Whether a signature of `authority` lets tokens leave the account that
    /// stands at place `i`.
    fn may_move_at(&self, authority: &AccountId, i: usize) -> (r: bool)
        requires
            self@.wf(),
            i < self.accounts@.len(),
        ensures
            r == self@.may_move(*authority, self.accounts@[i as int].address),
    {
        proof {
            lemma_index_unique(self.accounts@, i as int);
        }
        if authority.is(&self.accounts[i].owner) {
            return true;
        }
        match self.permanent_delegate() {
            Some(delegate) => delegate.is(authority),
            None => false,
        }
    }

    /// Replaces the balance of the account that stands at place `i`.
    fn set_balance(&mut self, i: usize, balance: u64)
        requires
            distinct(old(self).accounts@),
            i < old(self).accounts@.len(),
        ensures
            final(self).stage == old(self).stage,
            final(self).supply == old(self).supply,
            final(self).accounts@ == with_balance(
                old(self).accounts@,
                old(self).accounts@[i as int].address,
                balance,
            ),
    {
        proof {
            lemma_index_unique(self.accounts@, i as int);
        }
        let account = self.accounts[i];
        self.accounts.set(i, TokenAccount { address: account.address, owner: account.owner, balance });
    }

    /// Binds `delegate` to the mint as its permanent delegate.
    pub fn initialize_permanent_delegate(&mut self, delegate: &AccountId) -> (r: Result<
        (),
        LedgerError,
    >)
        requires
            old(self)@.wf(),
        ensures
            final(self)@.wf(),
            r == verdict(old(self)@.bind_delegate(*delegate)),
            final(self)@ == settled(old(self)@, old(self)@.bind_delegate(*delegate)),
    {
        match self.stage {
            MintStage::Initialized { .. } => Err(LedgerError::MintAlreadyInitialized),
            MintStage::Uninitialized { space, delegate: bound } => {
                if bound.is_some() {
                    Err(LedgerError::DelegateAlreadyBound)
                } else if space < permanent_delegate_mint_len() {
                    Err(LedgerError::WrongAccountSize)
                } else {
                    self.stage = MintStage::Uninitialized { space, delegate: Some(*delegate) };
                    Ok(())
                }
            },
        }
    }

    /// Writes the base record of the mint.
    pub fn initialize_mint(
        &mut self,
        decimals: u8,
        mint_authority: &AccountId,
        freeze_authority: Option<AccountId>,
    ) -> (r: Result<(), LedgerError>)
        requires
            old(self)@.wf(),
        ensures
            final(self)@.wf(),
            r == verdict(old(self)@.initialize(decimals, *mint_authority, freeze_authority)),
            final(self)@ == settled(
                old(self)@,
                old(self)@.initialize(decimals, *mint_authority, freeze_authority),
            ),
    {
        match self.stage {
            MintStage::Initialized { .. } => Err(LedgerError::MintAlreadyInitialized),
            MintStage::Uninitialized { space, delegate } => {
                let needed = if delegate.is_some() {
                    permanent_delegate_mint_len()
                } else {
                    BASE_MINT_LEN
                };
                if space != needed {
                    Err(LedgerError::WrongAccountSize)
                } else {
                    self.stage = MintStage::Initialized {
                        decimals,
                        mint_authority: *mint_authority,
                        freeze_authority,
                        delegate,
                    };
                    Ok(())
                }
            },
        }
    }

    /// Creates the empty token account of `owner` at `address`.
    pub fn create_account(&mut self, address: &AccountId, owner: &AccountId) -> (r: Result<
        (),
        LedgerError,
    >)
        requires
            old(self)@.wf(),
        ensures
            final(self)@.wf(),
            r == verdict(old(self)@.open_account(*address, *owner)),
            final(self)@ == settled(old(self)@, old(self)@.open_account(*address, *owner)),
    {
        if let MintStage::Uninitialized { .. } = self.stage {
            return Err(LedgerError::MintNotInitialized);
        }
        if self.find(address).is_some() {
            return Err(LedgerError::AccountExists);
        }
        let account = TokenAccount { address: *address, owner: *owner, balance: 0 };
        proof {
            let before = self.accounts@;
            let after = before.push(account);
            assert(after.drop_last() =~= before);
            assert forall|p: int, q: int| 0 <= p < q < after.len() implies (
            #[trigger] after[p]).address != (#[trigger] after[q]).address by {
                if q == before.len() {
                    assert(before[p].address != *address);
                } else {
                    assert(before[p].address != before[q].address);
                }
            }
        }
        self.accounts.push(account);
        Ok(())
    }

    /// Mints `amount` new units to the token account `destination`.
    pub fn mint_to(&mut self, destination: &AccountId, authority: &AccountId, amount: u64) -> (r:
        Result<(), LedgerError>)
        requires
            old(self)@.wf(),
        ensures
            final(self)@.wf(),
            r == verdict(old(self)@.mint(*destination, *authority, amount)),
            final(self)@ == settled(old(self)@, old(self)@.mint(*destination, *authority, amount)),
    {
        let mint_authority = match self.stage {
            MintStage::Uninitialized { .. } => {
                return Err(LedgerError::MintNotInitialized);
            },
            MintStage::Initialized { mint_authority, .. } => mint_authority,
        };
        let place = match self.find(destination) {
            Some(i) => i,
            None => {
                return Err(LedgerError::UnknownAccount);
            },
        };
        if !authority.is(&mint_authority) {
            return Err(LedgerError::Unauthorized);
        }
        if amount > u64::MAX - self.supply {
            return Err(LedgerError::SupplyOverflow);
        }
        proof {
            lemma_total_update(self.accounts@, place as int, self.accounts@[place as int]);
            lemma_with_balance(
                self.accounts@,
                *destination,
                (self.accounts@[place as int].balance + amount) as u64,
            );
        }
        let balance = self.accounts[place].balance + amount;
        self.set_balance(place, balance);
        self.supply = self.supply + amount;
        Ok(())
    }

    /// Moves `amount` units from the token account `source` to the token
    /// account `destination`. The signature of the owner of `source` is
    /// enough, and so is that of the permanent delegate of the mint.
    pub fn transfer_checked(
        &mut self,
        source: &AccountId,
        destination: &AccountId,
        authority: &AccountId,
        amount: u64,
        decimals: u8,
    ) -> (r: Result<(), LedgerError>)
        requires
            old(self)@.wf(),
        ensures
            final(self)@.wf(),
            r == verdict(
                old(self)@.transfer(*source, *destination, *authority, amount, decimals),
            ),
            final(self)@ == settled(
                old(self)@,
                old(self)@.transfer(*source, *destination, *authority, amount, decimals),
            ),
    {
        let recorded = match self.stage {
            MintStage::Uninitialized { .. } => {
                return Err(LedgerError::MintNotInitialized);
            },
            MintStage::Initialized { decimals, .. } => decimals,
        };
        let (from, to) = match (self.find(source), self.find(destination)) {
            (Some(i), Some(j)) => (i, j),
            _ => {
                return Err(LedgerError::UnknownAccount);
            },
        };
        if self.accounts[from].balance < amount {
            return Err(LedgerError::InsufficientFunds);
        }
        if decimals != recorded {
            return Err(LedgerError::DecimalsMismatch);
        }
        if !self.may_move_at(authority, from) {
            return Err(LedgerError::Unauthorized);
        }
        if from == to {
            return Ok(());
        }
        let debited = self.accounts[from].balance - amount;
        proof {
            lemma_with_balance(self.accounts@, *source, debited);
            let halfway = with_balance(self.accounts@, *source, debited);
            lemma_total_update(halfway, to as int, halfway[to as int]);
            lemma_with_balance(
                halfway,
                *destination,
                (self.accounts@[to as int].balance + amount) as u64,
            );
        }
        self.set_balance(from, debited);
        let credited = self.accounts[to].balance + amount;
        self.set_balance(to, credited);
        Ok(())
    }

    /// Destroys `amount` units held by the token account `account`. The
    /// signature of its owner is enough, and so is that of the permanent
    /// delegate of the mint.
    pub fn burn_checked(
        &mut self,
        account: &AccountId,
        authority: &AccountId,
        amount: u64,
        decimals: u8,
    ) -> (r: Result<(), LedgerError>)
        requires
            old(self)@.wf(),
        ensures
            final(self)@.wf(),
            r == verdict(old(self)@.burn(*account, *authority, amount, decimals)),
            final(self)@ == settled(
                old(self)@,
                old(self)@.burn(*account, *authority, amount, decimals),
            ),
    {
        let recorded = match self.stage {
            MintStage::Uninitialized { .. } => {
                return Err(LedgerError::MintNotInitialized);
            },
            MintStage::Initialized { decimals, .. } => decimals,
        };
        let place = match self.find(account) {
            Some(i) => i,
            None => {
                return Err(LedgerError::UnknownAccount);
            },
        };
        if self.accounts[place].balance < amount {
            return Err(LedgerError::InsufficientFunds);
        }
        if decimals != recorded {
            return Err(LedgerError::DecimalsMismatch);
        }
        if !self.may_move_at(authority, place) {
            return Err(LedgerError::Unauthorized);
        }
        let left = self.accounts[place].balance - amount;
        proof {
            lemma_total_update(self.accounts@, place as int, self.accounts@[place as int]);
            lemma_with_balance(self.accounts@, *account, left);
        }
        self.set_balance(place, left);
        self.supply = self.supply - amount;
        Ok(())
    }
}

/// Length of a mint account with the permanent-delegate extension.
fn permanent_delegate_mint_len() -> (len: usize)
    ensures
        len == mint_account_len(seq![MintExtension::PermanentDelegate]),
{
    BASE_ACCOUNT_LEN + ACCOUNT_TYPE_LEN + EXTENSION_HEADER_LEN + PERMANENT_DELEGATE_LEN
}

} // verus!
