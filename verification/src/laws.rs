use crate::account::AccountId;
use crate::bundle::{mint_extensions, BundleView};
use crate::ledger::{
    index_of, lemma_index_unique, lemma_total_update, lemma_with_balance, settled, total, with_balance, LedgerError,
    LedgerView, MintStage,
};
use crate::signing::signing_verdict;
use crate::token_program::mint_account_len;
use vstd::prelude::*;

verus! {

/// The permanent delegate may move tokens out of every account of its mint.
/// Nothing is asked of the owner of `source`: whoever owns it, and whether
/// or not that is the delegate, a transfer that the delegate signs is
/// accepted as long as both accounts exist, the decimals stated are the
/// mint's and `source` holds the amount.
pub proof fn delegate_may_transfer(
    ledger: LedgerView,
    source: AccountId,
    destination: AccountId,
    delegate: AccountId,
    amount: u64,
    decimals: u8,
)
    requires
        ledger.stage matches MintStage::Initialized { decimals: recorded, delegate: bound, .. }
            && recorded == decimals && bound == Some(delegate),
        ledger.has_account(source),
        ledger.has_account(destination),
        amount <= ledger.balance(source),
    ensures
        ledger.transfer(source, destination, delegate, amount, decimals) is Ok,
{
}

/// The permanent delegate may burn tokens held in every account of its mint.
/// Nothing is asked of the owner of `account`.
pub proof fn delegate_may_burn(
    ledger: LedgerView,
    account: AccountId,
    delegate: AccountId,
    amount: u64,
    decimals: u8,
)
    requires
        ledger.stage matches MintStage::Initialized { decimals: recorded, delegate: bound, .. }
            && recorded == decimals && bound == Some(delegate),
        ledger.has_account(account),
        amount <= ledger.balance(account),
    ensures
        ledger.burn(account, delegate, amount, decimals) is Ok,
{
}

/// An authority that is neither the owner of an account nor the permanent
/// delegate of the mint moves nothing out of it.
pub proof fn stranger_moves_nothing(
    ledger: LedgerView,
    source: AccountId,
    destination: AccountId,
    stranger: AccountId,
    amount: u64,
    decimals: u8,
)
    requires
        ledger.has_account(source),
        stranger != ledger.owner(source),
        ledger.delegate() != Some(stranger),
    ensures
        ledger.transfer(source, destination, stranger, amount, decimals) is Err,
        ledger.burn(source, stranger, amount, decimals) is Err,
{
}

/// A transfer that states other decimals than the mint's is refused, and
/// every balance stays as it was.
pub proof fn transfer_with_wrong_decimals_refused(
    ledger: LedgerView,
    source: AccountId,
    destination: AccountId,
    authority: AccountId,
    amount: u64,
    decimals: u8,
)
    requires
        ledger.stage matches MintStage::Initialized { decimals: recorded, .. } && recorded
            != decimals,
    ensures
        ledger.transfer(source, destination, authority, amount, decimals) is Err,
        settled(ledger, ledger.transfer(source, destination, authority, amount, decimals))
            == ledger,
{
}

/// A burn that states other decimals than the mint's is refused, and every
/// balance stays as it was.
pub proof fn burn_with_wrong_decimals_refused(
    ledger: LedgerView,
    account: AccountId,
    authority: AccountId,
    amount: u64,
    decimals: u8,
)
    requires
        ledger.stage matches MintStage::Initialized { decimals: recorded, .. } && recorded
            != decimals,
    ensures
        ledger.burn(account, authority, amount, decimals) is Err,
        settled(ledger, ledger.burn(account, authority, amount, decimals)) == ledger,
{
}

/// An accepted transfer between two different accounts takes the amount from
/// the source, adds it to the destination, leaves every other account alone
/// and keeps both the supply and the sum of all balances.
pub proof fn transfer_conserves(
    ledger: LedgerView,
    source: AccountId,
    destination: AccountId,
    authority: AccountId,
    amount: u64,
    decimals: u8,
)
    requires
        ledger.wf(),
        source != destination,
        ledger.transfer(source, destination, authority, amount, decimals) is Ok,
    ensures
        ({
            let after = ledger.transfer(source, destination, authority, amount, decimals)->Ok_0;
            &&& after.wf()
            &&& after.balance(source) == ledger.balance(source) - amount
            &&& after.balance(destination) == ledger.balance(destination) + amount
            &&& after.supply == ledger.supply
            &&& total(after.accounts) == total(ledger.accounts)
            &&& forall|other: AccountId|
                after.has_account(other) == ledger.has_account(other)
            &&& forall|other: AccountId|
                ledger.has_account(other) && other != source && other != destination
                    ==> after.balance(other) == ledger.balance(other)
            &&& forall|other: AccountId|
                ledger.has_account(other) ==> after.owner(other) == ledger.owner(other)
        }),
{
    let after = ledger.transfer(source, destination, authority, amount, decimals)->Ok_0;
    let debited = (ledger.balance(source) - amount) as u64;
    let halfway = with_balance(ledger.accounts, source, debited);
    let i = index_of(ledger.accounts, source);
    let j = index_of(ledger.accounts, destination);
    lemma_with_balance(ledger.accounts, source, debited);
    assert(halfway[j].balance == ledger.accounts[j].balance);
    let credited = (ledger.balance(destination) + amount) as u64;
    lemma_total_update(halfway, j, halfway[j]);
    lemma_with_balance(halfway, destination, credited);
    assert(after.accounts == with_balance(halfway, destination, credited));
    assert forall|other: AccountId|
        ledger.has_account(other) && other != source && other != destination implies after.balance(
        other,
    ) == ledger.balance(other) by {
        let k = index_of(ledger.accounts, other);
        assert(ledger.accounts[k].address == other);
    }
    assert forall|other: AccountId| ledger.has_account(other) implies after.owner(other)
        == ledger.owner(other) by {
        let k = index_of(ledger.accounts, other);
        assert(ledger.accounts[k].address == other);
    }
}

/// An accepted transfer from an account to itself changes nothing.
pub proof fn transfer_to_self_changes_nothing(
    ledger: LedgerView,
    account: AccountId,
    authority: AccountId,
    amount: u64,
    decimals: u8,
)
    ensures
        settled(ledger, ledger.transfer(account, account, authority, amount, decimals)) == ledger,
{
}

/// An accepted burn takes the amount from the account and from the supply,
/// and leaves every other account alone.
pub proof fn burn_decreases_balance_and_supply(
    ledger: LedgerView,
    account: AccountId,
    authority: AccountId,
    amount: u64,
    decimals: u8,
)
    requires
        ledger.wf(),
        ledger.burn(account, authority, amount, decimals) is Ok,
    ensures
        ({
            let after = ledger.burn(account, authority, amount, decimals)->Ok_0;
            &&& after.wf()
            &&& after.balance(account) == ledger.balance(account) - amount
            &&& after.supply == ledger.supply - amount
            &&& forall|other: AccountId|
                after.has_account(other) == ledger.has_account(other)
            &&& forall|other: AccountId|
                ledger.has_account(other) && other != account ==> after.balance(other)
                    == ledger.balance(other)
            &&& forall|other: AccountId|
                ledger.has_account(other) ==> after.owner(other) == ledger.owner(other)
        }),
{
    let after = ledger.burn(account, authority, amount, decimals)->Ok_0;
    let left = (ledger.balance(account) - amount) as u64;
    let i = index_of(ledger.accounts, account);
    lemma_total_update(ledger.accounts, i, ledger.accounts[i]);
    lemma_with_balance(ledger.accounts, account, left);
    assert forall|other: AccountId|
        ledger.has_account(other) && other != account implies after.balance(other)
        == ledger.balance(other) by {
        let k = index_of(ledger.accounts, other);
        assert(ledger.accounts[k].address == other);
    }
    assert forall|other: AccountId| ledger.has_account(other) implies after.owner(other)
        == ledger.owner(other) by {
        let k = index_of(ledger.accounts, other);
        assert(ledger.accounts[k].address == other);
    }
}

/// A burn of more than the account holds is refused as a whole: nothing is
/// burnt, and every balance and the supply stay as they were.
pub proof fn burn_beyond_balance_refused(
    ledger: LedgerView,
    account: AccountId,
    authority: AccountId,
    amount: u64,
    decimals: u8,
)
    requires
        amount > ledger.balance(account),
    ensures
        ledger.burn(account, authority, amount, decimals) is Err,
        settled(ledger, ledger.burn(account, authority, amount, decimals)) == ledger,
{
}

/// An accepted mint adds the amount to the destination and to the supply,
/// and leaves every other account alone.
pub proof fn mint_increases_balance_and_supply(
    ledger: LedgerView,
    destination: AccountId,
    authority: AccountId,
    amount: u64,
)
    requires
        ledger.wf(),
        ledger.mint(destination, authority, amount) is Ok,
    ensures
        ({
            let after = ledger.mint(destination, authority, amount)->Ok_0;
            &&& after.wf()
            &&& after.balance(destination) == ledger.balance(destination) + amount
            &&& after.supply == ledger.supply + amount
            &&& forall|other: AccountId|
                after.has_account(other) == ledger.has_account(other)
            &&& forall|other: AccountId|
                ledger.has_account(other) && other != destination ==> after.balance(other)
                    == ledger.balance(other)
            &&& forall|other: AccountId|
                ledger.has_account(other) ==> after.owner(other) == ledger.owner(other)
        }),
{
    let after = ledger.mint(destination, authority, amount)->Ok_0;
    let i = index_of(ledger.accounts, destination);
    lemma_total_update(ledger.accounts, i, ledger.accounts[i]);
    lemma_with_balance(
        ledger.accounts,
        destination,
        (ledger.balance(destination) + amount) as u64,
    );
    assert forall|other: AccountId|
        ledger.has_account(other) && other != destination implies after.balance(other)
        == ledger.balance(other) by {
        let k = index_of(ledger.accounts, other);
        assert(ledger.accounts[k].address == other);
    }
    assert forall|other: AccountId| ledger.has_account(other) implies after.owner(other)
        == ledger.owner(other) by {
        let k = index_of(ledger.accounts, other);
        assert(ledger.accounts[k].address == other);
    }
}

/// A token account that has been created is empty and belongs to its owner,
/// and every other account stays as it was.
pub proof fn new_account_is_empty(ledger: LedgerView, address: AccountId, owner: AccountId)
    requires
        ledger.wf(),
        ledger.open_account(address, owner) is Ok,
    ensures
        ({
            let after = ledger.open_account(address, owner)->Ok_0;
            &&& after.wf()
            &&& after.has_account(address)
            &&& after.balance(address) == 0
            &&& after.owner(address) == owner
            &&& after.supply == ledger.supply
            &&& forall|other: AccountId|
                after.has_account(other) == (ledger.has_account(other) || other == address)
            &&& forall|other: AccountId|
                ledger.has_account(other) ==> after.balance(other) == ledger.balance(other)
                    && after.owner(other) == ledger.owner(other)
        }),
{
    let after = ledger.open_account(address, owner)->Ok_0;
    let n = ledger.accounts.len() as int;
    assert(after.accounts.drop_last() =~= ledger.accounts);
    assert(after.accounts[n].address == address);
    assert forall|p: int, q: int| 0 <= p < q < after.accounts.len() implies (
    #[trigger] after.accounts[p]).address != (#[trigger] after.accounts[q]).address by {
        if q == n {
            assert(ledger.accounts[p].address != address);
        } else {
            assert(ledger.accounts[p].address != ledger.accounts[q].address);
        }
    }
    lemma_index_unique(after.accounts, n);
    assert forall|other: AccountId|
        after.has_account(other) == (ledger.has_account(other) || other == address) by {
        if after.has_account(other) {
            let k = index_of(after.accounts, other);
            if k < n {
                assert(ledger.accounts[k].address == other);
            }
        }
        if ledger.has_account(other) {
            let k = index_of(ledger.accounts, other);
            assert(after.accounts[k].address == other);
        }
    }
    assert forall|other: AccountId| ledger.has_account(other) implies after.balance(other)
        == ledger.balance(other) && after.owner(other) == ledger.owner(other) by {
        let k = index_of(ledger.accounts, other);
        assert(after.accounts[k].address == other);
        lemma_index_unique(after.accounts, k);
    }
}

/// Once the base record of a mint is written, no permanent delegate can be
/// bound to it any more: the extension comes strictly before the base record.
pub proof fn base_record_closes_extensions(
    ledger: LedgerView,
    decimals: u8,
    mint_authority: AccountId,
    freeze_authority: Option<AccountId>,
    delegate: AccountId,
)
    requires
        ledger.initialize(decimals, mint_authority, freeze_authority) is Ok,
    ensures
        ledger.initialize(decimals, mint_authority, freeze_authority)->Ok_0.bind_delegate(
            delegate,
        ) == Err::<LedgerView, LedgerError>(LedgerError::MintAlreadyInitialized),
{
}

/// On a mint account allocated for the permanent-delegate extension, the
/// base record is refused while the extension is missing, and accepted once
/// it is there; the delegate bound before is then the mint's for good.
pub proof fn extension_then_base_record(
    ledger: LedgerView,
    decimals: u8,
    mint_authority: AccountId,
    freeze_authority: Option<AccountId>,
    delegate: AccountId,
)
    requires
        ledger.stage == (MintStage::Uninitialized {
            space: mint_account_len(mint_extensions()) as usize,
            delegate: None,
        }),
    ensures
        ledger.initialize(decimals, mint_authority, freeze_authority) is Err,
        ledger.bind_delegate(delegate) is Ok,
        ledger.bind_delegate(delegate)->Ok_0.initialize(
            decimals,
            mint_authority,
            freeze_authority,
        ) is Ok,
        ledger.bind_delegate(delegate)->Ok_0.initialize(
            decimals,
            mint_authority,
            freeze_authority,
        )->Ok_0.stage == (MintStage::Initialized {
            decimals,
            mint_authority,
            freeze_authority,
            delegate: Some(delegate),
        }),
{
}

/// An initialized mint stays as it is: no operation changes its decimals,
/// its authorities or its permanent delegate, and none takes it back to the
/// uninitialized stage.
pub proof fn initialized_mint_is_fixed(
    ledger: LedgerView,
    a: AccountId,
    b: AccountId,
    authority: AccountId,
    amount: u64,
    decimals: u8,
    freeze_authority: Option<AccountId>,
)
    requires
        ledger.stage is Initialized,
    ensures
        settled(ledger, ledger.bind_delegate(a)).stage == ledger.stage,
        settled(ledger, ledger.initialize(decimals, authority, freeze_authority)).stage
            == ledger.stage,
        settled(ledger, ledger.open_account(a, b)).stage == ledger.stage,
        settled(ledger, ledger.mint(a, authority, amount)).stage == ledger.stage,
        settled(ledger, ledger.transfer(a, b, authority, amount, decimals)).stage == ledger.stage,
        settled(ledger, ledger.burn(a, authority, amount, decimals)).stage == ledger.stage,
{
}

/// A bundle that fits one transaction and lists exactly the accounts that
/// must sign is signed whenever the credentials at hand are those of its
/// signers, in order.
pub proof fn signable_bundle_is_signed(bundle: BundleView, signing: Seq<AccountId>)
    requires
        bundle.signable(),
        signing == bundle.signers,
    ensures
        signing_verdict(bundle, signing) is Ok,
{
}

/// A bundle is never signed by credentials that leave out an account that
/// must sign, nor by credentials of an account that need not.
pub proof fn signed_bundle_has_the_right_signers(bundle: BundleView, signing: Seq<AccountId>)
    requires
        signing_verdict(bundle, signing) is Ok,
    ensures
        forall|id: AccountId| signing.contains(id) <==> bundle.must_sign(id),
        signing.contains(bundle.fee_payer),
{
    assert(bundle.must_sign(bundle.fee_payer));
}

} // verus!
