//! The token contract: the ledger, its entry points and its queries.
use vstd::prelude::*;
use near_contract_standards::fungible_token::FungibleToken;
use crate::balances::{
    lemma_entry_le_sum, lemma_pair_le_sum, lemma_sum_insert_new, lemma_sum_remove,
    lemma_sum_update, sum_balances,
};
use crate::error::LedgerError;
use crate::metadata::{Metadata, metadata_valid, DATA_IMAGE_SVG_NEAR_ICON, FT_METADATA_SPEC};
use crate::storage::{
    bounds_for_entry, reconcile_storage, storage_cost, Settlement, StorageBalance,
    StorageBalanceBounds,
};
use crate::token::{
    is_account_id, token_account_bytes, token_balance, token_balances, token_deposit,
    token_entry_bytes, token_new, token_register, token_remove, token_supply,
    token_total_supply, token_withdraw, valid_account_id, claim_storage, StorageClaim,
    TOKEN_PREFIX,
};

verus! {


/// The memo of the mint that creates the initial supply.
pub const INITIAL_MINT_MEMO: &'static str = "Initial tokens supply is minted";

/// A change in balances, for the runtime to publish once the call commits.
#[derive(Debug, Clone, PartialEq, Eq)]
pub enum FtEvent {
    Mint { owner_id: String, amount: u128, memo: Option<String> },
    Transfer { old_owner_id: String, new_owner_id: String, amount: u128, memo: Option<String> },
    Burn { owner_id: String, amount: u128, memo: Option<String> },
}

/// What the runtime tells an entry point: who called it and what they paid.
#[derive(Debug, Clone, PartialEq, Eq)]
pub struct CallContext {
    pub predecessor_id: String,
    pub attached: u128,
}

/// What a successful entry point leaves for the runtime to carry out: how the
/// attached payment settles, and the event to publish.
#[derive(Debug, Clone, PartialEq, Eq)]
pub struct Receipt {
    pub settlement: Settlement,
    pub event: Option<FtEvent>,
}

/// The view of an optional memo.
pub open spec fn memo_view(m: Option<String>) -> Option<Seq<char>> {
    match m {
        Some(s) => Some(s@),
        None => None,
    }
}

/// The account a storage deposit is for: the one named, else the caller.
pub open spec fn deposit_target(ctx: CallContext, account_id: Option<String>) -> String {
    match account_id {
        Some(a) => a,
        None => ctx.predecessor_id,
    }
}

/// A settlement that keeps nothing, returns the whole payment and releases nothing.
pub open spec fn untouched(attached: u128) -> Settlement {
    Settlement { charged: 0, refund: attached, released: 0 }
}

/// The token contract: a ledger of balances with its total supply, and the
/// token's descriptor.
pub struct Contract {
    token: FungibleToken,
    metadata: Metadata,
}

impl Contract {
    /// Balances of the registered accounts.
    pub closed spec fn balances(&self) -> Map<Seq<char>, u128> {
        token_balances(self.token)
    }

    /// The recorded total supply.
    pub closed spec fn total(&self) -> u128 {
        token_supply(self.token)
    }

    /// The storage, in bytes, that one account entry occupies.
    pub closed spec fn entry_bytes(&self) -> u64 {
        token_entry_bytes(self.token)
    }

    /// The token's descriptor.
    pub closed spec fn meta(&self) -> Metadata {
        self.metadata
    }

    /// The ledger is finite, holds only well-formed account ids, its balances
    /// sum to the total supply, and its descriptor is valid.
    pub closed spec fn wf(&self) -> bool {
        &&& self.balances().dom().finite()
        &&& forall|k: Seq<char>| #[trigger] self.balances().contains_key(k) ==> is_account_id(k)
        &&& sum_balances(self.balances()) == self.total() as int
        &&& metadata_valid(self.meta())
    }

    pub open spec fn registered(&self, a: Seq<char>) -> bool {
        self.balances().contains_key(a)
    }

    /// The balance of an account; an unregistered one holds nothing.
    pub open spec fn balance(&self, a: Seq<char>) -> u128 {
        if self.registered(a) {
            self.balances()[a]
        } else {
            0
        }
    }

    /// The deposit that pays for one account entry.
    pub open spec fn min_deposit(&self) -> int {
        storage_cost(self.entry_bytes() as int)
    }

    /// Why a transfer would be refused, checked in this order; `None` if it
    /// goes through.
    pub open spec fn transfer_refusal(&self, sender: String, receiver: String, amount: u128) -> Option<
        LedgerError,
    > {
        if sender@ == receiver@ {
            Some(LedgerError::SelfTransfer)
        } else if amount == 0 {
            Some(LedgerError::ZeroAmount)
        } else if !self.registered(sender@) {
            Some(LedgerError::AccountNotRegistered(sender))
        } else if !self.registered(receiver@) {
            Some(LedgerError::AccountNotRegistered(receiver))
        } else if amount > self.balance(sender@) {
            Some(LedgerError::InsufficientBalance)
        } else {
            None
        }
    }

    /// The balances after a transfer that goes through.
    pub open spec fn transferred(&self, sender: Seq<char>, receiver: Seq<char>, amount: u128) -> Map<
        Seq<char>,
        u128,
    > {
        self.balances().insert(sender, (self.balance(sender) - amount) as u128).insert(
            receiver,
            (self.balance(receiver) + amount) as u128,
        )
    }

    /// Why a mint would be refused; `None` if it goes through.
    pub open spec fn mint_refusal(&self, account: String, amount: u128) -> Option<LedgerError> {
        if !self.registered(account@) {
            Some(LedgerError::AccountNotRegistered(account))
        } else if self.total() + amount > u128::MAX {
            Some(LedgerError::BalanceOverflow)
        } else {
            None
        }
    }

    /// Why a burn would be refused; `None` if it goes through.
    pub open spec fn burn_refusal(&self, account: String, amount: u128) -> Option<LedgerError> {
        if !self.registered(account@) {
            Some(LedgerError::AccountNotRegistered(account))
        } else if amount > self.balance(account@) {
            Some(LedgerError::InsufficientBalance)
        } else {
            None
        }
    }

    fn lookup(&self, account_id: &String) -> (r: Option<u128>)
        requires
            self.wf(),
        ensures
            r == (if self.registered(account_id@) {
                Some(self.balances()[account_id@])
            } else {
                None::<u128>
            }),
    {
        if valid_account_id(account_id) {
            token_balance(&self.token, account_id)
        } else {
            None
        }
    }
}

impl Contract {
    /// Creates the contract: registers `owner_id` and mints `total_supply` to it.
    /// The descriptor and the owner id are checked first, so a refused call
    /// marks nothing; then the contract's storage is claimed, and where a
    /// contract was made over it before, the call fails with
    /// `AlreadyInitialized`.
    pub fn new(owner_id: String, total_supply: u128, metadata: Metadata) -> (r: Result<
        (Contract, FtEvent),
        LedgerError,
    >)
        ensures
            !metadata_valid(metadata) ==> r is Err && r->Err_0 == LedgerError::InvalidMetadata,
            metadata_valid(metadata) && !is_account_id(owner_id@) ==> r is Err && r->Err_0
                == LedgerError::InvalidAccountId,
            metadata_valid(metadata) && is_account_id(owner_id@) ==> r is Ok || r->Err_0
                == LedgerError::AlreadyInitialized,
            r is Ok ==> Self::made(r->Ok_0.0, r->Ok_0.1, owner_id, total_supply, metadata),
    {
        if !metadata.is_valid() {
            return Err(LedgerError::InvalidMetadata);
        }
        if !valid_account_id(&owner_id) {
            return Err(LedgerError::InvalidAccountId);
        }
        Self::new_on_claim(claim_storage(), owner_id, total_supply, metadata)
    }

    /// What a newly made contract and its event are: the owner holds the
    /// whole supply, the descriptor is the one given, and the event is the
    /// initial mint.
    pub open spec fn made(
        c: Contract,
        event: FtEvent,
        owner_id: String,
        total_supply: u128,
        metadata: Metadata,
    ) -> bool {
        &&& c.wf()
        &&& c.balances() == Map::empty().insert(owner_id@, total_supply)
        &&& c.total() == total_supply
        &&& c.meta() == metadata
        &&& event is Mint
        &&& event->Mint_owner_id == owner_id
        &&& event->Mint_amount == total_supply
        &&& memo_view(event->Mint_memo) == Some(INITIAL_MINT_MEMO@)
    }

    /// Creates the contract on a storage claim: it succeeds exactly where the
    /// descriptor and the owner id are valid and the claim is fresh.
    pub fn new_on_claim(
        claim: StorageClaim,
        owner_id: String,
        total_supply: u128,
        metadata: Metadata,
    ) -> (r: Result<(Contract, FtEvent), LedgerError>)
        ensures
            !metadata_valid(metadata) ==> r is Err && r->Err_0 == LedgerError::InvalidMetadata,
            metadata_valid(metadata) && !is_account_id(owner_id@) ==> r is Err && r->Err_0
                == LedgerError::InvalidAccountId,
            metadata_valid(metadata) && is_account_id(owner_id@) ==> (r is Ok <==> claim.is_fresh()),
            metadata_valid(metadata) && is_account_id(owner_id@) && !claim.is_fresh() ==> r is Err
                && r->Err_0 == LedgerError::AlreadyInitialized,
            r is Ok ==> Self::made(r->Ok_0.0, r->Ok_0.1, owner_id, total_supply, metadata),
    {
        if !metadata.is_valid() {
            return Err(LedgerError::InvalidMetadata);
        }
        if !valid_account_id(&owner_id) {
            return Err(LedgerError::InvalidAccountId);
        }
        if !claim.fresh() {
            return Err(LedgerError::AlreadyInitialized);
        }
        let token = token_new(claim, TOKEN_PREFIX);
        Ok(Self::from_fresh_token(token, owner_id, total_supply, metadata))
    }

    /// Builds the contract over a token that holds nothing: registers
    /// `owner_id`, mints `total_supply` to it, and returns the mint event.
    pub fn from_fresh_token(
        token: FungibleToken,
        owner_id: String,
        total_supply: u128,
        metadata: Metadata,
    ) -> (r: (Contract, FtEvent))
        requires
            token_balances(token).dom() == Set::<Seq<char>>::empty(),
            token_supply(token) == 0,
            is_account_id(owner_id@),
            metadata_valid(metadata),
        ensures
            Self::made(r.0, r.1, owner_id, total_supply, metadata),
    {
        let mut token = token;
        let ghost m0 = token_balances(token);
        token_register(&mut token, &owner_id);
        let ghost m1 = token_balances(token);
        proof {
            assert(m0.dom().finite());
            assert(sum_balances(m0) == 0);
            lemma_sum_insert_new(m0, owner_id@, 0);
        }
        token_deposit(&mut token, &owner_id, total_supply);
        proof {
            lemma_sum_update(m1, owner_id@, total_supply);
            assert(token_balances(token) =~= Map::empty().insert(owner_id@, total_supply));
        }
        let event = FtEvent::Mint {
            owner_id: owner_id.clone(),
            amount: total_supply,
            memo: Some(String::from_str(INITIAL_MINT_MEMO)),
        };
        (Contract { token, metadata }, event)
    }

    /// Creates the contract with the example token's descriptor.
    pub fn new_default_meta(owner_id: String, total_supply: u128) -> (r: Result<
        (Contract, FtEvent),
        LedgerError,
    >)
        ensures
            !is_account_id(owner_id@) ==> r is Err && r->Err_0 == LedgerError::InvalidAccountId,
            is_account_id(owner_id@) ==> r is Ok || r->Err_0 == LedgerError::AlreadyInitialized,
            r is Ok ==> Self::made(r->Ok_0.0, r->Ok_0.1, owner_id, total_supply, r->Ok_0.0.meta()),
            r is Ok ==> r->Ok_0.0.meta().name@ == "Example NEAR fungible token"@,
            r is Ok ==> r->Ok_0.0.meta().symbol@ == "EXAMPLE"@,
            r is Ok ==> r->Ok_0.0.meta().decimals == 24,
            r is Ok ==> r->Ok_0.0.meta().spec@ == FT_METADATA_SPEC@,
            r is Ok ==> r->Ok_0.0.meta().icon is Some && r->Ok_0.0.meta().icon->Some_0@
                == DATA_IMAGE_SVG_NEAR_ICON@,
            r is Ok ==> r->Ok_0.0.meta().reference is None,
            r is Ok ==> r->Ok_0.0.meta().reference_hash is None,
    {
        Self::new(owner_id, total_supply, Metadata::example())
    }

    /// Moves `amount` from `sender_id` to `receiver_id`. The two balances
    /// change together or not at all, and the total supply stays.
    pub fn transfer(
        &mut self,
        sender_id: &String,
        receiver_id: &String,
        amount: u128,
        memo: Option<String>,
    ) -> (r: Result<FtEvent, LedgerError>)
        requires
            old(self).wf(),
        ensures
            final(self).wf(),
            final(self).entry_bytes() == old(self).entry_bytes(),
            final(self).meta() == old(self).meta(),
            r is Err <==> old(self).transfer_refusal(*sender_id, *receiver_id, amount) is Some,
            r is Err ==> r->Err_0 == old(self).transfer_refusal(
                *sender_id,
                *receiver_id,
                amount,
            ).unwrap(),
            r is Err ==> *final(self) == *old(self),
            sender_id@ == receiver_id@ ==> r is Err && r->Err_0 == LedgerError::SelfTransfer,
            sender_id@ != receiver_id@ && amount == 0 ==> r is Err && r->Err_0
                == LedgerError::ZeroAmount,
            r is Ok ==> final(self).balances() == old(self).transferred(
                sender_id@,
                receiver_id@,
                amount,
            ),
            r is Ok ==> final(self).balance(sender_id@) == old(self).balance(sender_id@) - amount,
            r is Ok ==> final(self).balance(receiver_id@) == old(self).balance(receiver_id@)
                + amount,
            r is Ok ==> final(self).total() == old(self).total(),
            r is Ok ==> r->Ok_0 == (FtEvent::Transfer {
                old_owner_id: *sender_id,
                new_owner_id: *receiver_id,
                amount: amount,
                memo: memo,
            }),
    {
        if *sender_id == *receiver_id {
            return Err(LedgerError::SelfTransfer);
        }
        if amount == 0 {
            return Err(LedgerError::ZeroAmount);
        }
        let sender_balance = match self.lookup(sender_id) {
            Some(b) => b,
            None => return Err(LedgerError::AccountNotRegistered(sender_id.clone())),
        };
        if self.lookup(receiver_id).is_none() {
            return Err(LedgerError::AccountNotRegistered(receiver_id.clone()));
        }
        if amount > sender_balance {
            return Err(LedgerError::InsufficientBalance);
        }
        let ghost m = self.balances();
        proof {
            lemma_pair_le_sum(m, sender_id@, receiver_id@);
            let m1 = m.insert(sender_id@, (m[sender_id@] - amount) as u128);
            lemma_sum_update(m, sender_id@, (m[sender_id@] - amount) as u128);
            lemma_sum_update(m1, receiver_id@, (m[receiver_id@] + amount) as u128);
        }
        token_withdraw(&mut self.token, sender_id, amount);
        token_deposit(&mut self.token, receiver_id, amount);
        Ok(FtEvent::Transfer {
            old_owner_id: sender_id.clone(),
            new_owner_id: receiver_id.clone(),
            amount,
            memo,
        })
    }

    /// Mints `amount` to a registered account, raising its balance and the
    /// total supply together.
    pub fn deposit(&mut self, account_id: &String, amount: u128, memo: Option<String>) -> (r:
        Result<FtEvent, LedgerError>)
        requires
            old(self).wf(),
        ensures
            final(self).wf(),
            final(self).entry_bytes() == old(self).entry_bytes(),
            final(self).meta() == old(self).meta(),
            r is Err <==> old(self).mint_refusal(*account_id, amount) is Some,
            r is Err ==> r->Err_0 == old(self).mint_refusal(*account_id, amount).unwrap(),
            r is Err ==> *final(self) == *old(self),
            old(self).registered(account_id@) ==> (r is Ok <==> old(self).total() + amount
                <= u128::MAX),
            r is Ok ==> final(self).balances() == old(self).balances().insert(
                account_id@,
                (old(self).balance(account_id@) + amount) as u128,
            ),
            r is Ok ==> final(self).total() == old(self).total() + amount,
            r is Ok ==> r->Ok_0 == (FtEvent::Mint {
                owner_id: *account_id,
                amount: amount,
                memo: memo,
            }),
    {
        let balance = match self.lookup(account_id) {
            Some(b) => b,
            None => return Err(LedgerError::AccountNotRegistered(account_id.clone())),
        };
        let total = token_total_supply(&self.token);
        if amount > u128::MAX - total {
            return Err(LedgerError::BalanceOverflow);
        }
        let ghost m = self.balances();
        proof {
            lemma_entry_le_sum(m, account_id@);
            lemma_sum_update(m, account_id@, (balance + amount) as u128);
        }
        token_deposit(&mut self.token, account_id, amount);
        Ok(FtEvent::Mint { owner_id: account_id.clone(), amount, memo })
    }

    /// Burns `amount` from a registered account, lowering its balance and the
    /// total supply together.
    pub fn withdraw(&mut self, account_id: &String, amount: u128, memo: Option<String>) -> (r:
        Result<FtEvent, LedgerError>)
        requires
            old(self).wf(),
        ensures
            final(self).wf(),
            final(self).entry_bytes() == old(self).entry_bytes(),
            final(self).meta() == old(self).meta(),
            r is Err <==> old(self).burn_refusal(*account_id, amount) is Some,
            r is Err ==> r->Err_0 == old(self).burn_refusal(*account_id, amount).unwrap(),
            r is Err ==> *final(self) == *old(self),
            r is Ok ==> final(self).balances() == old(self).balances().insert(
                account_id@,
                (old(self).balance(account_id@) - amount) as u128,
            ),
            r is Ok ==> final(self).total() == old(self).total() - amount,
            r is Ok ==> r->Ok_0 == (FtEvent::Burn {
                owner_id: *account_id,
                amount: amount,
                memo: memo,
            }),
    {
        let balance = match self.lookup(account_id) {
            Some(b) => b,
            None => return Err(LedgerError::AccountNotRegistered(account_id.clone())),
        };
        if amount > balance {
            return Err(LedgerError::InsufficientBalance);
        }
        let ghost m = self.balances();
        proof {
            lemma_entry_le_sum(m, account_id@);
            lemma_sum_update(m, account_id@, (balance - amount) as u128);
        }
        token_withdraw(&mut self.token, account_id, amount);
        Ok(FtEvent::Burn { owner_id: account_id.clone(), amount, memo })
    }
}

impl Contract {
    /// The total supply.
    pub fn ft_total_supply(&self) -> (r: u128)
        ensures
            r == self.total(),
    {
        token_total_supply(&self.token)
    }

    /// The balance of an account; zero for one that is not registered.
    pub fn ft_balance_of(&self, account_id: &String) -> (r: u128)
        requires
            self.wf(),
        ensures
            r == self.balance(account_id@),
    {
        match self.lookup(account_id) {
            Some(b) => b,
            None => 0,
        }
    }

    /// The token's descriptor.
    pub fn ft_metadata(&self) -> (r: &Metadata)
        ensures
            *r == self.meta(),
    {
        &self.metadata
    }

    /// The deposit a registration needs: exactly the cost of one account entry.
    pub fn storage_balance_bounds(&self) -> (r: StorageBalanceBounds)
        ensures
            r.min == self.min_deposit(),
            r.max == Some(r.min),
    {
        bounds_for_entry(token_account_bytes(&self.token))
    }

    /// The storage a registered account holds; `None` for any other.
    pub fn storage_balance_of(&self, account_id: &String) -> (r: Option<StorageBalance>)
        requires
            self.wf(),
        ensures
            r is Some <==> self.registered(account_id@),
            r is Some ==> r->Some_0.total == self.min_deposit(),
            r is Some ==> r->Some_0.available == 0,
    {
        if self.lookup(account_id).is_some() {
            let bounds = self.storage_balance_bounds();
            Some(StorageBalance { total: bounds.min, available: 0 })
        } else {
            None
        }
    }

    /// Why a storage deposit would be refused; `None` if it goes through.
    pub open spec fn deposit_refusal(&self, target: Seq<char>, attached: u128) -> Option<
        LedgerError,
    > {
        if self.registered(target) {
            None
        } else if !is_account_id(target) {
            Some(LedgerError::InvalidAccountId)
        } else if attached < self.min_deposit() {
            Some(LedgerError::DepositOutOfBounds)
        } else {
            None
        }
    }

    /// Registers `account_id`, or the caller, paying for its entry from the
    /// attached payment and returning the rest. An account that is already
    /// registered stays as it is and gets the whole payment back.
    /// The registration-only flag changes nothing: no account holds more
    /// storage than its one entry.
    pub fn storage_deposit(
        &mut self,
        ctx: &CallContext,
        account_id: Option<String>,
        _registration_only: Option<bool>,
    ) -> (r: Result<Receipt, LedgerError>)
        requires
            old(self).wf(),
        ensures
            final(self).wf(),
            final(self).entry_bytes() == old(self).entry_bytes(),
            final(self).meta() == old(self).meta(),
            final(self).total() == old(self).total(),
            r is Err <==> old(self).deposit_refusal(
                deposit_target(*ctx, account_id)@,
                ctx.attached,
            ) is Some,
            r is Err ==> r->Err_0 == old(self).deposit_refusal(
                deposit_target(*ctx, account_id)@,
                ctx.attached,
            ).unwrap(),
            r is Err ==> *final(self) == *old(self),
            old(self).registered(deposit_target(*ctx, account_id)@) ==> *final(self) == *old(self),
            old(self).registered(deposit_target(*ctx, account_id)@) ==> r is Ok && r->Ok_0
                == (Receipt { settlement: untouched(ctx.attached), event: None }),
            !old(self).registered(deposit_target(*ctx, account_id)@) && r is Ok
                ==> final(self).balances() == old(self).balances().insert(deposit_target(*ctx, account_id)@, 0u128),
            !old(self).registered(deposit_target(*ctx, account_id)@) && r is Ok ==> r->Ok_0
                == (Receipt {
                settlement: Settlement {
                    charged: old(self).min_deposit() as u128,
                    refund: (ctx.attached - old(self).min_deposit()) as u128,
                    released: 0,
                },
                event: None,
            }),
    {
        let target = match account_id {
            Some(a) => a,
            None => ctx.predecessor_id.clone(),
        };
        if self.lookup(&target).is_some() {
            return Ok(
                Receipt {
                    settlement: Settlement { charged: 0, refund: ctx.attached, released: 0 },
                    event: None,
                },
            );
        }
        if !valid_account_id(&target) {
            return Err(LedgerError::InvalidAccountId);
        }
        let bytes = token_account_bytes(&self.token);
        let bounds = bounds_for_entry(bytes);
        if ctx.attached < bounds.min {
            return Err(LedgerError::DepositOutOfBounds);
        }
        let settlement = match reconcile_storage(0, bytes, ctx.attached) {
            Ok(s) => s,
            Err(e) => return Err(e),
        };
        let ghost m = self.balances();
        proof {
            lemma_sum_insert_new(m, target@, 0);
        }
        token_register(&mut self.token, &target);
        Ok(Receipt { settlement, event: None })
    }

    /// Withdraws storage deposit back to the caller. A registered account's
    /// whole deposit pays for its entry, so nothing is ever available: any
    /// positive amount is refused.
    pub fn storage_withdraw(&self, ctx: &CallContext, amount: Option<u128>) -> (r: Result<
        StorageBalance,
        LedgerError,
    >)
        requires
            self.wf(),
        ensures
            !self.registered(ctx.predecessor_id@) ==> r is Err && r->Err_0
                == LedgerError::AccountNotRegistered(ctx.predecessor_id),
            self.registered(ctx.predecessor_id@) && amount is Some && amount->Some_0 > 0 ==> r is Err
                && r->Err_0 == LedgerError::InsufficientStorageBalance,
            r is Ok <==> self.registered(ctx.predecessor_id@) && (amount is None || amount->Some_0
                == 0),
            r is Ok ==> r->Ok_0 == (StorageBalance {
                total: self.min_deposit() as u128,
                available: 0,
            }),
    {
        match self.storage_balance_of(&ctx.predecessor_id) {
            None => Err(LedgerError::AccountNotRegistered(ctx.predecessor_id.clone())),
            Some(balance) => match amount {
                Some(a) if a > 0 => Err(LedgerError::InsufficientStorageBalance),
                _ => Ok(balance),
            },
        }
    }

    /// Why unregistering the caller would be refused; `None` if it goes through.
    pub open spec fn unregister_refusal(&self, account: Seq<char>, force: Option<bool>) -> Option<
        LedgerError,
    > {
        if !self.registered(account) {
            Some(LedgerError::AccountNotFound)
        } else if self.balance(account) > 0 && force != Some(true) {
            Some(LedgerError::NonZeroBalance)
        } else {
            None
        }
    }

    /// Removes the caller's entry and returns its storage deposit. A positive
    /// balance is refused unless `force` is set; then it is burned.
    pub fn storage_unregister(&mut self, ctx: &CallContext, force: Option<bool>) -> (r: Result<
        Receipt,
        LedgerError,
    >)
        requires
            old(self).wf(),
        ensures
            final(self).wf(),
            final(self).entry_bytes() == old(self).entry_bytes(),
            final(self).meta() == old(self).meta(),
            r is Err <==> old(self).unregister_refusal(ctx.predecessor_id@, force) is Some,
            r is Err ==> r->Err_0 == old(self).unregister_refusal(
                ctx.predecessor_id@,
                force,
            ).unwrap(),
            r is Err ==> *final(self) == *old(self),
            r is Ok ==> final(self).balances() == old(self).balances().remove(
                ctx.predecessor_id@,
            ),
            r is Ok ==> final(self).total() == old(self).total() - old(self).balance(
                ctx.predecessor_id@,
            ),
            r is Ok ==> r->Ok_0.settlement == (Settlement {
                charged: 0,
                refund: ctx.attached,
                released: old(self).min_deposit() as u128,
            }),
            r is Ok && old(self).balance(ctx.predecessor_id@) == 0 ==> r->Ok_0.event is None,
            r is Ok && old(self).balance(ctx.predecessor_id@) > 0 ==> r->Ok_0.event == Some(
                FtEvent::Burn {
                    owner_id: ctx.predecessor_id,
                    amount: old(self).balance(ctx.predecessor_id@),
                    memo: None,
                },
            ),
    {
        let account = &ctx.predecessor_id;
        let balance = match self.lookup(account) {
            Some(b) => b,
            None => return Err(LedgerError::AccountNotFound),
        };
        let forced = match force {
            Some(f) => f,
            None => false,
        };
        if balance > 0 && !forced {
            return Err(LedgerError::NonZeroBalance);
        }
        let bytes = token_account_bytes(&self.token);
        let settlement = match reconcile_storage(bytes, 0, ctx.attached) {
            Ok(s) => s,
            Err(e) => return Err(e),
        };
        let ghost m = self.balances();
        proof {
            lemma_entry_le_sum(m, account@);
            lemma_sum_update(m, account@, 0);
            lemma_sum_remove(m.insert(account@, 0), account@);
            assert(m.insert(account@, 0u128).remove(account@) =~= m.remove(account@));
        }
        let event = if balance > 0 {
            token_withdraw(&mut self.token, account, balance);
            Some(FtEvent::Burn { owner_id: account.clone(), amount: balance, memo: None })
        } else {
            None
        };
        token_remove(&mut self.token, account);
        Ok(Receipt { settlement, event })
    }

    /// The transfer entry point: the caller sends `amount` to `receiver_id`.
    /// It asks for at least one unit of attached payment, against spam; the
    /// payment is returned in full, since a transfer adds no storage.
    pub fn ft_transfer(
        &mut self,
        ctx: &CallContext,
        receiver_id: String,
        amount: u128,
        memo: Option<String>,
    ) -> (r: Result<Receipt, LedgerError>)
        requires
            old(self).wf(),
        ensures
            final(self).wf(),
            final(self).entry_bytes() == old(self).entry_bytes(),
            final(self).meta() == old(self).meta(),
            final(self).total() == old(self).total(),
            r is Err ==> *final(self) == *old(self),
            ctx.attached == 0 ==> r is Err && r->Err_0 == LedgerError::InsufficientAttachedPayment,
            ctx.attached > 0 ==> (r is Err <==> old(self).transfer_refusal(
                ctx.predecessor_id,
                receiver_id,
                amount,
            ) is Some),
            ctx.attached > 0 && r is Err ==> r->Err_0 == old(self).transfer_refusal(
                ctx.predecessor_id,
                receiver_id,
                amount,
            ).unwrap(),
            r is Ok ==> final(self).balances() == old(self).transferred(
                ctx.predecessor_id@,
                receiver_id@,
                amount,
            ),
            r is Ok ==> r->Ok_0 == (Receipt {
                settlement: untouched(ctx.attached),
                event: Some(
                    FtEvent::Transfer {
                        old_owner_id: ctx.predecessor_id,
                        new_owner_id: receiver_id,
                        amount: amount,
                        memo: memo,
                    },
                ),
            }),
    {
        if ctx.attached == 0 {
            return Err(LedgerError::InsufficientAttachedPayment);
        }
        let settlement = match reconcile_storage(0, 0, ctx.attached) {
            Ok(s) => s,
            Err(e) => return Err(e),
        };
        match self.transfer(&ctx.predecessor_id, &receiver_id, amount, memo) {
            Ok(event) => Ok(Receipt { settlement, event: Some(event) }),
            Err(e) => Err(e),
        }
    }
}

/// In every well-formed contract, and so after every call, the balances of
/// the registered accounts sum to the total supply.
pub proof fn lemma_balances_sum_to_supply(c: &Contract)
    requires
        c.wf(),
    ensures
        sum_balances(c.balances()) == c.total() as int,
{
}

/// An account that is not registered has a balance of zero.
pub proof fn lemma_unregistered_balance_is_zero(c: &Contract, account: Seq<char>)
    requires
        !c.registered(account),
    ensures
        c.balance(account) == 0,
{
}

/// A transfer that goes through takes exactly `amount` from the sender, gives
/// exactly `amount` to the receiver, leaves every other account alone, and
/// keeps the sum of balances equal to the total supply.
pub proof fn lemma_transfer_conserves(c: &Contract, sender: String, receiver: String, amount: u128)
    requires
        c.wf(),
        c.transfer_refusal(sender, receiver, amount) is None,
    ensures
        ({
            let after = c.transferred(sender@, receiver@, amount);
            &&& after[sender@] == c.balance(sender@) - amount
            &&& after[receiver@] == c.balance(receiver@) + amount
            &&& forall|a: Seq<char>|
                a != sender@ && a != receiver@ ==> #[trigger] after.contains_key(a)
                    == c.registered(a) && after[a] == c.balances()[a]
            &&& sum_balances(after) == c.total() as int
        }),
{
    let m = c.balances();
    lemma_pair_le_sum(m, sender@, receiver@);
    let m1 = m.insert(sender@, (m[sender@] - amount) as u128);
    lemma_sum_update(m, sender@, (m[sender@] - amount) as u128);
    lemma_sum_update(m1, receiver@, (m[receiver@] + amount) as u128);
}

/// A newly made contract holds the whole supply in its owner's account, no
/// other account is registered or holds anything, and the balances sum to the
/// supply.
pub proof fn lemma_made_holds_only_owner(
    c: Contract,
    event: FtEvent,
    owner_id: String,
    total_supply: u128,
    metadata: Metadata,
)
    requires
        Contract::made(c, event, owner_id, total_supply, metadata),
    ensures
        c.registered(owner_id@),
        c.balance(owner_id@) == total_supply,
        forall|a: Seq<char>| a != owner_id@ ==> !c.registered(a) && #[trigger] c.balance(a) == 0,
        sum_balances(c.balances()) == c.total() as int,
{
}

} // verus!
