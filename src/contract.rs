use vstd::prelude::*;

use crate::error::FtError;
use crate::ledger::Ledger;
use crate::metadata::FungibleTokenMetadata;
use crate::pending::{PendingTransfers, PendingView};

verus! {

/// The registration fee in yoctoNEAR: 125 bytes of account storage at
/// 10^19 yoctoNEAR a byte. It is both the least and the most an account
/// can deposit.
pub const STORAGE_BALANCE: u128 = 1_250_000_000_000_000_000_000;

/// The payment that authorizes a mutating call.
pub const ONE_YOCTO: u128 = 1;

/// Gas that a transfer-call must exceed: the receiver's call and the
/// resolution that follows it.
pub const GAS_FOR_FT_TRANSFER_CALL: u64 = 30_000_000_000_000;

/// Deposit of a registered account.
#[derive(Debug, Clone, Copy, PartialEq, Eq, Structural)]
pub struct StorageBalance {
    pub total: u128,
    pub available: u128,
}

/// Least and greatest deposit an account may hold.
#[derive(Debug, Clone, Copy, PartialEq, Eq)]
pub struct StorageBalanceBounds {
    pub min: u128,
    pub max: Option<u128>,
}

/// Outcome of a registration: the account's deposit, and how much of the
/// attached payment goes back to the caller.
#[derive(Debug, Clone, Copy, PartialEq, Eq, Structural)]
pub struct StorageDeposit {
    pub balance: StorageBalance,
    pub refund: u128,
}

/// Outcome of the resolution of a transfer-call.
#[derive(Debug, Clone, Copy, PartialEq, Eq, Structural)]
pub struct ResolvedTransfer {
    /// What the receiver keeps, as far as the sender is concerned.
    pub used_amount: u128,
    /// What was destroyed because the sender could no longer take it back.
    pub burned_amount: u128,
}

/// Balance of `k` in `m`; zero for an unregistered account.
pub open spec fn balance_in(m: Map<Seq<char>, u128>, k: Seq<char>) -> u128 {
    if m.contains_key(k) {
        m[k]
    } else {
        0
    }
}

/// The ledger after a registration of `k`: a new entry of zero, or the same
/// ledger where `k` is registered already.
pub open spec fn registered_after_deposit(m: Map<Seq<char>, u128>, k: Seq<char>) -> Map<
    Seq<char>,
    u128,
> {
    if m.contains_key(k) {
        m
    } else {
        m.insert(k, 0)
    }
}

/// Why a transfer of `amount` from `s` to `r` is refused, if it is.
pub open spec fn transfer_error(m: Map<Seq<char>, u128>, s: Seq<char>, r: Seq<char>, amount: u128) -> Option<FtError> {
    if s == r || amount == 0 {
        Some(FtError::InvalidRequest)
    } else if !m.contains_key(s) || !m.contains_key(r) {
        Some(FtError::NotRegistered)
    } else if m[s] < amount {
        Some(FtError::InsufficientBalance)
    } else {
        None
    }
}

/// The ledger after `amount` moved from `s` to `r`.
pub open spec fn moved(m: Map<Seq<char>, u128>, s: Seq<char>, r: Seq<char>, amount: u128) -> Map<Seq<char>, u128> {
    m.insert(s, (m[s] - amount) as u128).insert(r, (m[r] + amount) as u128)
}

/// What the receiver of a transfer-call of `amount` gives back: what it
/// reported unused, at most `amount`, or all of it when its call failed.
pub open spec fn unused_amount(amount: u128, receiver_result: Option<u128>) -> u128 {
    match receiver_result {
        Some(v) => if v < amount {
            v
        } else {
            amount
        },
        None => amount,
    }
}

/// What can actually be taken back: the unused amount, capped by what the
/// receiver still holds.
pub open spec fn refund_amount(unused: u128, receiver_balance: u128) -> u128 {
    if receiver_balance < unused {
        receiver_balance
    } else {
        unused
    }
}

/// What the resolution of transfer-call `id` does, `receiver_result` being
/// what the receiver reported unused (`None` when its call failed), from
/// state `pre` to state `post` with result `r`.
pub open spec fn resolution(pre: &Contract, post: &Contract, id: u64, receiver_result: Option<u128>, r: Option<ResolvedTransfer>) -> bool {
    if !pre.transfers().contains_key(id) {
        r is None && *post == *pre
    } else {
        let (s, rc, amount) = pre.transfers()[id];
        let rb = balance_in(pre.balances(), rc);
        let refund = refund_amount(unused_amount(amount, receiver_result), rb);
        &&& post.transfers() == pre.transfers().remove(id)
        &&& post.transfers_exhausted() == pre.transfers_exhausted()
        &&& post.minted() == pre.minted()
        &&& post.same_settings(pre)
        &&& if refund == 0 {
            &&& r == Some(ResolvedTransfer { used_amount: amount, burned_amount: 0 })
            &&& post.balances() == pre.balances()
            &&& post.supply() == pre.supply()
            &&& post.burned() == pre.burned()
        } else if pre.balances().contains_key(s) {
            &&& r == Some(ResolvedTransfer { used_amount: (amount - refund) as u128, burned_amount: 0 })
            &&& post.balances() == pre.balances().insert(rc, (rb - refund) as u128).insert(s, (pre.balances()[s] + refund) as u128)
            &&& post.supply() == pre.supply()
            &&& post.burned() == pre.burned()
        } else {
            &&& r == Some(ResolvedTransfer { used_amount: amount, burned_amount: refund })
            &&& post.balances() == pre.balances().insert(rc, (rb - refund) as u128)
            &&& post.supply() == pre.supply() - refund
            &&& post.burned() == pre.burned() + refund
        }
    }
}

/// The token: ledger of registered accounts, supply, pending transfer-calls,
/// metadata and owner.
pub struct Contract {
    owner_id: String,
    ledger: Ledger,
    total_supply: u128,
    metadata: FungibleTokenMetadata,
    pending: PendingTransfers,
    minted: Ghost<int>,
    burned: Ghost<int>,
}

impl Contract {
    /// Balance of each registered account; an account is registered exactly
    /// when it is a key.
    pub closed spec fn balances(&self) -> Map<Seq<char>, u128> {
        self.ledger@
    }

    /// Sum of the balances of all registered accounts.
    pub closed spec fn circulating(&self) -> int {
        self.ledger.total()
    }

    pub closed spec fn supply(&self) -> u128 {
        self.total_supply
    }

    pub closed spec fn owner(&self) -> Seq<char> {
        self.owner_id@
    }

    pub closed spec fn metadata(&self) -> FungibleTokenMetadata {
        self.metadata
    }

    /// Transfer-calls awaiting resolution: identifier to sender, receiver
    /// and amount.
    pub closed spec fn transfers(&self) -> Map<u64, PendingView> {
        self.pending@
    }

    /// Whether no further transfer-call identifier can be handed out.
    pub closed spec fn transfers_exhausted(&self) -> bool {
        self.pending.next_id() == u64::MAX
    }

    /// Everything ever minted.
    pub closed spec fn minted(&self) -> int {
        self.minted@
    }

    /// Everything ever burned.
    pub closed spec fn burned(&self) -> int {
        self.burned@
    }

    pub closed spec fn wf(&self) -> bool {
        &&& self.ledger.wf()
        &&& self.pending.wf()
        &&& self.ledger.total() == self.total_supply
        &&& self.total_supply + self.burned@ == self.minted@
        &&& self.burned@ >= 0
    }

    /// Every token minted is either held by a registered account or was
    /// burned: the balances sum to the supply, and the supply and what was
    /// burned sum to what was minted. Every operation keeps this.
    pub proof fn lemma_conservation(&self)
        requires
            self.wf(),
        ensures
            self.circulating() == self.supply(),
            self.circulating() + self.burned() == self.minted(),
            self.burned() >= 0,
    {
    }

    /// At resolution the sender takes back no more than the receiver still
    /// holds and no more than it reported unused; the receiver gives up
    /// exactly what the sender takes back plus what is burned, and the supply
    /// shrinks by what is burned.
    pub proof fn lemma_refund_capped(pre: &Contract, post: &Contract, id: u64, receiver_result: Option<u128>, r: Option<ResolvedTransfer>)
        requires
            pre.wf(),
            pre.transfers().contains_key(id),
            resolution(pre, post, id, receiver_result, r),
        ensures
            ({
                let (s, rc, amount) = pre.transfers()[id];
                let rb = balance_in(pre.balances(), rc);
                let gain = balance_in(post.balances(), s) - balance_in(pre.balances(), s);
                r matches Some(o) && {
                    &&& 0 <= gain <= rb
                    &&& gain <= unused_amount(amount, receiver_result)
                    &&& o.used_amount == amount - gain
                    &&& o.burned_amount + gain <= rb
                    &&& rb - balance_in(post.balances(), rc) == gain + o.burned_amount
                    &&& post.supply() == pre.supply() - o.burned_amount
                }
            }),
    {
        pre.pending.lemma_parties_differ(id);
        let (s, rc, amount) = pre.transfers()[id];
        if pre.balances().contains_key(s) && pre.balances().contains_key(rc) {
            pre.ledger.lemma_two_entries_le_total(s, rc);
        }
    }

    /// Owner and metadata are those of `other`.
    pub open spec fn same_settings(&self, other: &Contract) -> bool {
        self.owner() == other.owner() && self.metadata() == other.metadata()
    }

    /// Creates the token: mints `total_supply` to `owner_id`, who is
    /// registered. Refused when the metadata is not well formed.
    pub fn new(owner_id: String, total_supply: u128, metadata: FungibleTokenMetadata) -> (r: Result<Contract, FtError>)
        ensures
            !metadata.valid() ==> r == Err::<Contract, FtError>(FtError::InvalidMetadata),
            metadata.valid() ==> (r matches Ok(c) && {
                &&& c.wf()
                &&& c.balances() == Map::<Seq<char>, u128>::empty().insert(owner_id@, total_supply)
                &&& c.supply() == total_supply
                &&& c.owner() == owner_id@
                &&& c.metadata() == metadata
                &&& c.transfers() == Map::<u64, PendingView>::empty()
                &&& !c.transfers_exhausted()
                &&& c.minted() == total_supply
                &&& c.burned() == 0
            }),
    {
        if !metadata.is_valid() {
            return Err(FtError::InvalidMetadata);
        }
        let mut ledger = Ledger::new();
        ledger.register(owner_id.clone());
        proof {
            ledger.lemma_total_nonneg();
        }
        ledger.set(&owner_id, total_supply);
        let pending = PendingTransfers::new();
        Ok(Contract {
            owner_id,
            ledger,
            total_supply,
            metadata,
            pending,
            minted: Ghost(total_supply as int),
            burned: Ghost(0),
        })
    }

    /// Current total supply.
    pub fn ft_total_supply(&self) -> (r: u128)
        ensures
            r == self.supply(),
    {
        self.total_supply
    }

    /// Balance of `account_id`; zero when it is not registered.
    pub fn ft_balance_of(&self, account_id: String) -> (r: u128)
        requires
            self.wf(),
        ensures
            r == balance_in(self.balances(), account_id@),
    {
        match self.ledger.get(&account_id) {
            Some(b) => b,
            None => 0,
        }
    }

    /// Checks a transfer without making it; on success hands back the two
    /// balances.
    fn check_transfer(&self, sender_id: &String, receiver_id: &String, amount: u128) -> (r: Result<(u128, u128), FtError>)
        requires
            self.wf(),
        ensures
            match r {
                Ok((sb, rb)) => transfer_error(self.balances(), sender_id@, receiver_id@, amount) is None
                    && sb == self.balances()[sender_id@] && rb == self.balances()[receiver_id@],
                Err(e) => transfer_error(self.balances(), sender_id@, receiver_id@, amount) == Some(e),
            },
    {
        if *sender_id == *receiver_id || amount == 0 {
            return Err(FtError::InvalidRequest);
        }
        let sb = self.ledger.get(sender_id);
        let rb = self.ledger.get(receiver_id);
        match (sb, rb) {
            (Some(sb), Some(rb)) => {
                if sb < amount {
                    Err(FtError::InsufficientBalance)
                } else {
                    Ok((sb, rb))
                }
            },
            _ => Err(FtError::NotRegistered),
        }
    }

    /// Moves `amount` from `sender_id` to `receiver_id`, once checked.
    fn apply_transfer(&mut self, sender_id: &String, receiver_id: &String, amount: u128, sb: u128, rb: u128)
        requires
            old(self).wf(),
            transfer_error(old(self).balances(), sender_id@, receiver_id@, amount) is None,
            sb == old(self).balances()[sender_id@],
            rb == old(self).balances()[receiver_id@],
        ensures
            final(self).wf(),
            final(self).balances() == moved(old(self).balances(), sender_id@, receiver_id@, amount),
            final(self).supply() == old(self).supply(),
            final(self).circulating() == old(self).circulating(),
            final(self).transfers() == old(self).transfers(),
            final(self).transfers_exhausted() == old(self).transfers_exhausted(),
            final(self).minted() == old(self).minted(),
            final(self).burned() == old(self).burned(),
            final(self).same_settings(old(self)),
    {
        proof {
            self.ledger.lemma_two_entries_le_total(sender_id@, receiver_id@);
        }
        self.ledger.set(sender_id, sb - amount);
        self.ledger.set(receiver_id, rb + amount);
    }

    /// Moves `amount` from the caller to `receiver_id`. The call must carry
    /// exactly one yoctoNEAR.
    pub fn ft_transfer(&mut self, predecessor: String, attached_deposit: u128, receiver_id: String, amount: u128) -> (r: Result<(), FtError>)
        requires
            old(self).wf(),
        ensures
            final(self).wf(),
            attached_deposit != ONE_YOCTO ==> r == Err::<(), FtError>(FtError::InsufficientAuthorizationPayment),
            attached_deposit == ONE_YOCTO ==> match transfer_error(old(self).balances(), predecessor@, receiver_id@, amount) {
                Some(e) => r == Err::<(), FtError>(e),
                None => r is Ok,
            },
            r is Err ==> *final(self) == *old(self),
            r is Ok ==> final(self).balances() == moved(old(self).balances(), predecessor@, receiver_id@, amount),
            final(self).supply() == old(self).supply(),
            final(self).circulating() == old(self).circulating(),
            final(self).transfers() == old(self).transfers(),
            final(self).transfers_exhausted() == old(self).transfers_exhausted(),
            final(self).minted() == old(self).minted(),
            final(self).burned() == old(self).burned(),
            final(self).same_settings(old(self)),
    {
        if attached_deposit != ONE_YOCTO {
            return Err(FtError::InsufficientAuthorizationPayment);
        }
        match self.check_transfer(&predecessor, &receiver_id, amount) {
            Ok((sb, rb)) => {
                self.apply_transfer(&predecessor, &receiver_id, amount, sb, rb);
                Ok(())
            },
            Err(e) => Err(e),
        }
    }

    /// First half of a transfer-call: moves `amount` from the caller to
    /// `receiver_id` at once and records the transfer for its resolution,
    /// whose identifier it returns. The call must carry exactly one
    /// yoctoNEAR and more than `GAS_FOR_FT_TRANSFER_CALL` gas.
    pub fn ft_transfer_call(
        &mut self,
        predecessor: String,
        attached_deposit: u128,
        prepaid_gas: u64,
        receiver_id: String,
        amount: u128,
    ) -> (r: Result<u64, FtError>)
        requires
            old(self).wf(),
        ensures
            final(self).wf(),
            attached_deposit != ONE_YOCTO ==> r == Err::<u64, FtError>(FtError::InsufficientAuthorizationPayment),
            attached_deposit == ONE_YOCTO && prepaid_gas <= GAS_FOR_FT_TRANSFER_CALL ==> r == Err::<u64, FtError>(FtError::InsufficientGas),
            attached_deposit == ONE_YOCTO && prepaid_gas > GAS_FOR_FT_TRANSFER_CALL ==> match transfer_error(old(self).balances(), predecessor@, receiver_id@, amount) {
                Some(e) => r == Err::<u64, FtError>(e),
                None => if old(self).transfers_exhausted() {
                    r == Err::<u64, FtError>(FtError::TransferIdsExhausted)
                } else {
                    r is Ok
                },
            },
            r is Err ==> *final(self) == *old(self),
            r matches Ok(id) ==> {
                &&& final(self).balances() == moved(old(self).balances(), predecessor@, receiver_id@, amount)
                &&& !old(self).transfers().contains_key(id)
                &&& final(self).transfers() == old(self).transfers().insert(id, (predecessor@, receiver_id@, amount))
            },
            final(self).supply() == old(self).supply(),
            final(self).circulating() == old(self).circulating(),
            final(self).minted() == old(self).minted(),
            final(self).burned() == old(self).burned(),
            final(self).same_settings(old(self)),
    {
        if attached_deposit != ONE_YOCTO {
            return Err(FtError::InsufficientAuthorizationPayment);
        }
        if prepaid_gas <= GAS_FOR_FT_TRANSFER_CALL {
            return Err(FtError::InsufficientGas);
        }
        match self.check_transfer(&predecessor, &receiver_id, amount) {
            Ok((sb, rb)) => {
                if self.pending.exhausted() {
                    return Err(FtError::TransferIdsExhausted);
                }
                self.apply_transfer(&predecessor, &receiver_id, amount, sb, rb);
                let id = self.pending.open(predecessor, receiver_id, amount);
                match id {
                    Some(id) => Ok(id),
                    None => Err(FtError::TransferIdsExhausted),
                }
            },
            Err(e) => Err(e),
        }
    }

    /// Second half of a transfer-call: takes back from the receiver what it
    /// left unused (`receiver_result`; `None` when its call failed), capped
    /// by what it still holds. When the sender has left in the meantime,
    /// that amount is burned instead. Runs once per transfer-call: for an
    /// unknown or already resolved identifier it returns `None` and changes
    /// nothing.
    pub fn ft_resolve_transfer(&mut self, transfer_id: u64, receiver_result: Option<u128>) -> (r: Option<ResolvedTransfer>)
        requires
            old(self).wf(),
        ensures
            final(self).wf(),
            resolution(old(self), final(self), transfer_id, receiver_result, r),
    {
        let t = match self.pending.take(transfer_id) {
            Some(t) => t,
            None => return None,
        };
        let amount = t.amount;
        let unused = match receiver_result {
            Some(v) => if v < amount { v } else { amount },
            None => amount,
        };
        let receiver_balance = match self.ledger.get(&t.receiver_id) {
            Some(b) => b,
            None => 0,
        };
        let refund = if receiver_balance < unused { receiver_balance } else { unused };
        if refund == 0 {
            return Some(ResolvedTransfer { used_amount: amount, burned_amount: 0 });
        }
        match self.ledger.get(&t.sender_id) {
            Some(sb) => {
                proof {
                    self.ledger.lemma_two_entries_le_total(t.sender_id@, t.receiver_id@);
                }
                self.ledger.set(&t.receiver_id, receiver_balance - refund);
                self.ledger.set(&t.sender_id, sb + refund);
                Some(ResolvedTransfer { used_amount: amount - refund, burned_amount: 0 })
            },
            None => {
                proof {
                    self.ledger.lemma_entry_le_total(t.receiver_id@);
                }
                self.ledger.set(&t.receiver_id, receiver_balance - refund);
                self.total_supply = self.total_supply - refund;
                self.burned = Ghost(self.burned@ + refund);
                Some(ResolvedTransfer { used_amount: amount, burned_amount: refund })
            },
        }
    }

    /// Least and greatest deposit: both the registration fee.
    pub fn storage_balance_bounds(&self) -> (r: StorageBalanceBounds)
        ensures
            r.min == STORAGE_BALANCE,
            r.max == Some(STORAGE_BALANCE),
    {
        StorageBalanceBounds { min: STORAGE_BALANCE, max: Some(STORAGE_BALANCE) }
    }

    /// Deposit of `account_id`: the fee, none of it available; `None` when
    /// it is not registered.
    pub fn storage_balance_of(&self, account_id: String) -> (r: Option<StorageBalance>)
        requires
            self.wf(),
        ensures
            r == (if self.balances().contains_key(account_id@) {
                Some(StorageBalance { total: STORAGE_BALANCE, available: 0 })
            } else {
                None::<StorageBalance>
            }),
    {
        if self.ledger.get(&account_id).is_some() {
            Some(StorageBalance { total: STORAGE_BALANCE, available: 0 })
        } else {
            None
        }
    }

    /// Registers `account_id` (the caller by default) for the attached
    /// payment. An account registered already is left as it is and the whole
    /// payment goes back; otherwise the payment must cover the fee, and what
    /// exceeds it goes back. `registration_only` changes nothing here: with
    /// a flat fee no deposit beyond it is ever kept.
    pub fn storage_deposit(
        &mut self,
        predecessor: String,
        attached_deposit: u128,
        account_id: Option<String>,
        registration_only: Option<bool>,
    ) -> (r: Result<StorageDeposit, FtError>)
        requires
            old(self).wf(),
        ensures
            final(self).wf(),
            ({
                let k = match account_id {
                    Some(a) => a@,
                    None => predecessor@,
                };
                let known = old(self).balances().contains_key(k);
                &&& !known && attached_deposit < STORAGE_BALANCE ==> r == Err::<StorageDeposit, FtError>(FtError::InsufficientDeposit)
                    && *final(self) == *old(self)
                &&& (known || attached_deposit >= STORAGE_BALANCE) ==> r == Ok::<StorageDeposit, FtError>(StorageDeposit {
                    balance: StorageBalance { total: STORAGE_BALANCE, available: 0 },
                    refund: if known { attached_deposit } else { (attached_deposit - STORAGE_BALANCE) as u128 },
                }) && final(self).balances() == registered_after_deposit(old(self).balances(), k)
            }),
            final(self).supply() == old(self).supply(),
            final(self).circulating() == old(self).circulating(),
            final(self).transfers() == old(self).transfers(),
            final(self).transfers_exhausted() == old(self).transfers_exhausted(),
            final(self).minted() == old(self).minted(),
            final(self).burned() == old(self).burned(),
            final(self).same_settings(old(self)),
    {
        let account = match account_id {
            Some(a) => a,
            None => predecessor,
        };
        let balance = StorageBalance { total: STORAGE_BALANCE, available: 0 };
        if self.ledger.get(&account).is_some() {
            return Ok(StorageDeposit { balance, refund: attached_deposit });
        }
        if attached_deposit < STORAGE_BALANCE {
            return Err(FtError::InsufficientDeposit);
        }
        self.ledger.register(account);
        Ok(StorageDeposit { balance, refund: attached_deposit - STORAGE_BALANCE })
    }

    /// Withdraws from the caller's deposit, of which nothing is ever
    /// available: only a request of nothing succeeds, and it returns the
    /// deposit unchanged. The call must carry exactly one yoctoNEAR.
    pub fn storage_withdraw(&self, predecessor: String, attached_deposit: u128, amount: Option<u128>) -> (r: Result<StorageBalance, FtError>)
        requires
            self.wf(),
        ensures
            attached_deposit != ONE_YOCTO ==> r == Err::<StorageBalance, FtError>(FtError::InsufficientAuthorizationPayment),
            attached_deposit == ONE_YOCTO && !self.balances().contains_key(predecessor@) ==> r == Err::<StorageBalance, FtError>(FtError::NotRegistered),
            attached_deposit == ONE_YOCTO && self.balances().contains_key(predecessor@) ==> r == (match amount {
                Some(a) if a > 0 => Err::<StorageBalance, FtError>(FtError::ExcessWithdrawal),
                _ => Ok::<StorageBalance, FtError>(StorageBalance { total: STORAGE_BALANCE, available: 0 }),
            }),
    {
        if attached_deposit != ONE_YOCTO {
            return Err(FtError::InsufficientAuthorizationPayment);
        }
        if self.ledger.get(&predecessor).is_none() {
            return Err(FtError::NotRegistered);
        }
        match amount {
            Some(a) if a > 0 => Err(FtError::ExcessWithdrawal),
            _ => Ok(StorageBalance { total: STORAGE_BALANCE, available: 0 }),
        }
    }

    /// Closes the caller's registration; the fee and the authorizing payment
    /// go back to the caller. Returns `false`, changing nothing, when the
    /// caller is not registered. An account that holds tokens is closed only
    /// with `force`, and its tokens are burned. The call must carry exactly
    /// one yoctoNEAR.
    pub fn storage_unregister(&mut self, predecessor: String, attached_deposit: u128, force: Option<bool>) -> (r: Result<bool, FtError>)
        requires
            old(self).wf(),
        ensures
            final(self).wf(),
            ({
                let known = old(self).balances().contains_key(predecessor@);
                let b = balance_in(old(self).balances(), predecessor@);
                let forced = force == Some(true);
                &&& attached_deposit != ONE_YOCTO ==> r == Err::<bool, FtError>(FtError::InsufficientAuthorizationPayment)
                &&& attached_deposit == ONE_YOCTO && !known ==> r == Ok::<bool, FtError>(false)
                &&& attached_deposit == ONE_YOCTO && known && b > 0 && !forced ==> r == Err::<bool, FtError>(FtError::NonZeroBalance)
                &&& attached_deposit == ONE_YOCTO && known && (b == 0 || forced) ==> {
                    &&& r == Ok::<bool, FtError>(true)
                    &&& final(self).balances() == old(self).balances().remove(predecessor@)
                    &&& final(self).supply() == old(self).supply() - b
                    &&& final(self).burned() == old(self).burned() + b
                }
                &&& r != Ok::<bool, FtError>(true) ==> *final(self) == *old(self)
            }),
            final(self).transfers() == old(self).transfers(),
            final(self).transfers_exhausted() == old(self).transfers_exhausted(),
            final(self).minted() == old(self).minted(),
            final(self).same_settings(old(self)),
    {
        if attached_deposit != ONE_YOCTO {
            return Err(FtError::InsufficientAuthorizationPayment);
        }
        let b = match self.ledger.get(&predecessor) {
            Some(b) => b,
            None => return Ok(false),
        };
        let forced = match force {
            Some(f) => f,
            None => false,
        };
        if b > 0 && !forced {
            return Err(FtError::NonZeroBalance);
        }
        proof {
            self.ledger.lemma_entry_le_total(predecessor@);
        }
        self.ledger.remove(&predecessor);
        self.total_supply = self.total_supply - b;
        self.burned = Ghost(self.burned@ + b);
        Ok(true)
    }

    /// Replaces the metadata; only the owner may, with exactly one
    /// yoctoNEAR, and the decimals stay as they are.
    pub fn update_metadata(&mut self, predecessor: String, attached_deposit: u128, metadata: FungibleTokenMetadata) -> (r: Result<(), FtError>)
        requires
            old(self).wf(),
        ensures
            final(self).wf(),
            r == (if attached_deposit != ONE_YOCTO {
                Err::<(), FtError>(FtError::InsufficientAuthorizationPayment)
            } else if predecessor@ != old(self).owner() {
                Err(FtError::NotOwner)
            } else if !metadata.valid() {
                Err(FtError::InvalidMetadata)
            } else if metadata.decimals != old(self).metadata().decimals {
                Err(FtError::DecimalsImmutable)
            } else {
                Ok(())
            }),
            r is Err ==> *final(self) == *old(self),
            r is Ok ==> final(self).metadata() == metadata,
            final(self).balances() == old(self).balances(),
            final(self).supply() == old(self).supply(),
            final(self).transfers() == old(self).transfers(),
            final(self).owner() == old(self).owner(),
    {
        if attached_deposit != ONE_YOCTO {
            return Err(FtError::InsufficientAuthorizationPayment);
        }
        if predecessor != self.owner_id {
            return Err(FtError::NotOwner);
        }
        if !metadata.is_valid() {
            return Err(FtError::InvalidMetadata);
        }
        if metadata.decimals != self.metadata.decimals {
            return Err(FtError::DecimalsImmutable);
        }
        self.metadata = metadata;
        Ok(())
    }

    /// Hands ownership to `new_owner`; only the owner may, with exactly one
    /// yoctoNEAR, and the new owner must not be empty.
    pub fn update_owner(&mut self, predecessor: String, attached_deposit: u128, new_owner: String) -> (r: Result<bool, FtError>)
        requires
            old(self).wf(),
        ensures
            final(self).wf(),
            r == (if attached_deposit != ONE_YOCTO {
                Err::<bool, FtError>(FtError::InsufficientAuthorizationPayment)
            } else if predecessor@ != old(self).owner() {
                Err(FtError::NotOwner)
            } else if new_owner@.len() == 0 {
                Err(FtError::InvalidOwner)
            } else {
                Ok(true)
            }),
            r is Err ==> *final(self) == *old(self),
            r is Ok ==> final(self).owner() == new_owner@,
            final(self).balances() == old(self).balances(),
            final(self).supply() == old(self).supply(),
            final(self).transfers() == old(self).transfers(),
            final(self).metadata() == old(self).metadata(),
    {
        if attached_deposit != ONE_YOCTO {
            return Err(FtError::InsufficientAuthorizationPayment);
        }
        if predecessor != self.owner_id {
            return Err(FtError::NotOwner);
        }
        if new_owner.as_str().is_empty() {
            return Err(FtError::InvalidOwner);
        }
        self.owner_id = new_owner;
        Ok(true)
    }

    /// The token's metadata.
    pub fn ft_metadata(&self) -> (r: &FungibleTokenMetadata)
        ensures
            *r == self.metadata(),
    {
        &self.metadata
    }

    /// The owner.
    pub fn owner_id(&self) -> (r: &String)
        ensures
            r@ == self.owner(),
    {
        &self.owner_id
    }
}

} // verus!
