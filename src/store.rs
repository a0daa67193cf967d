use vstd::prelude::*;
use crate::types::{AccountId, AccountSigners, Balance, BlockNumber, CallExecuted, EscrowError, H256, TransferError};
use crate::derive::{derive_multi_id, multi_id_of};

verus! {

/// Whether a transfer may leave the sender below the balance that keeps it alive.
#[derive(Clone, Copy, Debug, PartialEq, Eq)]
pub enum ExistenceRequirement {
    KeepAlive,
    AllowDeath,
}

/// How much a transfer moves.
#[derive(Clone, Copy, Debug, PartialEq, Eq)]
pub enum TransferAmount {
    Exact(Balance),
    /// The sender's entire balance.
    All,
}

/// A transfer that the protocol asks the currency to make.
#[derive(Clone, Copy, Debug, PartialEq, Eq)]
pub struct TransferRequest {
    pub from: AccountId,
    pub to: AccountId,
    pub amount: TransferAmount,
    pub existence: ExistenceRequirement,
}

/// A notification of the escrow lifecycle.
#[derive(Clone, Copy, Debug, PartialEq, Eq)]
pub enum Event {
    MultiAccountCreated { account_id: AccountId, timestamp: BlockNumber },
    BalanceTransferredAndLocked { to_multi_id: AccountId, from: AccountId, timestamp: BlockNumber },
    CallExecuted { multi_id: AccountId, timestamp: BlockNumber },
}

/// The signer record of `payer` in a log of writes: the latest one wins.
pub open spec fn signers_lookup(log: Seq<AccountSigners>, payer: Seq<u8>) -> Option<AccountSigners>
    decreases log.len(),
{
    if log.len() == 0 {
        None
    } else if log.last().payer@ == payer {
        Some(log.last())
    } else {
        signers_lookup(log.drop_last(), payer)
    }
}

/// The executed releases of `payer`, in the order they were appended.
pub open spec fn calls_of(log: Seq<CallExecuted>, payer: Seq<u8>) -> Seq<CallExecuted>
    decreases log.len(),
{
    if log.len() == 0 {
        Seq::empty()
    } else if log.last().payer@ == payer {
        calls_of(log.drop_last(), payer).push(log.last())
    } else {
        calls_of(log.drop_last(), payer)
    }
}

/// The two notifications of a successful opening, in order.
pub open spec fn opening_events(multi_id: AccountId, payer: AccountId, now: BlockNumber) -> Seq<Event> {
    seq![
        Event::MultiAccountCreated { account_id: multi_id, timestamp: now },
        Event::BalanceTransferredAndLocked { to_multi_id: multi_id, from: payer, timestamp: now },
    ]
}

/// The deposit that opens an escrow without resolver.
pub open spec fn is_opening_transfer(
    r: TransferRequest,
    payer: AccountId,
    payee: AccountId,
    amount: Balance,
) -> bool {
    &&& r.from == payer
    &&& r.to@ == multi_id_of(AccountSigners { payee, payer, resolver: None })
    &&& r.amount == TransferAmount::Exact(amount)
    &&& r.existence == ExistenceRequirement::KeepAlive
}

/// The state of the escrow protocol: the signer registry, the account
/// registry, the ledger of executed releases and the notifications emitted.
#[derive(Clone, Debug, PartialEq, Eq)]
pub struct EscrowStore {
    allowed_signers: Vec<AccountSigners>,
    multi_txns: Vec<CallExecuted>,
    accounts: Vec<AccountId>,
    events: Vec<Event>,
}

/// Whether two account identifiers are the same.
pub fn ids_equal(a: &AccountId, b: &AccountId) -> (r: bool)
    ensures
        r == (a@ == b@),
{
    let mut i: usize = 0;
    while i < 32
        invariant
            0 <= i <= 32,
            forall|j: int| 0 <= j < i ==> a@[j] == b@[j],
        decreases 32 - i,
    {
        if a[i] != b[i] {
            return false;
        }
        i = i + 1;
    }
    assert(a@ =~= b@);
    true
}

impl EscrowStore {
    /// Every write to the signer registry, oldest first.
    pub closed spec fn signers_view(&self) -> Seq<AccountSigners> {
        self.allowed_signers@
    }

    /// Every executed release, oldest first.
    pub closed spec fn calls_view(&self) -> Seq<CallExecuted> {
        self.multi_txns@
    }

    /// The registered escrow accounts.
    pub closed spec fn accounts_view(&self) -> Seq<AccountId> {
        self.accounts@
    }

    /// The notifications emitted, oldest first.
    pub closed spec fn events_view(&self) -> Seq<Event> {
        self.events@
    }

    pub open spec fn allowed_signers_of(&self, payer: Seq<u8>) -> Option<AccountSigners> {
        signers_lookup(self.signers_view(), payer)
    }

    pub open spec fn multi_txns_of(&self, payer: Seq<u8>) -> Seq<CallExecuted> {
        calls_of(self.calls_view(), payer)
    }

    pub open spec fn is_registered(&self, id: Seq<u8>) -> bool {
        exists|i: int| 0 <= i < self.accounts_view().len() && #[trigger] self.accounts_view()[i]@ == id
    }

    pub fn new() -> (r: Self)
        ensures
            r.signers_view() == Seq::<AccountSigners>::empty(),
            r.calls_view() == Seq::<CallExecuted>::empty(),
            r.accounts_view() == Seq::<AccountId>::empty(),
            r.events_view() == Seq::<Event>::empty(),
    {
        EscrowStore {
            allowed_signers: Vec::new(),
            multi_txns: Vec::new(),
            accounts: Vec::new(),
            events: Vec::new(),
        }
    }

    /// The notifications emitted so far, oldest first.
    pub fn events(&self) -> (r: &Vec<Event>)
        ensures
            r@ == self.events_view(),
    {
        &self.events
    }

    /// The signer record stored for `payer`.
    pub fn get_allowed_signers(&self, payer: &AccountId) -> (r: Option<AccountSigners>)
        ensures
            r == self.allowed_signers_of(payer@),
    {
        let ghost log = self.allowed_signers@;
        let mut i: usize = self.allowed_signers.len();
        assert(log.subrange(0, i as int) =~= log);
        while i > 0
            invariant
                i <= log.len(),
                log == self.allowed_signers@,
                signers_lookup(log, payer@) == signers_lookup(log.subrange(0, i as int), payer@),
            decreases i,
        {
            assert(log.subrange(0, i as int).drop_last() =~= log.subrange(0, i - 1));
            if ids_equal(&self.allowed_signers[i - 1].payer, payer) {
                return Some(self.allowed_signers[i - 1]);
            }
            i = i - 1;
        }
        None
    }

    /// The executed releases recorded for `payer`, oldest first.
    pub fn get_multi_txns(&self, payer: &AccountId) -> (r: Vec<CallExecuted>)
        ensures
            r@ == self.multi_txns_of(payer@),
    {
        let ghost log = self.multi_txns@;
        let mut out: Vec<CallExecuted> = Vec::new();
        let mut i: usize = 0;
        while i < self.multi_txns.len()
            invariant
                i <= log.len(),
                log == self.multi_txns@,
                out@ == calls_of(log.subrange(0, i as int), payer@),
            decreases log.len() - i,
        {
            assert(log.subrange(0, i + 1).drop_last() =~= log.subrange(0, i as int));
            let call = self.multi_txns[i];
            if ids_equal(&call.payer, payer) {
                out.push(call);
            }
            i = i + 1;
        }
        assert(log.subrange(0, log.len() as int) =~= log);
        out
    }

    /// Whether `id` is a registered account.
    pub fn account_exists(&self, id: &AccountId) -> (r: bool)
        ensures
            r == self.is_registered(id@),
    {
        let mut i: usize = 0;
        while i < self.accounts.len()
            invariant
                i <= self.accounts@.len(),
                forall|j: int| 0 <= j < i ==> self.accounts@[j]@ != id@,
            decreases self.accounts@.len() - i,
        {
            if ids_equal(&self.accounts[i], id) {
                assert(self.accounts_view()[i as int]@ == id@);
                return true;
            }
            i = i + 1;
        }
        false
    }

    /// Registers the escrow account `multi_id`: it is added when absent and
    /// left as it is when present, so a second call changes nothing.
    pub fn create_multi_account(&mut self, multi_id: AccountId) -> (r: Result<(), EscrowError>)
        ensures
            r is Ok,
            forall|id: Seq<u8>|
                #[trigger] final(self).is_registered(id) == (old(self).is_registered(id) || id
                    == multi_id@),
            old(self).is_registered(multi_id@) ==> *final(self) == *old(self),
            final(self).signers_view() == old(self).signers_view(),
            final(self).calls_view() == old(self).calls_view(),
            final(self).events_view() == old(self).events_view(),
    {
        if !self.account_exists(&multi_id) {
            let ghost before = self.accounts@;
            self.accounts.push(multi_id);
            assert forall|id: Seq<u8>|
                #[trigger] self.is_registered(id) == (old(self).is_registered(id) || id
                    == multi_id@) by {
                if id == multi_id@ {
                    assert(self.accounts_view()[before.len() as int]@ == id);
                }
                if old(self).is_registered(id) {
                    let j = choose|j: int|
                        0 <= j < before.len() && #[trigger] before[j]@ == id;
                    assert(self.accounts_view()[j]@ == id);
                }
                if self.is_registered(id) && id != multi_id@ {
                    let j = choose|j: int|
                        0 <= j < self.accounts_view().len()
                            && #[trigger] self.accounts_view()[j]@ == id;
                    assert(old(self).accounts_view()[j]@ == id);
                }
            }
        }
        Ok(())
    }

    /// The deposit that opens the escrow of `payer` and `payee` without
    /// resolver: `amount` from the payer to the derived escrow account, and
    /// the payer must stay alive. A payer cannot pay itself.
    pub fn open_transfer_request(payer: AccountId, payee: AccountId, amount: Balance) -> (r: Result<
        TransferRequest,
        EscrowError,
    >)
        ensures
            payer@ == payee@ ==> r == Err::<TransferRequest, EscrowError>(
                EscrowError::SamePayerAndPayee,
            ),
            payer@ != payee@ ==> r is Ok && is_opening_transfer(r->Ok_0, payer, payee, amount),
    {
        if ids_equal(&payer, &payee) {
            return Err(EscrowError::SamePayerAndPayee);
        }
        let multi_id = derive_multi_id(AccountSigners::new(payee, payer, None));
        Ok(
            TransferRequest {
                from: payer,
                to: multi_id,
                amount: TransferAmount::Exact(amount),
                existence: ExistenceRequirement::KeepAlive,
            },
        )
    }

    /// Opens an escrow without resolver once the currency has answered the
    /// deposit of `open_transfer_request`. On success the signer record of
    /// `payer` is replaced, the escrow account is registered, and the created
    /// and locked notifications follow in that order. On a refused deposit
    /// nothing changes and the currency's reason is returned; so too when
    /// the payer and the payee are the same account.
    pub fn inner_vane_pay_wo_resolver(
        &mut self,
        payer: AccountId,
        payee: AccountId,
        transfer: Result<(), TransferError>,
        now: BlockNumber,
    ) -> (r: Result<(), EscrowError>)
        ensures
            payer@ == payee@ ==> r == Err::<(), EscrowError>(EscrowError::SamePayerAndPayee)
                && *final(self) == *old(self),
            payer@ != payee@ && transfer is Err ==> r == Err::<(), EscrowError>(
                EscrowError::Transfer(transfer->Err_0),
            ) && *final(self) == *old(self),
            payer@ != payee@ && transfer is Ok ==> {
                let signers = AccountSigners { payee, payer, resolver: None };
                &&& r is Ok
                &&& final(self).allowed_signers_of(payer@) == Some(signers)
                &&& forall|p: Seq<u8>|
                    p != payer@ ==> #[trigger] final(self).allowed_signers_of(p)
                        == old(self).allowed_signers_of(p)
                &&& forall|id: Seq<u8>|
                    #[trigger] final(self).is_registered(id) == (old(self).is_registered(id)
                        || id == multi_id_of(signers))
                &&& final(self).calls_view() == old(self).calls_view()
                &&& exists|m: AccountId|
                    m@ == multi_id_of(signers) && final(self).events_view()
                        == old(self).events_view() + opening_events(m, payer, now)
            },
    {
        if ids_equal(&payer, &payee) {
            return Err(EscrowError::SamePayerAndPayee);
        }
        match transfer {
            Err(e) => Err(EscrowError::Transfer(e)),
            Ok(()) => {
                let accounts = AccountSigners::new(payee, payer, None);
                let multi_id = derive_multi_id(accounts);
                self.allowed_signers.push(accounts);
                self.events.push(Event::MultiAccountCreated { account_id: multi_id, timestamp: now });
                self.events.push(
                    Event::BalanceTransferredAndLocked { to_multi_id: multi_id, from: payer, timestamp: now },
                );
                assert(self.events_view() =~= old(self).events_view() + opening_events(multi_id, payer, now));
                let ghost mid = *self;
                assert(mid.accounts_view() == old(self).accounts_view());
                let _ = self.create_multi_account(multi_id);
                assert forall|id: Seq<u8>|
                    #[trigger] self.is_registered(id) == (old(self).is_registered(id) || id
                        == multi_id@) by {
                    assert(self.is_registered(id) == (mid.is_registered(id) || id == multi_id@));
                    assert(mid.is_registered(id) == old(self).is_registered(id));
                }
                assert forall|p: Seq<u8>|
                    p != payer@ implies #[trigger] self.allowed_signers_of(p)
                        == old(self).allowed_signers_of(p) by {
                    assert(self.signers_view().drop_last() =~= old(self).signers_view());
                }
                Ok(())
            },
        }
    }

    /// The release of an escrow: the entire balance of `allowed_multi_id` to
    /// the payee, and the escrow account may be emptied.
    pub fn release_transfer_request(payee: AccountId, allowed_multi_id: AccountId) -> (r:
        TransferRequest)
        ensures
            r == (TransferRequest {
                from: allowed_multi_id,
                to: payee,
                amount: TransferAmount::All,
                existence: ExistenceRequirement::AllowDeath,
            }),
    {
        TransferRequest {
            from: allowed_multi_id,
            to: payee,
            amount: TransferAmount::All,
            existence: ExistenceRequirement::AllowDeath,
        }
    }

    /// Records a release once the currency has answered the transfer of
    /// `release_transfer_request`. On success one record is appended to the
    /// ledger of `payer` and a notification names `confirmed_multi_id`. On a
    /// refused transfer nothing changes and the one coarse error is returned.
    pub fn dispatch_transfer_call(
        &mut self,
        proof: H256,
        payer: AccountId,
        payee: AccountId,
        allowed_multi_id: AccountId,
        confirmed_multi_id: AccountId,
        transfer: Result<(), TransferError>,
        now: BlockNumber,
    ) -> (r: Result<(), EscrowError>)
        ensures
            transfer is Err ==> r == Err::<(), EscrowError>(EscrowError::MultiSigCallFailed)
                && *final(self) == *old(self),
            transfer is Ok ==> {
                let record = CallExecuted {
                    payer,
                    payee,
                    allowed_multi_id,
                    confirmed_multi_id,
                    proof,
                    time: now,
                };
                &&& r is Ok
                &&& final(self).calls_view() == old(self).calls_view().push(record)
                &&& final(self).multi_txns_of(payer@) == old(self).multi_txns_of(payer@).push(record)
                &&& forall|p: Seq<u8>|
                    p != payer@ ==> #[trigger] final(self).multi_txns_of(p) == old(self).multi_txns_of(p)
                &&& final(self).events_view() == old(self).events_view().push(
                    Event::CallExecuted { multi_id: confirmed_multi_id, timestamp: now },
                )
                &&& final(self).signers_view() == old(self).signers_view()
                &&& final(self).accounts_view() == old(self).accounts_view()
            },
    {
        match transfer {
            Err(_) => Err(EscrowError::MultiSigCallFailed),
            Ok(()) => {
                let record = CallExecuted::new(
                    payer,
                    payee,
                    allowed_multi_id,
                    confirmed_multi_id,
                    proof,
                    now,
                );
                self.multi_txns.push(record);
                self.events.push(Event::CallExecuted { multi_id: confirmed_multi_id, timestamp: now });
                assert(self.calls_view().drop_last() =~= old(self).calls_view());
                Ok(())
            },
        }
    }
}

/// The ledger is append-only: when one log of releases extends another, the
/// releases of every payer in the first are a prefix of those in the second.
pub proof fn lemma_ledger_append_only(a: Seq<CallExecuted>, b: Seq<CallExecuted>, payer: Seq<u8>)
    requires
        a.is_prefix_of(b),
    ensures
        calls_of(a, payer).is_prefix_of(calls_of(b, payer)),
    decreases b.len(),
{
    if b.len() == a.len() {
        assert(a =~= b);
    } else {
        let c = b.drop_last();
        assert(a.is_prefix_of(c)) by {
            assert(c.subrange(0, a.len() as int) =~= b.subrange(0, a.len() as int));
        }
        lemma_ledger_append_only(a, c, payer);
        let ca = calls_of(a, payer);
        let cc = calls_of(c, payer);
        if b.last().payer@ == payer {
            assert(calls_of(b, payer).subrange(0, ca.len() as int) =~= cc.subrange(0, ca.len() as int));
        }
    }
}

/// A successful release strictly grows its payer's ledger and keeps every
/// earlier entry in place.
pub proof fn lemma_release_grows_ledger(before: EscrowStore, after: EscrowStore, payer: Seq<u8>, record: CallExecuted)
    requires
        record.payer@ == payer,
        after.calls_view() == before.calls_view().push(record),
    ensures
        before.multi_txns_of(payer).is_prefix_of(after.multi_txns_of(payer)),
        after.multi_txns_of(payer).len() == before.multi_txns_of(payer).len() + 1,
        after.multi_txns_of(payer).last() == record,
{
    assert(after.calls_view().drop_last() =~= before.calls_view());
    assert(before.calls_view().is_prefix_of(after.calls_view()));
    lemma_ledger_append_only(before.calls_view(), after.calls_view(), payer);
}

} // verus!
