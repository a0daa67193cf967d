use vstd::prelude::*;

verus! {

/// A party of the ledger: an opaque 32-byte identifier.
pub type AccountId = [u8; 32];

/// A 256-bit content hash.
pub type H256 = [u8; 32];

/// Ledger time, counted in blocks.
pub type BlockNumber = u64;

/// An amount of the ledger's currency.
pub type Balance = u128;

/// How a dispute over an escrow is settled.
#[derive(Clone, Copy, Debug, PartialEq, Eq)]
pub enum Resolver {
    /// A designated third party may authorize release.
    LegalTeam(AccountId),
    /// Settled by an outside vote.
    Governance,
    /// Reserved for dual authorization; it is not read as a legal account.
    Both(AccountId),
}

/// The resolver policy a caller selects when an escrow is opened.
#[derive(Clone, Copy, Debug, PartialEq, Eq)]
pub enum ResolverChoice {
    LegalTeam,
    Governance,
    NoResolver,
}

/// Who may release the funds of one escrow.
#[derive(Clone, Copy, Debug, PartialEq, Eq)]
pub struct AccountSigners {
    pub payee: AccountId,
    pub payer: AccountId,
    pub resolver: Option<Resolver>,
}

/// The legal account that a resolver names: only `LegalTeam` names one.
pub open spec fn legal_account_of(resolver: Option<Resolver>) -> Option<AccountId> {
    match resolver {
        Some(Resolver::LegalTeam(account)) => Some(account),
        _ => None,
    }
}

impl AccountSigners {
    pub fn new(payee: AccountId, payer: AccountId, resolver: Option<Resolver>) -> (r: Self)
        ensures
            r.payee == payee,
            r.payer == payer,
            r.resolver == resolver,
    {
        AccountSigners { payee, payer, resolver }
    }

    pub fn get_payer(&self) -> (r: &AccountId)
        ensures
            *r == self.payer,
    {
        &self.payer
    }

    pub fn get_payee(&self) -> (r: &AccountId)
        ensures
            *r == self.payee,
    {
        &self.payee
    }

    pub fn get_resolver(&self) -> (r: &Option<Resolver>)
        ensures
            *r == self.resolver,
    {
        &self.resolver
    }

    /// The account of a `LegalTeam` resolver; `None` for every other policy.
    pub fn get_legal_account(&self) -> (r: Option<&AccountId>)
        ensures
            r.is_some() == legal_account_of(self.resolver).is_some(),
            r.is_some() ==> *r.unwrap() == legal_account_of(self.resolver).unwrap(),
    {
        if let Some(Resolver::LegalTeam(account)) = &self.resolver {
            Some(account)
        } else {
            None
        }
    }
}

/// The audit record of one executed release.
#[derive(Clone, Copy, Debug, PartialEq, Eq)]
pub struct CallExecuted {
    pub payer: AccountId,
    pub payee: AccountId,
    /// The escrow account that gave up its funds.
    pub allowed_multi_id: AccountId,
    /// The escrow account that confirmation named; kept as given.
    pub confirmed_multi_id: AccountId,
    pub proof: H256,
    pub time: BlockNumber,
}

impl CallExecuted {
    pub fn new(
        payer: AccountId,
        payee: AccountId,
        allowed_multi_id: AccountId,
        confirmed_multi_id: AccountId,
        proof: H256,
        time: BlockNumber,
    ) -> (r: Self)
        ensures
            r == (CallExecuted {
                payer,
                payee,
                allowed_multi_id,
                confirmed_multi_id,
                proof,
                time,
            }),
    {
        CallExecuted { payer, payee, allowed_multi_id, confirmed_multi_id, proof, time }
    }
}

/// Why a deposited escrow goes back to the payer.
#[derive(Clone, Copy, Debug, PartialEq, Eq)]
pub enum RevertReasons {
    WrongPayeeAddress,
    ChangeOfDecision,
    PayeeMisbehaviour,
}

/// The payee's reason to force a release.
#[derive(Clone, Copy, Debug, PartialEq, Eq)]
pub enum PayeeReason {
    PayerMisbehaviour,
}

/// The party that confirms a release.
#[derive(Clone, Copy, Debug, PartialEq, Eq)]
pub enum Confirm {
    Payer,
    Payee,
}

/// Why the currency refused a transfer.
#[derive(Clone, Copy, Debug, PartialEq, Eq)]
pub enum TransferError {
    InsufficientBalance,
    /// The sender would fall below the balance that keeps it alive.
    Expendability,
    Overflow,
    Other,
}

/// The errors of the escrow protocol.
#[derive(Clone, Copy, Debug, PartialEq, Eq)]
pub enum EscrowError {
    /// The opening deposit failed; the currency's reason is kept.
    Transfer(TransferError),
    /// The release transfer failed, for whatever reason.
    MultiSigCallFailed,
    /// A `LegalTeam` policy was chosen without naming the legal account.
    MissingLegalAccount,
    /// The payer and the payee of an escrow are the same account.
    SamePayerAndPayee,
}

/// The resolver policy that a choice stands for.
pub open spec fn resolver_of_choice(choice: ResolverChoice, legal: Option<AccountId>) -> Result<
    Option<Resolver>,
    EscrowError,
> {
    match choice {
        ResolverChoice::LegalTeam => match legal {
            Some(account) => Ok(Some(Resolver::LegalTeam(account))),
            None => Err(EscrowError::MissingLegalAccount),
        },
        ResolverChoice::Governance => Ok(Some(Resolver::Governance)),
        ResolverChoice::NoResolver => Ok(None),
    }
}

impl ResolverChoice {
    /// The resolver policy this choice selects; a legal team needs its account.
    pub fn to_resolver(&self, legal: Option<AccountId>) -> (r: Result<Option<Resolver>, EscrowError>)
        ensures
            r == resolver_of_choice(*self, legal),
    {
        match self {
            ResolverChoice::LegalTeam => match legal {
                Some(account) => Ok(Some(Resolver::LegalTeam(account))),
                None => Err(EscrowError::MissingLegalAccount),
            },
            ResolverChoice::Governance => Ok(Some(Resolver::Governance)),
            ResolverChoice::NoResolver => Ok(None),
        }
    }
}

} // verus!
