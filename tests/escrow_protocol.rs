use multisig_payment::{
    derivation_input, derive_multi_id, ids_equal, AccountId, AccountSigners, CallExecuted, Confirm,
    EscrowError, EscrowStore, Event, ExistenceRequirement, PayeeReason, Resolver, ResolverChoice,
    RevertReasons, TransferAmount, TransferError, TransferRequest,
};
use std::collections::{HashMap, HashSet};

fn id(n: u8) -> AccountId {
    [n; 32]
}

fn id_from(n: u32) -> AccountId {
    let mut a = [0u8; 32];
    a[..4].copy_from_slice(&n.to_le_bytes());
    a
}

const TAG: &[u8] = b"vane/salt";

fn concat(parts: &[&[u8]]) -> Vec<u8> {
    let mut out = Vec::new();
    for p in parts {
        out.extend_from_slice(p);
    }
    out
}

#[test]
fn signers_new_and_getters() {
    let s = AccountSigners::new(id(1), id(2), Some(Resolver::LegalTeam(id(3))));
    assert_eq!(*s.get_payee(), id(1));
    assert_eq!(*s.get_payer(), id(2));
    assert_eq!(*s.get_resolver(), Some(Resolver::LegalTeam(id(3))));
    assert_eq!(s.get_legal_account(), Some(&id(3)));
}

#[test]
fn legal_account_only_for_legal_team() {
    assert_eq!(AccountSigners::new(id(1), id(2), None).get_legal_account(), None);
    let g = AccountSigners::new(id(1), id(2), Some(Resolver::Governance));
    assert_eq!(g.get_legal_account(), None);
    let b = AccountSigners::new(id(1), id(2), Some(Resolver::Both(id(3))));
    assert_eq!(b.get_legal_account(), None);
}

#[test]
fn derivation_input_without_resolver() {
    let s = AccountSigners::new(id(1), id(2), None);
    let input = derivation_input(&s);
    assert_eq!(input.len(), 73);
    assert_eq!(input, concat(&[TAG, &id(1), &id(2)]));
}

#[test]
fn derivation_input_with_legal_team() {
    let s = AccountSigners::new(id(1), id(2), Some(Resolver::LegalTeam(id(3))));
    let input = derivation_input(&s);
    assert_eq!(input.len(), 105);
    assert_eq!(input, concat(&[TAG, &id(1), &id(2), &id(3)]));
}

#[test]
fn governance_and_both_derive_as_no_resolver() {
    let none = derive_multi_id(AccountSigners::new(id(1), id(2), None));
    let gov = derive_multi_id(AccountSigners::new(id(1), id(2), Some(Resolver::Governance)));
    let both = derive_multi_id(AccountSigners::new(id(1), id(2), Some(Resolver::Both(id(3)))));
    assert_eq!(none, gov);
    assert_eq!(none, both);
}

#[test]
fn derive_is_blake2_256_of_input() {
    let s = AccountSigners::new(id(7), id(9), None);
    let expected = sp_crypto_hashing::blake2_256(&concat(&[TAG, &id(7), &id(9)]));
    let derived = derive_multi_id(s);
    assert_eq!(derived, expected);
    assert_ne!(derived.to_vec(), derivation_input(&s)[..32].to_vec());
}

#[test]
fn blake2_256_known_value() {
    let empty = sp_crypto_hashing::blake2_256(b"");
    assert_eq!(empty[0], 0x0e);
    assert_eq!(empty[1], 0x57);
    assert_eq!(empty[31], 0xa8);
}

#[test]
fn derive_is_deterministic() {
    for r in [None, Some(Resolver::LegalTeam(id(5))), Some(Resolver::Governance)] {
        let a = derive_multi_id(AccountSigners::new(id(1), id(2), r));
        let b = derive_multi_id(AccountSigners::new(id(1), id(2), r));
        assert_eq!(a, b);
    }
}

#[test]
fn derive_is_order_sensitive() {
    for r in [None, Some(Resolver::LegalTeam(id(5)))] {
        let ab = derive_multi_id(AccountSigners::new(id(1), id(2), r));
        let ba = derive_multi_id(AccountSigners::new(id(2), id(1), r));
        assert_ne!(ab, ba);
    }
}

#[test]
fn derive_is_resolver_sensitive() {
    let with = derive_multi_id(AccountSigners::new(id(1), id(2), Some(Resolver::LegalTeam(id(3)))));
    let without = derive_multi_id(AccountSigners::new(id(1), id(2), None));
    assert_ne!(with, without);
    let other = derive_multi_id(AccountSigners::new(id(1), id(2), Some(Resolver::LegalTeam(id(4)))));
    assert_ne!(with, other);
}

#[test]
fn derive_sample_has_no_collisions() {
    let mut seen = HashSet::new();
    let mut count = 0;
    for a in 0..20u32 {
        for b in 0..20u32 {
            if a == b {
                continue;
            }
            let r1 = derive_multi_id(AccountSigners::new(id_from(a), id_from(b), None));
            let r2 = derive_multi_id(AccountSigners::new(
                id_from(a),
                id_from(b),
                Some(Resolver::LegalTeam(id_from(a + b + 100))),
            ));
            seen.insert(r1);
            seen.insert(r2);
            count += 2;
        }
    }
    assert_eq!(seen.len(), count);
}

#[test]
fn ids_equal_compares_all_bytes() {
    let mut b = id(4);
    assert!(ids_equal(&id(4), &b));
    b[31] = 5;
    assert!(!ids_equal(&id(4), &b));
}

#[test]
fn resolver_choice_maps_to_resolver() {
    assert_eq!(ResolverChoice::LegalTeam.to_resolver(Some(id(3))), Ok(Some(Resolver::LegalTeam(id(3)))));
    assert_eq!(ResolverChoice::LegalTeam.to_resolver(None), Err(EscrowError::MissingLegalAccount));
    assert_eq!(ResolverChoice::Governance.to_resolver(None), Ok(Some(Resolver::Governance)));
    assert_eq!(ResolverChoice::NoResolver.to_resolver(Some(id(3))), Ok(None));
}

#[test]
fn plain_enums_are_distinct() {
    assert_ne!(RevertReasons::WrongPayeeAddress, RevertReasons::ChangeOfDecision);
    assert_ne!(RevertReasons::ChangeOfDecision, RevertReasons::PayeeMisbehaviour);
    assert_eq!(PayeeReason::PayerMisbehaviour, PayeeReason::PayerMisbehaviour);
    assert_ne!(Confirm::Payer, Confirm::Payee);
}

#[test]
fn create_multi_account_is_idempotent() {
    let mut store = EscrowStore::new();
    assert!(!store.account_exists(&id(8)));
    assert_eq!(store.create_multi_account(id(8)), Ok(()));
    assert!(store.account_exists(&id(8)));
    let snapshot = store.clone();
    assert_eq!(store.create_multi_account(id(8)), Ok(()));
    assert_eq!(store, snapshot);
}

/// A balance book standing in for the currency, to follow the funds.
fn apply(balances: &mut HashMap<AccountId, u128>, req: &TransferRequest) {
    let from = *balances.get(&req.from).unwrap_or(&0);
    let moved = match req.amount {
        TransferAmount::Exact(a) => a,
        TransferAmount::All => from,
    };
    balances.insert(req.from, from - moved);
    *balances.entry(req.to).or_insert(0) += moved;
}

#[test]
fn open_without_resolver_scenario() {
    let (p, q) = (id(1), id(2));
    let x = derive_multi_id(AccountSigners::new(q, p, None));
    let req = EscrowStore::open_transfer_request(p, q, 100).unwrap();
    assert_eq!(
        req,
        TransferRequest { from: p, to: x, amount: TransferAmount::Exact(100), existence: ExistenceRequirement::KeepAlive }
    );
    let mut balances = HashMap::new();
    balances.insert(p, 1000u128);
    apply(&mut balances, &req);
    assert_eq!(balances[&p], 900);
    assert_eq!(balances[&x], 100);

    let mut store = EscrowStore::new();
    assert_eq!(store.inner_vane_pay_wo_resolver(p, q, Ok(()), 7), Ok(()));
    assert_eq!(store.get_allowed_signers(&p), Some(AccountSigners::new(q, p, None)));
    assert!(store.account_exists(&x));
    assert_eq!(
        *store.events(),
        vec![
            Event::MultiAccountCreated { account_id: x, timestamp: 7 },
            Event::BalanceTransferredAndLocked { to_multi_id: x, from: p, timestamp: 7 },
        ]
    );
}

#[test]
fn open_failure_changes_nothing() {
    let mut store = EscrowStore::new();
    store.inner_vane_pay_wo_resolver(id(1), id(2), Ok(()), 3).unwrap();
    let snapshot = store.clone();
    let r = store.inner_vane_pay_wo_resolver(id(5), id(6), Err(TransferError::InsufficientBalance), 4);
    assert_eq!(r, Err(EscrowError::Transfer(TransferError::InsufficientBalance)));
    assert_eq!(store, snapshot);
    assert_eq!(store.get_allowed_signers(&id(5)), None);
    assert!(!store.account_exists(&derive_multi_id(AccountSigners::new(id(6), id(5), None))));
}

#[test]
fn reopen_replaces_signer_record() {
    let mut store = EscrowStore::new();
    store.inner_vane_pay_wo_resolver(id(1), id(2), Ok(()), 1).unwrap();
    store.inner_vane_pay_wo_resolver(id(1), id(3), Ok(()), 2).unwrap();
    assert_eq!(store.get_allowed_signers(&id(1)), Some(AccountSigners::new(id(3), id(1), None)));
    assert_eq!(store.events().len(), 4);
}

#[test]
fn release_scenario() {
    let (p, q) = (id(1), id(2));
    let x = derive_multi_id(AccountSigners::new(q, p, None));
    let y = id(99);
    let proof = id(42);
    let req = EscrowStore::release_transfer_request(q, x);
    assert_eq!(
        req,
        TransferRequest { from: x, to: q, amount: TransferAmount::All, existence: ExistenceRequirement::AllowDeath }
    );
    let mut balances = HashMap::new();
    balances.insert(x, 100u128);
    balances.insert(q, 5u128);
    apply(&mut balances, &req);
    assert_eq!(balances[&x], 0);
    assert_eq!(balances[&q], 105);

    let mut store = EscrowStore::new();
    assert_eq!(store.dispatch_transfer_call(proof, p, q, x, y, Ok(()), 11), Ok(()));
    assert_eq!(store.get_multi_txns(&p), vec![CallExecuted::new(p, q, x, y, proof, 11)]);
    assert_eq!(*store.events(), vec![Event::CallExecuted { multi_id: y, timestamp: 11 }]);
}

#[test]
fn release_failure_is_coarse_and_changes_nothing() {
    let mut store = EscrowStore::new();
    let snapshot = store.clone();
    let r = store.dispatch_transfer_call(id(42), id(1), id(2), id(3), id(3), Err(TransferError::Expendability), 1);
    assert_eq!(r, Err(EscrowError::MultiSigCallFailed));
    assert_eq!(store, snapshot);
}

#[test]
fn ledger_only_grows() {
    let mut store = EscrowStore::new();
    let (p, q) = (id(1), id(2));
    store.dispatch_transfer_call(id(40), p, q, id(3), id(3), Ok(()), 1).unwrap();
    store.dispatch_transfer_call(id(41), id(7), q, id(4), id(4), Ok(()), 2).unwrap();
    let first = store.get_multi_txns(&p);
    store.dispatch_transfer_call(id(42), p, q, id(3), id(5), Ok(()), 3).unwrap();
    let second = store.get_multi_txns(&p);
    assert_eq!(first.len(), 1);
    assert_eq!(second.len(), 2);
    assert_eq!(second[..1], first[..]);
    assert_eq!(second[1], CallExecuted::new(p, q, id(3), id(5), id(42), 3));
    assert_eq!(store.get_multi_txns(&id(7)).len(), 1);
}

#[test]
fn opening_to_oneself_is_refused() {
    assert_eq!(EscrowStore::open_transfer_request(id(1), id(1), 10), Err(EscrowError::SamePayerAndPayee));
    let mut store = EscrowStore::new();
    let snapshot = store.clone();
    assert_eq!(store.inner_vane_pay_wo_resolver(id(1), id(1), Ok(()), 2), Err(EscrowError::SamePayerAndPayee));
    assert_eq!(store, snapshot);
}
