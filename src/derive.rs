use vstd::prelude::*;
use crate::types::{AccountId, AccountSigners, Resolver, legal_account_of};
use parity_scale_codec::Encode;

verus! {

/// The domain tag that prefixes every derivation: the bytes of `vane/salt`.
pub open spec fn domain_tag_bytes() -> Seq<u8> {
    seq![118u8, 97u8, 110u8, 101u8, 47u8, 115u8, 97u8, 108u8, 116u8]
}

/// The bytes that are hashed to derive the escrow account of `signers`:
/// the domain tag, the payee, the payer and, for a `LegalTeam` resolver only,
/// its account.
pub open spec fn derivation_preimage(signers: AccountSigners) -> Seq<u8> {
    match legal_account_of(signers.resolver) {
        Some(legal) => domain_tag_bytes() + signers.payee@ + signers.payer@ + legal@,
        None => domain_tag_bytes() + signers.payee@ + signers.payer@,
    }
}

/// What BLAKE2b with a 256-bit output gives for `data`.
pub uninterp spec fn blake2_256_of(data: Seq<u8>) -> Seq<u8>;

/// The escrow account derived for `signers`.
pub open spec fn multi_id_of(signers: AccountSigners) -> Seq<u8> {
    blake2_256_of(derivation_preimage(signers))
}

/// Relies on the SCALE `Encode` of a tuple of byte arrays: each array's bytes
/// in order, with no length prefix.
#[verifier::external_body]
fn encode_tagged_pair(tag: &[u8; 9], first: &AccountId, second: &AccountId) -> (r: Vec<u8>)
    ensures
        r@ == tag@ + first@ + second@,
{
    (tag, first, second).encode()
}

/// Relies on the SCALE `Encode` of a tuple of byte arrays: each array's bytes
/// in order, with no length prefix.
#[verifier::external_body]
fn encode_tagged_triple(
    tag: &[u8; 9],
    first: &AccountId,
    second: &AccountId,
    third: &AccountId,
) -> (r: Vec<u8>)
    ensures
        r@ == tag@ + first@ + second@ + third@,
{
    (tag, first, second, third).encode()
}

/// Relies on `sp_io::hashing::blake2_256`: the 32-byte BLAKE2b digest of `data`,
/// which depends on `data` alone.
#[verifier::external_body]
fn hash_blake2_256(data: &Vec<u8>) -> (r: [u8; 32])
    ensures
        r@ == blake2_256_of(data@),
{
    sp_io::hashing::blake2_256(data.as_slice())
}

fn domain_tag() -> (r: [u8; 9])
    ensures
        r@ == domain_tag_bytes(),
{
    let tag: [u8; 9] = [118, 97, 110, 101, 47, 115, 97, 108, 116];
    assert(tag@ =~= domain_tag_bytes());
    tag
}

/// The bytes hashed to derive the escrow account of `account_object`.
pub fn derivation_input(account_object: &AccountSigners) -> (r: Vec<u8>)
    ensures
        r@ == derivation_preimage(*account_object),
{
    let tag = domain_tag();
    match account_object.get_legal_account() {
        Some(legal) => encode_tagged_triple(
            &tag,
            account_object.get_payee(),
            account_object.get_payer(),
            legal,
        ),
        None => encode_tagged_pair(&tag, account_object.get_payee(), account_object.get_payer()),
    }
}

/// Derives the escrow account of `account_object`. Every 256-bit digest is a
/// valid account identifier, so the digest is the account itself.
pub fn derive_multi_id(account_object: AccountSigners) -> (r: AccountId)
    ensures
        r@ == multi_id_of(account_object),
{
    let input = derivation_input(&account_object);
    hash_blake2_256(&input)
}

/// Derivation is deterministic: equal signer records give equal escrow accounts.
pub proof fn lemma_derive_deterministic(a: AccountSigners, b: AccountSigners)
    requires
        a == b,
    ensures
        derivation_preimage(a) == derivation_preimage(b),
        multi_id_of(a) == multi_id_of(b),
{
}

/// Swapping two distinct parties changes the bytes that are hashed, whatever
/// the resolver.
pub proof fn lemma_preimage_order_sensitive(a: AccountId, b: AccountId, resolver: Option<Resolver>)
    requires
        a@ != b@,
    ensures
        derivation_preimage(AccountSigners { payee: a, payer: b, resolver })
            != derivation_preimage(AccountSigners { payee: b, payer: a, resolver }),
{
    let ab = derivation_preimage(AccountSigners { payee: a, payer: b, resolver });
    let ba = derivation_preimage(AccountSigners { payee: b, payer: a, resolver });
    assert(ab.subrange(9, 41) =~= a@);
    assert(ba.subrange(9, 41) =~= b@);
}

/// A legal-team resolver changes the bytes that are hashed: the preimage with
/// it is longer than the one without a resolver.
pub proof fn lemma_preimage_resolver_sensitive(a: AccountId, b: AccountId, c: AccountId)
    ensures
        derivation_preimage(
            AccountSigners { payee: a, payer: b, resolver: Some(Resolver::LegalTeam(c)) },
        ) != derivation_preimage(AccountSigners { payee: a, payer: b, resolver: None }),
        derivation_preimage(
            AccountSigners { payee: a, payer: b, resolver: Some(Resolver::LegalTeam(c)) },
        ).len() == 105,
        derivation_preimage(AccountSigners { payee: a, payer: b, resolver: None }).len() == 73,
{
}

/// Distinct parties or legal accounts give distinct preimages: the preimage
/// determines the payee, the payer and the legal account.
pub proof fn lemma_preimage_injective(s: AccountSigners, t: AccountSigners)
    requires
        derivation_preimage(s) == derivation_preimage(t),
    ensures
        s.payee == t.payee,
        s.payer == t.payer,
        legal_account_of(s.resolver) == legal_account_of(t.resolver),
{
    let p = derivation_preimage(s);
    assert(p.subrange(9, 41) =~= s.payee@);
    assert(p.subrange(9, 41) =~= t.payee@);
    assert(p.subrange(41, 73) =~= s.payer@);
    assert(p.subrange(41, 73) =~= t.payer@);
    assert(s.payee@ == t.payee@);
    assert(s.payer@ == t.payer@);
    assert(s.payee =~= t.payee);
    assert(s.payer =~= t.payer);
    if legal_account_of(s.resolver).is_some() || legal_account_of(t.resolver).is_some() {
        assert(p.len() == 105);
        let ls = legal_account_of(s.resolver).unwrap();
        let lt = legal_account_of(t.resolver).unwrap();
        assert(p.subrange(73, 105) =~= ls@);
        assert(p.subrange(73, 105) =~= lt@);
        assert(ls =~= lt);
    }
}

} // verus!
