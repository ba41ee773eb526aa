//! The permit verifier. A permit is an externally signed credential: its
//! parameters name the deployment instances it applies to, and its signature
//! material lets the signer identity be recovered. Verification runs three
//! checks, fail-fast: the deployment-instance binding, the revocation
//! ledger, and the cryptographic signature.
//!
//! The instance and revocation checks are plain logic and verified here. The
//! cryptography is supplied by outside crates through the trusted wrappers at
//! the bottom of this file, each with its result named by an uninterpreted
//! spec function; the verifier itself is verified against those names.

use crate::error::PermitError;
use crate::state::contains_string;
use crate::state::seq_contains_string;
use bech32::ToBase32;
use vstd::prelude::*;

verus! {

/// A permission class carried by a permit. The store's own gate ignores the
/// class; it is part of the signed parameters, so it takes part in signature
/// verification.
#[derive(Clone, Copy, Debug, PartialEq, Eq, Structural)]
pub enum Permission {
    Allowance,
    Balance,
    History,
    Owner,
}

/// The signer's public key: its wire-format tag and its raw bytes.
#[derive(Clone, Debug)]
pub struct PubKey {
    pub key_type: String,
    pub value: Vec<u8>,
}

/// The signature material of a permit.
#[derive(Clone, Debug)]
pub struct PermitSignature {
    pub pub_key: PubKey,
    pub signature: Vec<u8>,
}

/// The signed parameters of a permit: the deployment instances it applies
/// to, its name (the revocation identifier), the chain it was signed for,
/// and the permission classes it grants.
#[derive(Clone, Debug)]
pub struct PermitParams {
    pub allowed_tokens: Vec<String>,
    pub permit_name: String,
    pub chain_id: String,
    pub permissions: Vec<Permission>,
}

/// An externally constructed, signed credential presented at query time.
#[derive(Clone, Debug)]
pub struct Permit {
    pub params: PermitParams,
    pub signature: PermitSignature,
}

/// The canonical signing document derived from a permit's parameters.
pub uninterp spec fn sign_doc_of(
    allowed_tokens: Seq<Seq<char>>,
    permit_name: Seq<char>,
    chain_id: Seq<char>,
    permissions: Seq<Permission>,
) -> Seq<u8>;

/// The SHA-256 digest of `data`.
pub uninterp spec fn sha256_of(data: Seq<u8>) -> Seq<u8>;

/// Whether `signature` is a valid secp256k1 ECDSA signature by `public_key`
/// over the 32-byte `message_hash`; malformed inputs count as invalid.
pub uninterp spec fn secp256k1_valid(
    message_hash: Seq<u8>,
    signature: Seq<u8>,
    public_key: Seq<u8>,
) -> bool;

/// The bech32 account address derived from a secp256k1 public key.
pub uninterp spec fn account_of(public_key: Seq<u8>) -> Seq<char>;

/// The signing document of `params`, over the named result of the wrapper.
pub open spec fn spec_sign_doc(params: PermitParams) -> Seq<u8> {
    sign_doc_of(
        params.allowed_tokens.deep_view(),
        params.permit_name@,
        params.chain_id@,
        params.permissions@,
    )
}

/// The identity recovered from a permit's signature material: the signer's
/// account when the signature verifies the signing document, `None`
/// otherwise. A function of the permit alone.
pub open spec fn spec_signer(permit: Permit) -> Option<Seq<char>> {
    if secp256k1_valid(
        sha256_of(spec_sign_doc(permit.params)),
        permit.signature.signature@,
        permit.signature.pub_key.value@,
    ) {
        Some(account_of(permit.signature.pub_key.value@))
    } else {
        None
    }
}

/// The permit applies to the deployment instance named `instance`.
pub open spec fn spec_allows_instance(params: PermitParams, instance: Seq<char>) -> bool {
    seq_contains_string(params.allowed_tokens@, instance)
}

/// Validates `permit` against the deployment instance `expected_instance`
/// and the revocation ledger, and recovers the signer identity. The checks
/// run in order and the first failure wins: instance binding, revocation,
/// signature.
pub fn verify(
    permit: &Permit,
    expected_instance: &String,
    revoked_permits: &Vec<String>,
) -> (r: Result<String, PermitError>)
    ensures
        ({
            let allows = spec_allows_instance(permit.params, expected_instance@);
            let revoked = seq_contains_string(revoked_permits@, permit.params.permit_name@);
            match r {
                Ok(signer) => allows && !revoked && spec_signer(*permit) == Some(signer@),
                Err(e) => match e {
                    PermitError::InstanceMismatch => !allows,
                    PermitError::Revoked => allows && revoked,
                    PermitError::SignatureInvalid => allows && !revoked && spec_signer(*permit) is None,
                },
            }
        }),
{
    if !contains_string(&permit.params.allowed_tokens, expected_instance) {
        return Err(PermitError::InstanceMismatch);
    }
    if contains_string(revoked_permits, &permit.params.permit_name) {
        return Err(PermitError::Revoked);
    }
    let doc = sign_doc_bytes(&permit.params);
    let hash = sha256_bytes(&doc);
    if secp256k1_check(&hash, &permit.signature.signature, &permit.signature.pub_key.value) {
        Ok(pubkey_account(&permit.signature.pub_key.value))
    } else {
        Err(PermitError::SignatureInvalid)
    }
}

/// Relies on secret_toolkit::permit::SignedPermit::from_params and
/// secret_cosmwasm_std::to_binary: the canonical signing document for the given
/// permit parameters, a function of the parameters alone.
#[verifier::external_body]
fn sign_doc_bytes(params: &PermitParams) -> (r: Vec<u8>)
    ensures
        r@ == sign_doc_of(
            params.allowed_tokens.deep_view(),
            params.permit_name@,
            params.chain_id@,
            params.permissions@,
        ),
{
    let permissions = params.permissions.iter().map(|p| match p {
        Permission::Allowance => secret_toolkit::permit::TokenPermissions::Allowance,
        Permission::Balance => secret_toolkit::permit::TokenPermissions::Balance,
        Permission::History => secret_toolkit::permit::TokenPermissions::History,
        Permission::Owner => secret_toolkit::permit::TokenPermissions::Owner,
    }).collect();
    let tk = secret_toolkit::permit::PermitParams {
        allowed_tokens: params.allowed_tokens.clone(),
        permit_name: params.permit_name.clone(),
        chain_id: params.chain_id.clone(),
        permissions,
    };
    secret_cosmwasm_std::to_binary(&secret_toolkit::permit::SignedPermit::from_params(&tk))
        .map(|b| b.0).unwrap_or_default()
}

/// Relies on secret_toolkit::crypto::sha_256: the SHA-256 digest of the
/// input bytes.
#[verifier::external_body]
fn sha256_bytes(data: &Vec<u8>) -> (r: Vec<u8>)
    ensures
        r@ == sha256_of(data@),
{
    secret_toolkit::crypto::sha_256(data.as_slice()).to_vec()
}

/// Relies on secret_cosmwasm_crypto::secp256k1_verify: ECDSA verification of
/// a 32-byte message hash against a compact signature and a public key; an
/// error for a malformed input counts as failed verification.
#[verifier::external_body]
fn secp256k1_check(message_hash: &Vec<u8>, signature: &Vec<u8>, public_key: &Vec<u8>) -> (r: bool)
    ensures
        r == secp256k1_valid(message_hash@, signature@, public_key@),
{
    secret_cosmwasm_crypto::secp256k1_verify(
        message_hash.as_slice(),
        signature.as_slice(),
        public_key.as_slice(),
    ).unwrap_or(false)
}

/// Relies on secret_toolkit::permit::pubkey_to_account and bech32::encode:
/// the bech32 account address, under the prefix that permit validation
/// defaults to, of the hash of the public key.
#[verifier::external_body]
fn pubkey_account(public_key: &Vec<u8>) -> (r: String)
    ensures
        r@ == account_of(public_key@),
{
    let canonical = secret_toolkit::permit::pubkey_to_account(
        &secret_cosmwasm_std::Binary(public_key.clone()),
    );
    bech32::encode("secret", canonical.0.as_slice().to_base32(), bech32::Variant::Bech32)
        .unwrap_or_default()
}

} // verus!
