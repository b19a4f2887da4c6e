//! Authorisation of kernel upgrades.
//!
//! An upgrade is accepted when it was signed with the dictator key. What is
//! signed is the Keccak-256 digest of an Ethereum personal message: a fixed
//! prefix followed by the smart rollup address, the upgrade nonce and the
//! preimage hash of the new kernel. Binding all three keeps an upgrade from
//! being replayed, from being sent to another rollup with the same dictator,
//! and from being altered.
//!
//! Recovering the signer's address from a signature is elliptic-curve work
//! that callers do. This module says what to recover it from
//! ([`recovery_request`]) and judges the address that comes back
//! ([`check_dictator_signature`]).

use primitive_types::H160;
use sha3::{Digest, Keccak256};
use std::str::FromStr;
use tezos_smart_rollup_core::PREIMAGE_HASH_SIZE;
use vstd::prelude::*;

verus! {

/// Address of the dictator key, in hexadecimal.
pub const DICTATOR_PUBLIC_KEY: &'static str = "6ce4d79d4E77402e1ef3417Fdda433aA744C6e1c";

/// Length of a signature: `r` and `s` of 32 bytes each, then `v`.
pub const SIGNATURE_HASH_SIZE: usize = 65;

/// Length of an upgrade nonce.
pub const UPGRADE_NONCE_SIZE: usize = 4;

/// Length of a smart rollup address, and of the address of a key.
pub const ADDRESS_SIZE: usize = 20;

/// Length of a Keccak-256 digest.
pub const DIGEST_SIZE: usize = 32;

/// Length of the prefix of a signed message.
pub const MESSAGE_PREFIX_SIZE: usize = 28;

/// Why an upgrade was refused.
#[derive(Clone, Copy, PartialEq, Eq, Debug)]
pub enum Error {
    /// A value did not have the form it must have.
    InvalidConversion,
    /// No signer could be recovered from the signature.
    InvalidSignature,
    /// The signer is not the dictator.
    InvalidSignatureCheck,
}

/// What the signer of an upgrade is recovered from: the digest that was
/// signed and the three parts of the signature.
pub struct RecoveryRequest {
    pub digest: [u8; DIGEST_SIZE],
    pub r: [u8; 32],
    pub s: [u8; 32],
    pub v: u8,
}

/// The Keccak-256 digest of `data`: 32 bytes.
pub uninterp spec fn keccak256(data: Seq<u8>) -> Seq<u8>;

/// The 20 bytes that a hexadecimal address denotes, if it is one.
pub uninterp spec fn h160_from_str(text: Seq<char>) -> Option<Seq<u8>>;

/// The prefix of a signed message: the bytes of
/// `"\x19Ethereum Signed Message:\n57"`, where 57 is the length of what
/// follows it.
pub open spec fn message_prefix() -> Seq<u8> {
    seq![
        0x19u8, 0x45, 0x74, 0x68, 0x65, 0x72, 0x65, 0x75, 0x6d, 0x20, 0x53, 0x69, 0x67, 0x6e,
        0x65, 0x64, 0x20, 0x4d, 0x65, 0x73, 0x73, 0x61, 0x67, 0x65, 0x3a, 0x0a, 0x35, 0x37,
    ]
}

/// The message that the dictator signs for an upgrade.
pub open spec fn spec_signed_message(
    smart_rollup_address: Seq<u8>,
    upgrade_nonce: Seq<u8>,
    preimage_hash: Seq<u8>,
) -> Seq<u8> {
    message_prefix() + smart_rollup_address + upgrade_nonce + preimage_hash
}

/// What [`check_caller`] answers.
pub open spec fn verdict(dictator: Option<Seq<u8>>, caller: Result<Seq<u8>, Error>) -> Result<
    (),
    Error,
> {
    match dictator {
        None => Err(Error::InvalidConversion),
        Some(dictator) => match caller {
            Err(error) => Err(error),
            Ok(caller) => if caller == dictator {
                Ok(())
            } else {
                Err(Error::InvalidSignatureCheck)
            },
        },
    }
}

/// The view of a recovered caller.
pub open spec fn caller_view(caller: Result<[u8; ADDRESS_SIZE], Error>) -> Result<Seq<u8>, Error> {
    match caller {
        Ok(address) => Ok(address@),
        Err(error) => Err(error),
    }
}

/// The view of a parsed address.
pub open spec fn address_view(address: Option<[u8; ADDRESS_SIZE]>) -> Option<Seq<u8>> {
    match address {
        Some(address) => Some(address@),
        None => None,
    }
}

/// Calls `Keccak256::digest` of the crate `sha3`, which hashes the whole of
/// `data` in one go. The contract only names the result: the digest is a
/// function of the bytes of `data`.
#[verifier::external_body]
fn keccak256_digest(data: &Vec<u8>) -> (digest: [u8; DIGEST_SIZE])
    ensures
        digest@ == keccak256(data@),
{
    Keccak256::digest(data).into()
}

/// Calls `H160::from_str` of the crate `primitive_types`, which reads 40
/// hexadecimal digits, with or without `0x` before them, as 20 bytes and
/// fails on anything else. The contract only names the result: what comes
/// back is a function of the characters of `text`.
#[verifier::external_body]
fn parse_h160(text: &str) -> (address: Option<[u8; ADDRESS_SIZE]>)
    ensures
        address_view(address) == h160_from_str(text@),
{
    match H160::from_str(text) {
        Ok(hash) => Some(hash.0),
        Err(_) => None,
    }
}

/// Append `bytes` to `out`.
fn append<const N: usize>(out: &mut Vec<u8>, bytes: &[u8; N])
    ensures
        final(out)@ == old(out)@ + bytes@,
{
    let mut i: usize = 0;
    while i < N
        invariant
            i <= N,
            out@ == old(out)@ + bytes@.subrange(0, i as int),
        decreases N - i,
    {
        out.push(bytes[i]);
        i = i + 1;
    }
    assert(bytes@.subrange(0, N as int) =~= bytes@);
}

/// The message that the dictator signs for an upgrade: the prefix, then the
/// smart rollup address, the upgrade nonce and the preimage hash.
pub fn signed_message(
    smart_rollup_address: &[u8; ADDRESS_SIZE],
    upgrade_nonce: &[u8; UPGRADE_NONCE_SIZE],
    preimage_hash: &[u8; PREIMAGE_HASH_SIZE],
) -> (message: Vec<u8>)
    ensures
        message@ == spec_signed_message(smart_rollup_address@, upgrade_nonce@, preimage_hash@),
        message@.len() == 85,
{
    // smart_rollup_address length + upgrade_nonce length + preimage_hash length = 57
    let prefix: [u8; MESSAGE_PREFIX_SIZE] = [
        0x19, 0x45, 0x74, 0x68, 0x65, 0x72, 0x65, 0x75, 0x6d, 0x20, 0x53, 0x69, 0x67, 0x6e,
        0x65, 0x64, 0x20, 0x4d, 0x65, 0x73, 0x73, 0x61, 0x67, 0x65, 0x3a, 0x0a, 0x35, 0x37,
    ];
    assert(prefix@ =~= message_prefix());
    let mut signed_msg: Vec<u8> = Vec::new();
    append(&mut signed_msg, &prefix);
    append(&mut signed_msg, smart_rollup_address);
    append(&mut signed_msg, upgrade_nonce);
    append(&mut signed_msg, preimage_hash);
    signed_msg
}

/// Bytes `start .. start + 32` of a signature.
fn signature_part(sig: &[u8; SIGNATURE_HASH_SIZE], start: usize) -> (part: [u8; 32])
    requires
        start + 32 <= SIGNATURE_HASH_SIZE,
    ensures
        part@ == sig@.subrange(start as int, start + 32),
{
    let mut part: [u8; 32] = [0; 32];
    let mut i: usize = 0;
    while i < 32
        invariant
            i <= 32,
            start + 32 <= SIGNATURE_HASH_SIZE,
            forall|k: int| 0 <= k < i ==> part@[k] == sig@[start + k],
        decreases 32 - i,
    {
        part[i] = sig[start + i];
        i = i + 1;
    }
    assert(part@ =~= sig@.subrange(start as int, start + 32));
    part
}

/// What the signer of an upgrade is to be recovered from.
///
/// The signature is split into `r` (its first 32 bytes), `s` (the next 32)
/// and `v` (the last one); the digest is that of the signed message.
pub fn recovery_request(
    sig: [u8; SIGNATURE_HASH_SIZE],
    smart_rollup_address: [u8; ADDRESS_SIZE],
    upgrade_nonce: [u8; UPGRADE_NONCE_SIZE],
    preimage_hash: [u8; PREIMAGE_HASH_SIZE],
) -> (request: RecoveryRequest)
    ensures
        request.r@ == sig@.subrange(0, 32),
        request.s@ == sig@.subrange(32, 64),
        request.v == sig@[64],
        request.digest@ == keccak256(
            spec_signed_message(smart_rollup_address@, upgrade_nonce@, preimage_hash@),
        ),
{
    let r: [u8; 32] = signature_part(&sig, 0);
    let s: [u8; 32] = signature_part(&sig, 32);
    let v: u8 = sig[64];
    let signed_msg: Vec<u8> = signed_message(&smart_rollup_address, &upgrade_nonce, &preimage_hash);
    let digest: [u8; DIGEST_SIZE] = keccak256_digest(&signed_msg);
    RecoveryRequest { digest, r, s, v }
}

/// Whether two addresses hold the same bytes.
fn same_address(left: &[u8; ADDRESS_SIZE], right: &[u8; ADDRESS_SIZE]) -> (same: bool)
    ensures
        same == (left@ == right@),
{
    let mut i: usize = 0;
    while i < ADDRESS_SIZE
        invariant
            i <= ADDRESS_SIZE,
            forall|k: int| 0 <= k < i ==> left@[k] == right@[k],
        decreases ADDRESS_SIZE - i,
    {
        if left[i] != right[i] {
            return false;
        }
        i = i + 1;
    }
    assert(left@ =~= right@);
    true
}

/// Judge a recovered caller against the dictator's address.
///
/// A dictator address that could not be read is `InvalidConversion`, whatever
/// the caller. Else a failed recovery is handed on as it is, the dictator's
/// own address is accepted, and any other is `InvalidSignatureCheck`.
pub fn check_caller(
    dictator: Option<[u8; ADDRESS_SIZE]>,
    caller: Result<[u8; ADDRESS_SIZE], Error>,
) -> (result: Result<(), Error>)
    ensures
        result == verdict(address_view(dictator), caller_view(caller)),
{
    match dictator {
        None => Err(Error::InvalidConversion),
        Some(dictator_pkh) => match caller {
            Err(error) => Err(error),
            Ok(caller) => if same_address(&dictator_pkh, &caller) {
                Ok(())
            } else {
                Err(Error::InvalidSignatureCheck)
            },
        },
    }
}

/// Accept an upgrade exactly when the caller recovered from its signature is
/// the dictator.
pub fn check_dictator_signature(caller: Result<[u8; ADDRESS_SIZE], Error>) -> (result: Result<
    (),
    Error,
>)
    ensures
        result == verdict(h160_from_str(DICTATOR_PUBLIC_KEY@), caller_view(caller)),
{
    let dictator_pkh: Option<[u8; ADDRESS_SIZE]> = parse_h160(DICTATOR_PUBLIC_KEY);
    check_caller(dictator_pkh, caller)
}

} // verus!
