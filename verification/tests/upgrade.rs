use risc_v_interpreter::upgrade::{
    check_caller, check_dictator_signature, recovery_request, signed_message, Error,
    DICTATOR_PUBLIC_KEY, SIGNATURE_HASH_SIZE, UPGRADE_NONCE_SIZE,
};
use sha3::{Digest, Keccak256};

const DICTATOR: [u8; 20] = [
    0x6c, 0xe4, 0xd7, 0x9d, 0x4e, 0x77, 0x40, 0x2e, 0x1e, 0xf3, 0x41, 0x7f, 0xdd, 0xa4, 0x33, 0xaa,
    0x74, 0x4c, 0x6e, 0x1c,
];

fn address() -> [u8; 20] {
    let mut address = [0_u8; 20];
    for (i, byte) in address.iter_mut().enumerate() {
        *byte = 0xA0 + i as u8;
    }
    address
}

fn preimage_hash() -> [u8; 33] {
    let mut hash = [0_u8; 33];
    for (i, byte) in hash.iter_mut().enumerate() {
        *byte = i as u8;
    }
    hash
}

fn signature() -> [u8; SIGNATURE_HASH_SIZE] {
    let mut sig = [0_u8; SIGNATURE_HASH_SIZE];
    for (i, byte) in sig.iter_mut().enumerate() {
        *byte = 100 + i as u8;
    }
    sig
}

#[test]
fn test_sizes() {
    assert_eq!(SIGNATURE_HASH_SIZE, 65);
    assert_eq!(UPGRADE_NONCE_SIZE, 4);
    assert_eq!(DICTATOR_PUBLIC_KEY.len(), 40);
}

#[test]
fn test_signed_message_layout() {
    let nonce = [1_u8, 2, 3, 4];
    let message = signed_message(&address(), &nonce, &preimage_hash());
    let prefix = "\x19Ethereum Signed Message:\n57".as_bytes();

    assert_eq!(message.len(), 85);
    assert_eq!(prefix.len(), 28);
    assert_eq!(&message[0..28], prefix);
    assert_eq!(&message[28..48], &address()[..]);
    assert_eq!(&message[48..52], &nonce[..]);
    assert_eq!(&message[52..85], &preimage_hash()[..]);
    assert_eq!(message.len() - prefix.len(), 57);
}

#[test]
fn test_recovery_request_splits_the_signature() {
    let sig = signature();
    let request = recovery_request(sig, address(), [0, 0, 0, 1], preimage_hash());
    assert_eq!(&request.r[..], &sig[0..32]);
    assert_eq!(&request.s[..], &sig[32..64]);
    assert_eq!(request.v, sig[64]);
    assert_eq!(request.r[0], 100);
    assert_eq!(request.s[0], 132);
    assert_eq!(request.v, 164);
}

#[test]
fn test_recovery_request_hashes_the_signed_message() {
    let nonce = [9_u8, 8, 7, 6];
    let request = recovery_request(signature(), address(), nonce, preimage_hash());
    let message = signed_message(&address(), &nonce, &preimage_hash());
    let expected: [u8; 32] = Keccak256::digest(&message).into();
    assert_eq!(request.digest, expected);
    assert_ne!(&request.digest[..], &message[0..32]);
}

#[test]
fn test_digest_depends_on_every_field() {
    let base = recovery_request(signature(), address(), [0, 0, 0, 1], preimage_hash()).digest;

    let other_nonce = recovery_request(signature(), address(), [0, 0, 0, 2], preimage_hash());
    assert_ne!(other_nonce.digest, base);

    let mut other_address = address();
    other_address[19] ^= 1;
    let other = recovery_request(signature(), other_address, [0, 0, 0, 1], preimage_hash());
    assert_ne!(other.digest, base);

    let mut other_hash = preimage_hash();
    other_hash[0] ^= 1;
    let other = recovery_request(signature(), address(), [0, 0, 0, 1], other_hash);
    assert_ne!(other.digest, base);

    let mut other_sig = signature();
    other_sig[64] ^= 1;
    let other = recovery_request(other_sig, address(), [0, 0, 0, 1], preimage_hash());
    assert_eq!(other.digest, base);
}

#[test]
fn test_dictator_is_accepted() {
    assert_eq!(check_dictator_signature(Ok(DICTATOR)), Ok(()));
}

#[test]
fn test_other_caller_is_refused() {
    let mut other = DICTATOR;
    other[19] ^= 1;
    assert_eq!(check_dictator_signature(Ok(other)), Err(Error::InvalidSignatureCheck));
    assert_eq!(check_dictator_signature(Ok([0; 20])), Err(Error::InvalidSignatureCheck));
    let mut other = DICTATOR;
    other[0] ^= 0x80;
    assert_eq!(check_dictator_signature(Ok(other)), Err(Error::InvalidSignatureCheck));
}

#[test]
fn test_failed_recovery_is_handed_on() {
    assert_eq!(
        check_dictator_signature(Err(Error::InvalidSignature)),
        Err(Error::InvalidSignature)
    );
    assert_eq!(
        check_dictator_signature(Err(Error::InvalidConversion)),
        Err(Error::InvalidConversion)
    );
}

#[test]
fn test_check_caller() {
    assert_eq!(check_caller(Some(DICTATOR), Ok(DICTATOR)), Ok(()));
    assert_eq!(check_caller(Some([7; 20]), Ok([7; 20])), Ok(()));
    assert_eq!(check_caller(Some([7; 20]), Ok(DICTATOR)), Err(Error::InvalidSignatureCheck));
    assert_eq!(check_caller(None, Ok(DICTATOR)), Err(Error::InvalidConversion));
    assert_eq!(check_caller(None, Err(Error::InvalidSignature)), Err(Error::InvalidConversion));
    assert_eq!(
        check_caller(Some(DICTATOR), Err(Error::InvalidSignature)),
        Err(Error::InvalidSignature)
    );
}
