use k256::ecdsa::signature::hazmat::PrehashSigner;
use k256::ecdsa::{Signature, SigningKey};
use scalar::committee::{Authority, Committee};
use scalar::tss::TssParty;
use scalar::tss_verify::VerifyError;

fn party() -> TssParty {
    let a = Authority { id: 0, stake: 1, protocol_key: vec![0], network_key: vec![1], primary_address: String::new() };
    let b = Authority { id: 0, stake: 1, protocol_key: vec![0], network_key: vec![1], primary_address: String::new() };
    TssParty::new(a, Committee { epoch: 1, authorities: vec![b] })
}

fn signed(prehash: &[u8; 32]) -> (Vec<u8>, Vec<u8>) {
    let key = SigningKey::from_slice(&[7u8; 32]).unwrap();
    let sig: Signature = key.sign_prehash(prehash).unwrap();
    let der = sig.to_der().as_bytes().to_vec();
    let public = key.verifying_key().to_encoded_point(false).as_bytes().to_vec();
    (public, der)
}

#[test]
fn a_daemon_signature_verifies() {
    let (public, der) = signed(&[42; 32]);
    let p = party();
    assert_eq!(p.verify(&public, &vec![42; 32], &der), Ok(true));
    assert_eq!(p.verify(&public, &vec![41; 32], &der), Ok(false));
    assert_eq!(p.checked_verify(&public, &vec![42; 32], &der), Some(Ok(true)));
}

#[test]
fn undecodable_inputs_are_refused_in_order() {
    let (public, der) = signed(&[42; 32]);
    let p = party();
    assert_eq!(p.verify(&public, &vec![42; 32], &vec![1, 2, 3]), Err(VerifyError::InvalidSignature));
    assert_eq!(p.verify(&public, &vec![42; 31], &der), Err(VerifyError::InvalidMessage));
    assert_eq!(p.verify(&vec![9, 9], &vec![42; 32], &der), Err(VerifyError::InvalidPublicKey));
    assert_eq!(p.verify(&vec![9, 9], &vec![42; 31], &vec![]), Err(VerifyError::InvalidSignature));
    // A message at or above the group order is no scalar.
    assert_eq!(p.verify(&public, &vec![0xff; 32], &der), Err(VerifyError::InvalidMessage));
    // A compressed encoding with a wrong length is not SEC1.
    let mut short = vec![2u8];
    short.extend_from_slice(&[1u8; 31]);
    assert_eq!(p.verify(&short, &vec![42; 32], &der), Err(VerifyError::InvalidPublicKey));
}

#[test]
fn a_key_off_the_curve_is_not_checked() {
    let (_, der) = signed(&[42; 32]);
    let mut off_curve = vec![4u8];
    off_curve.extend_from_slice(&[0u8; 64]);
    assert_eq!(party().checked_verify(&off_curve, &vec![42; 32], &der), None);
}
