use aes::cipher::generic_array::GenericArray;
use aes::cipher::{BlockDecryptMut, KeyInit};
use base64::Engine;
use bupt_rs::encoder::{ecb_encrypt, encode_password, pad_message, PasswordPolicy};
use bupt_rs::profile::mobile_academic_profile;

fn mobile_key() -> [u8; 16] {
    match mobile_academic_profile().policy {
        PasswordPolicy::BlockCipher { key } => key,
        PasswordPolicy::Plain => panic!("the mobile portal encrypts its passwords"),
    }
}

fn decrypt(key: &[u8; 16], data: &[u8]) -> Vec<u8> {
    let mut dec = ecb::Decryptor::<aes::Aes128>::new(GenericArray::from_slice(key));
    let mut out = data.to_vec();
    for chunk in out.chunks_mut(16) {
        dec.decrypt_block_mut(GenericArray::from_mut_slice(chunk));
    }
    out
}

#[test]
fn mobile_key_is_the_portal_constant() {
    assert_eq!(&mobile_key(), b"qzkj1kjghd=876&*");
}

#[test]
fn plain_policy_keeps_the_password() {
    assert_eq!(encode_password(&PasswordPolicy::Plain, "p@ss word"), "p@ss word");
}

#[test]
fn block_cipher_encoding_is_deterministic() {
    let policy = PasswordPolicy::BlockCipher { key: mobile_key() };
    let a = encode_password(&policy, "secret-1");
    let b = encode_password(&policy, "secret-1");
    let c = encode_password(&policy, "secret-2");
    assert_eq!(a, b);
    assert_ne!(a, c);
}

#[test]
fn padding_adds_a_full_block_to_aligned_input() {
    assert_eq!(pad_message(&[]), vec![16u8; 16]);
    let sixteen = [7u8; 16];
    let padded = pad_message(&sixteen);
    assert_eq!(padded.len(), 32);
    assert_eq!(&padded[16..], &[16u8; 16]);
}

#[test]
fn padding_fills_to_the_block() {
    let mut expected = vec![1u8, 2, 3];
    expected.extend(std::iter::repeat(13u8).take(13));
    assert_eq!(pad_message(&[1, 2, 3]), expected);
    let fifteen = [9u8; 15];
    let padded = pad_message(&fifteen);
    assert_eq!(padded.len(), 16);
    assert_eq!(padded[15], 1);
}

#[test]
fn ecb_keeps_the_length_and_changes_the_bytes() {
    let key = mobile_key();
    let data = pad_message(b"abc");
    let enc = ecb_encrypt(&key, &data);
    assert_eq!(enc.len(), 16);
    assert_ne!(enc, data);
    assert_eq!(decrypt(&key, &enc), data);
}

#[test]
fn double_base64_decodes_to_padded_ciphertext() {
    let key = mobile_key();
    let policy = PasswordPolicy::BlockCipher { key };
    for len in [0usize, 1, 15, 16, 17] {
        let password: String = "abcdefghijklmnopq".chars().take(len).collect();
        let wire = encode_password(&policy, &password);
        let once = base64::engine::general_purpose::STANDARD.decode(wire.as_bytes()).unwrap();
        let cipher = base64::engine::general_purpose::STANDARD.decode(&once).unwrap();
        assert_eq!(cipher.len() % 16, 0);
        assert_eq!(cipher.len(), (len / 16 + 1) * 16);
        let plain = decrypt(&key, &cipher);
        let pad = *plain.last().unwrap() as usize;
        assert_eq!(&plain[..plain.len() - pad], password.as_bytes());
    }
}
