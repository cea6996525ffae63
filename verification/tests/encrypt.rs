use kehrkraft::backup::encrypt::{decrypt, encrypt};

#[test]
fn roundtrip() {
    let plaintext = b"hello kehrkraft \x00\xff\x01";
    let ciphertext = encrypt(plaintext, "correct horse battery staple").unwrap();
    assert_ne!(ciphertext, plaintext);
    assert_eq!(
        decrypt(&ciphertext, "correct horse battery staple").unwrap(),
        plaintext
    );
}

#[test]
fn empty_plaintext_roundtrip() {
    let ciphertext = encrypt(b"", "pw").unwrap();
    assert_eq!(decrypt(&ciphertext, "pw").unwrap(), b"");
}

#[test]
fn wrong_passphrase_is_rejected() {
    let ciphertext = encrypt(b"secret", "right").unwrap();
    assert!(decrypt(&ciphertext, "wrong").is_err());
}

#[test]
fn not_an_age_file_is_rejected() {
    assert!(decrypt(b"not an age file", "pw").is_err());
}
