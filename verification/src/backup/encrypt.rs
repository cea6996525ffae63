//! Passphrase (scrypt) encryption via age. Files are interchangeable with
//! the `rage` CLI and the `sqlite-vault` tooling.

use crate::backup::BackupError;
use age::secrecy::SecretString;
use std::io::{Read, Write};
use vstd::prelude::*;

verus! {

/// The plaintext that the age file `ciphertext` carries for `passphrase`:
/// what its payload decrypts to under the file key that the passphrase's
/// scrypt stanza wraps; `None` when the bytes are no such file. This is a
/// property of the bytes alone; whether `decrypt` on a given machine
/// reaches it also depends on the work-factor limit that age times there.
pub uninterp spec fn age_passphrase_plaintext(ciphertext: Seq<u8>, passphrase: Seq<char>) -> Option<
    Seq<u8>,
>;

/// The first line of an age v1 file: `age-encryption.org/v1` and a newline.
pub open spec fn age_v1_magic() -> Seq<u8> {
    seq![97u8, 103u8, 101u8, 45u8, 101u8, 110u8, 99u8, 114u8, 121u8, 112u8, 116u8, 105u8, 111u8, 110u8, 46u8, 111u8, 114u8, 103u8, 47u8, 118u8, 49u8, 10u8]
}

/// Whether the bytes begin with the first line of an age v1 file.
pub open spec fn has_age_v1_header(bytes: Seq<u8>) -> bool {
    bytes.len() >= 22 && bytes.subrange(0, 22) == age_v1_magic()
}

/// Encrypt `plaintext` with an age scrypt recipient derived from
/// `passphrase` (`Encryptor::with_user_passphrase`, `wrap_output`,
/// `write_all`, `finish`). Writing into a `Vec` cannot fail, so the result
/// is `Ok`. The file key, salt and nonce are random, so the ciphertext
/// itself is not determined; what holds of every outcome is that it carries
/// the plaintext for the passphrase and is longer than the plaintext (it
/// holds the header, the nonce and an authentication tag per chunk).
#[verifier::external_body]
pub fn encrypt(plaintext: &[u8], passphrase: &str) -> (res: Result<Vec<u8>, BackupError>)
    ensures
        res is Ok,
        res matches Ok(c) ==> age_passphrase_plaintext(c@, passphrase@) == Some(plaintext@)
            && c@.len() > plaintext@.len() && has_age_v1_header(c@),
{
    let encryptor = age::Encryptor::with_user_passphrase(SecretString::from(passphrase.to_owned()));
    let mut out = Vec::new();
    let mut writer = match encryptor.wrap_output(&mut out) {
        Ok(w) => w,
        Err(e) => return Err(BackupError::Io(e)),
    };
    if let Err(e) = writer.write_all(plaintext) {
        return Err(BackupError::Io(e));
    }
    if let Err(e) = writer.finish() {
        return Err(BackupError::Io(e));
    }
    Ok(out)
}

/// Decrypt an age file encrypted with `passphrase` (`Decryptor::new_buffered`,
/// `decrypt` with an scrypt identity, `read_to_end`): the plaintext the
/// file carries for the passphrase, or an error. Whether it succeeds also
/// depends on the machine (age rejects files whose scrypt work factor
/// exceeds a limit it times on this machine), so no clause promises
/// success; when it succeeds, the result is the carried plaintext. Bytes
/// that do not begin with the `age-encryption.org/v1` line are no age v1
/// file: `new_buffered`'s header parser rejects them (or reports an unknown
/// version). That a wrong passphrase fails
/// rests on age's authenticated encryption, which the source cannot show
/// for every passphrase, so it is left unsaid.
#[verifier::external_body]
pub fn decrypt(ciphertext: &[u8], passphrase: &str) -> (res: Result<Vec<u8>, BackupError>)
    ensures
        res matches Ok(p) ==> age_passphrase_plaintext(ciphertext@, passphrase@) == Some(p@),
        !has_age_v1_header(ciphertext@) ==> res is Err,
{
    let decryptor = match age::Decryptor::new_buffered(ciphertext) {
        Ok(d) => d,
        Err(e) => return Err(BackupError::Decrypt(e)),
    };
    let identity = age::scrypt::Identity::new(SecretString::from(passphrase.to_owned()));
    let mut reader = match decryptor.decrypt(std::iter::once(&identity as &dyn age::Identity)) {
        Ok(r) => r,
        Err(e) => return Err(BackupError::Decrypt(e)),
    };
    let mut out = Vec::new();
    match reader.read_to_end(&mut out) {
        Ok(_) => Ok(out),
        Err(e) => Err(BackupError::Io(e)),
    }
}

} // verus!
