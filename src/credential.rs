use vstd::prelude::*;
use vstd::string::*;
use vstd::utf8::encode_utf8;
use crate::model::{User, EncryptedUser};

verus! {

/// The salt that every password is hashed with, the bytes of "randomsalt".
///
/// One salt shared by all accounts is a known weakness of this scheme: equal
/// passwords give equal hashes, and the hashes are open to precomputed tables.
/// It is kept so that the hashes already stored still verify; a fresh salt per
/// account, stored inside the encoded hash, would remove it.
pub const SALT: [u8; 10] = [114, 97, 110, 100, 111, 109, 115, 97, 108, 116];

/// What `argon2::hash_encoded` returns, under its default configuration, for a
/// password and a salt: the encoded hash, parameters and salt included.
pub uninterp spec fn argon2_encoding(password: Seq<u8>, salt: Seq<u8>) -> Seq<char>;

/// What `argon2::verify_encoded` returns for an encoded hash and a password:
/// `None` where it fails.
pub uninterp spec fn argon2_verdict(encoded: Seq<char>, password: Seq<u8>) -> Option<bool>;

/// Relies on `argon2::hash_encoded` with `argon2::Config::default()`: it fails
/// only for a salt shorter than 8 bytes or a password or salt longer than
/// `u32::MAX` bytes, and otherwise returns the encoded hash.
#[verifier::external_body]
fn argon2_hash_encoded(password: &[u8], salt: &[u8]) -> (r: Option<String>)
    ensures
        r is Some <==> (8 <= salt@.len() <= u32::MAX && password@.len() <= u32::MAX),
        r matches Some(h) ==> h@ == argon2_encoding(password@, salt@),
{
    argon2::hash_encoded(password, salt, &argon2::Config::default()).ok()
}

/// Relies on `argon2::verify_encoded`: it reads the parameters, salt and hash
/// back out of `encoded`, fails where that text is malformed, and otherwise
/// tells whether `password` hashed with them gives that hash. An encoding that
/// `argon2::hash_encoded` made of the same password therefore verifies.
#[verifier::external_body]
fn argon2_verify_encoded(encoded: &str, password: &[u8]) -> (r: Option<bool>)
    ensures
        r == argon2_verdict(encoded@, password@),
        forall|salt: Seq<u8>|
            encoded@ == #[trigger] argon2_encoding(password@, salt) ==> r == Some(true),
{
    argon2::verify_encoded(encoded, password).ok()
}

/// Failures of password hashing and verification.
#[derive(Debug, Clone, Copy, PartialEq, Eq, Structural)]
pub enum CredentialError {
    /// The hashing library refused the password (longer than `u32::MAX` bytes).
    HashFailure,
    /// A stored hash is not a well-formed encoded hash.
    MalformedHash,
}

/// The stored hash of a password: its UTF-8 bytes hashed with the shared salt.
pub open spec fn password_hash(password: Seq<char>) -> Seq<char> {
    argon2_encoding(encode_utf8(password), SALT@)
}

/// The password's UTF-8 bytes fit the hashing library.
pub open spec fn hashable(password: Seq<char>) -> bool {
    encode_utf8(password).len() <= u32::MAX
}

impl EncryptedUser {
    /// The account to store for a registration: the username, and the
    /// password only as its hash.
    pub fn encrypt_user(user: User) -> (r: Result<EncryptedUser, CredentialError>)
        ensures
            hashable(user.password@) ==> (r matches Ok(e) && e.username@ == user.username@
                && e.encrypted_password@ == password_hash(user.password@)),
            !hashable(user.password@) ==> r == Err::<EncryptedUser, CredentialError>(
                CredentialError::HashFailure,
            ),
    {
        let salt: [u8; 10] = SALT;
        let hash = argon2_hash_encoded(user.password.as_str().as_bytes(), salt.as_slice());
        match hash {
            Some(encrypted_password) => Ok(EncryptedUser { username: user.username, encrypted_password }),
            None => Err(CredentialError::HashFailure),
        }
    }

    /// Whether `password` is the one whose hash is stored. A hash made of that
    /// very password, with any salt, always matches.
    pub fn compare(&self, password: &str) -> (r: Result<bool, CredentialError>)
        ensures
            r == match argon2_verdict(self.encrypted_password@, encode_utf8(password@)) {
                Some(b) => Ok::<bool, CredentialError>(b),
                None => Err(CredentialError::MalformedHash),
            },
            forall|salt: Seq<u8>|
                self.encrypted_password@ == #[trigger] argon2_encoding(encode_utf8(password@), salt)
                    ==> r == Ok::<bool, CredentialError>(true),
    {
        match argon2_verify_encoded(self.encrypted_password.as_str(), password.as_bytes()) {
            Some(b) => Ok(b),
            None => Err(CredentialError::MalformedHash),
        }
    }
}

} // verus!
