use vstd::prelude::*;
use vstd::utf8::encode_utf8;
use crate::credential::{CredentialError, argon2_verdict, argon2_encoding, password_hash, hashable};
use crate::document::Document;
use crate::model::{User, EncryptedUser, LoggedInUser, StoreError};
use crate::session::{CookieChange, minted};
use crate::store::{lemma_stored_account_reads_back, account_of, holds_text_fields, username_key, encrypted_password_key, user_from_document, user_document};

verus! {

/// Failures of a login.
#[derive(Debug, Clone, Copy, PartialEq, Eq, Structural)]
pub enum AuthError {
    /// No account has the username, or the password does not match its hash.
    InvalidCredentials,
    /// The stored account could not be read.
    Store(StoreError),
    /// The stored hash could not be checked.
    Credential(CredentialError),
}

/// Whether the password matches the account found under the submitted
/// username; no account found is no match.
pub open spec fn login_verdict(found: Option<Document>, password: Seq<char>) -> Result<bool, AuthError> {
    match found {
        None => Ok(false),
        Some(d) => match account_of(d) {
            None => Err(AuthError::Store(StoreError::StoreProtocolError)),
            Some((_, hash)) => match argon2_verdict(hash, encode_utf8(password)) {
                Some(b) => Ok(b),
                None => Err(AuthError::Credential(CredentialError::MalformedHash)),
            },
        },
    }
}

/// Whether `user`'s password matches the account `found` under its username.
pub fn successfully_logged_in(found: &Option<Document>, user: &User) -> (r: Result<bool, AuthError>)
    ensures
        r == login_verdict(*found, user.password@),
        forall|salt: Seq<u8>|
            (*found matches Some(d) && account_of(d) matches Some((_, h)) && h == #[trigger] argon2_encoding(
                encode_utf8(user.password@),
                salt,
            )) ==> r == Ok::<bool, AuthError>(true),
{
    match found {
        None => Ok(false),
        Some(d) => {
            let account: EncryptedUser = match user_from_document(d) {
                Ok(a) => a,
                Err(e) => return Err(AuthError::Store(e)),
            };
            match account.compare(user.password.as_str()) {
                Ok(b) => Ok(b),
                Err(e) => Err(AuthError::Credential(e)),
            }
        },
    }
}

/// A login: `found` is the account stored under the submitted username, if
/// any. On success the session cookie is set to the username.
pub fn login_user(user: User, found: Option<Document>) -> (r: Result<CookieChange, AuthError>)
    ensures
        match login_verdict(found, user.password@) {
            Ok(true) => (r matches Ok(CookieChange::Store(v)) && v@ == minted(user.username@)),
            Ok(false) => r == Err::<CookieChange, AuthError>(AuthError::InvalidCredentials),
            Err(e) => r == Err::<CookieChange, AuthError>(e),
        },
        found is None ==> r == Err::<CookieChange, AuthError>(AuthError::InvalidCredentials),
        (found matches Some(d) && account_of(d) matches Some((_, h)) && h == password_hash(user.password@))
            ==> (r matches Ok(CookieChange::Store(v)) && v@ == user.username@),
{
    let ok = successfully_logged_in(&found, &user);
    match ok {
        Ok(true) => {
            let identity = LoggedInUser(user.username);
            Ok(CookieChange::Store(identity.cookie_value()))
        },
        Ok(false) => Err(AuthError::InvalidCredentials),
        Err(e) => Err(e),
    }
}

/// A registration: the document to store for `user`, whose password is kept
/// only as its hash. No other account is consulted, so a username may be
/// registered any number of times.
pub fn new_user(user: User) -> (r: Result<Document, CredentialError>)
    ensures
        hashable(user.password@) ==> (r matches Ok(d) && holds_text_fields(
            d,
            seq![
                (username_key(), user.username@),
                (encrypted_password_key(), password_hash(user.password@)),
            ],
        )),
        !hashable(user.password@) ==> r == Err::<Document, CredentialError>(
            CredentialError::HashFailure,
        ),
{
    let account = EncryptedUser::encrypt_user(user)?;
    Ok(user_document(&account))
}

/// Two registrations of the same credentials yield the same account record:
/// a registration consults no stored account, so nothing refuses the second.
pub proof fn lemma_registration_repeats(d1: Document, d2: Document, username: Seq<char>, password: Seq<char>)
    requires
        holds_text_fields(d1, seq![(username_key(), username), (encrypted_password_key(), password_hash(password))]),
        holds_text_fields(d2, seq![(username_key(), username), (encrypted_password_key(), password_hash(password))]),
    ensures
        account_of(d1) == Some((username, password_hash(password))),
        account_of(d2) == account_of(d1),
{
    let u1 = EncryptedUser {
        username: d1.entries@[0].1->Str_0,
        encrypted_password: d1.entries@[1].1->Str_0,
    };
    let u2 = EncryptedUser {
        username: d2.entries@[0].1->Str_0,
        encrypted_password: d2.entries@[1].1->Str_0,
    };
    lemma_stored_account_reads_back(u1, d1);
    lemma_stored_account_reads_back(u2, d2);
}

} // verus!
