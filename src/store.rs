use vstd::prelude::*;
use vstd::string::*;
use crate::document::{Document, Value, str_field, id_field};
use crate::model::{Post, PostView, PostWithId, PostWithIdView, EncryptedUser, StoreError};

verus! {

pub open spec fn id_key() -> Seq<char> {
    "_id"@
}

pub open spec fn title_key() -> Seq<char> {
    "title"@
}

pub open spec fn body_key() -> Seq<char> {
    "body"@
}

pub open spec fn author_key() -> Seq<char> {
    "author"@
}

pub open spec fn date_key() -> Seq<char> {
    "date"@
}

pub open spec fn username_key() -> Seq<char> {
    "username"@
}

pub open spec fn encrypted_password_key() -> Seq<char> {
    "encrypted_password"@
}

/// The post that a stored document holds, where it holds all four text fields.
pub open spec fn post_of(d: Document) -> Option<PostView> {
    match (
        str_field(d, title_key()),
        str_field(d, body_key()),
        str_field(d, author_key()),
        str_field(d, date_key()),
    ) {
        (Some(t), Some(b), Some(a), Some(dt)) => Some(
            PostView { title: t, body: b, author: a, date: dt },
        ),
        _ => None,
    }
}

/// The post and identifier that a stored document holds, where it holds them all.
pub open spec fn post_with_id_of(d: Document) -> Option<PostWithIdView> {
    match (id_field(d, id_key()), post_of(d)) {
        (Some(id), Some(p)) => Some(
            PostWithIdView { id, title: p.title, body: p.body, author: p.author, date: p.date },
        ),
        _ => None,
    }
}

/// The account that a stored document holds: its username and encoded hash.
pub open spec fn account_of(d: Document) -> Option<(Seq<char>, Seq<char>)> {
    match (str_field(d, username_key()), str_field(d, encrypted_password_key())) {
        (Some(u), Some(h)) => Some((u, h)),
        _ => None,
    }
}

/// A document holds exactly the given text fields, in this order.
pub open spec fn holds_text_fields(d: Document, fields: Seq<(Seq<char>, Seq<char>)>) -> bool {
    &&& d.entries@.len() == fields.len()
    &&& forall|i: int|
        0 <= i < fields.len() ==> {
            &&& (#[trigger] d.entries@[i]).0@ == fields[i].0
            &&& d.entries@[i].1 matches Value::Str(s) && s@ == fields[i].1
        }
}

/// The fields under which a post is stored, in order.
pub open spec fn post_fields(
    title: Seq<char>,
    body: Seq<char>,
    author: Seq<char>,
    date: Seq<char>,
) -> Seq<(Seq<char>, Seq<char>)> {
    seq![(title_key(), title), (body_key(), body), (author_key(), author), (date_key(), date)]
}

/// The document under which a post is stored: title, body, author and date.
pub fn post_document(post: &Post) -> (d: Document)
    ensures
        holds_text_fields(
            d,
            seq![
                (title_key(), post.title@),
                (body_key(), post.body@),
                (author_key(), post.author@),
                (date_key(), post.date@),
            ],
        ),
{
    let mut d = Document::new();
    d.push(String::from_str("title"), Value::Str(post.title.clone()));
    d.push(String::from_str("body"), Value::Str(post.body.clone()));
    d.push(String::from_str("author"), Value::Str(post.author.clone()));
    d.push(String::from_str("date"), Value::Str(post.date.clone()));
    d
}

/// The document under which an account is stored: username and encoded hash.
pub fn user_document(user: &EncryptedUser) -> (d: Document)
    ensures
        holds_text_fields(
            d,
            seq![
                (username_key(), user.username@),
                (encrypted_password_key(), user.encrypted_password@),
            ],
        ),
{
    let mut d = Document::new();
    d.push(String::from_str("username"), Value::Str(user.username.clone()));
    d.push(String::from_str("encrypted_password"), Value::Str(user.encrypted_password.clone()));
    d
}

/// Reads a post out of a stored document.
pub fn post_from_document(d: &Document) -> (r: Result<Post, StoreError>)
    ensures
        match post_of(*d) {
            Some(v) => r matches Ok(p) && p@ == v,
            None => r == Err::<Post, StoreError>(StoreError::StoreProtocolError),
        },
{
    let title = d.get_str(&String::from_str("title"));
    let body = d.get_str(&String::from_str("body"));
    let author = d.get_str(&String::from_str("author"));
    let date = d.get_str(&String::from_str("date"));
    match (title, body, author, date) {
        (Some(title), Some(body), Some(author), Some(date)) => Ok(Post { title, body, author, date }),
        _ => Err(StoreError::StoreProtocolError),
    }
}

/// Reads a post and its identifier out of a stored document.
pub fn post_with_id_from_document(d: &Document) -> (r: Result<PostWithId, StoreError>)
    ensures
        match post_with_id_of(*d) {
            Some(v) => r matches Ok(p) && p@ == v,
            None => r == Err::<PostWithId, StoreError>(StoreError::StoreProtocolError),
        },
{
    let id = d.get_object_id(&String::from_str("_id"));
    let post = post_from_document(d);
    match (id, post) {
        (Some(id), Ok(p)) => Ok(
            PostWithId { _id: id, title: p.title, body: p.body, author: p.author, date: p.date },
        ),
        _ => Err(StoreError::StoreProtocolError),
    }
}

/// Reads an account out of a stored document.
pub fn user_from_document(d: &Document) -> (r: Result<EncryptedUser, StoreError>)
    ensures
        match account_of(*d) {
            Some((u, h)) => r matches Ok(e) && e.username@ == u && e.encrypted_password@ == h,
            None => r == Err::<EncryptedUser, StoreError>(StoreError::StoreProtocolError),
        },
{
    let username = d.get_str(&String::from_str("username"));
    let hash = d.get_str(&String::from_str("encrypted_password"));
    match (username, hash) {
        (Some(username), Some(encrypted_password)) => Ok(EncryptedUser { username, encrypted_password }),
        _ => Err(StoreError::StoreProtocolError),
    }
}

/// An ASCII hex digit, of either case.
pub open spec fn is_hex_digit(c: char) -> bool {
    (48 <= c as u32 <= 57) || (65 <= c as u32 <= 70) || (97 <= c as u32 <= 102)
}

/// The text form of a store identifier: 24 hex digits, two for each of its
/// 12 bytes.
pub open spec fn is_object_id_text(s: Seq<char>) -> bool {
    s.len() == 24 && forall|i: int| 0 <= i < s.len() ==> is_hex_digit(#[trigger] s[i])
}

/// Relies on `bson::oid::ObjectId::with_string`: it hex-decodes the bytes of
/// `s` and accepts exactly 12 bytes, so it succeeds on 24 hex digits and on
/// nothing else.
#[verifier::external_body]
fn object_id_parses(s: &str) -> (r: bool)
    ensures
        r == is_object_id_text(s@),
{
    mongodb::bson::oid::ObjectId::with_string(s).is_ok()
}

/// Checks a post identifier before a lookup by it: malformed text is an
/// error, not a post that is missing.
pub fn check_post_id(id: &String) -> (r: Result<(), StoreError>)
    ensures
        is_object_id_text(id@) ==> r is Ok,
        !is_object_id_text(id@) ==> r == Err::<(), StoreError>(StoreError::MalformedIdentifier),
{
    if object_id_parses(id.as_str()) {
        Ok(())
    } else {
        Err(StoreError::MalformedIdentifier)
    }
}

/// A post stored under `post_document` reads back as the same post.
pub proof fn lemma_stored_post_reads_back(post: Post, d: Document)
    requires
        holds_text_fields(
            d,
            seq![
                (title_key(), post.title@),
                (body_key(), post.body@),
                (author_key(), post.author@),
                (date_key(), post.date@),
            ],
        ),
    ensures
        post_of(d) == Some(post@),
{
    reveal_strlit("title");
    reveal_strlit("body");
    reveal_strlit("author");
    reveal_strlit("date");
    let e = d.entries@;
    assert(e[0].0@ == title_key());
    assert(e[1].0@ == body_key());
    assert(e[2].0@ == author_key());
    assert(e[3].0@ == date_key());
    assert(e.drop_first().drop_first().drop_first().drop_first().len() == 0);
    assert(title_key() != body_key() && title_key() != author_key() && title_key() != date_key());
    assert(body_key()[0] != date_key()[0]);
    assert(body_key() != author_key() && body_key() != date_key() && author_key() != date_key());
    reveal_with_fuel(crate::document::lookup, 5);
    assert(e.drop_first()[0] == e[1]);
    assert(e.drop_first().drop_first()[0] == e[2]);
    assert(e.drop_first().drop_first().drop_first()[0] == e[3]);
}

/// An account stored under `user_document` reads back as the same account.
pub proof fn lemma_stored_account_reads_back(user: EncryptedUser, d: Document)
    requires
        holds_text_fields(
            d,
            seq![(username_key(), user.username@), (encrypted_password_key(), user.encrypted_password@)],
        ),
    ensures
        account_of(d) == Some((user.username@, user.encrypted_password@)),
{
    reveal_strlit("username");
    reveal_strlit("encrypted_password");
    let e = d.entries@;
    assert(e[0].0@ == username_key());
    assert(e[1].0@ == encrypted_password_key());
    assert(username_key() != encrypted_password_key());
    assert(e.drop_first()[0] == e[1]);
    assert(e.drop_first().drop_first().len() == 0);
    reveal_with_fuel(crate::document::lookup, 3);
}

} // verus!
