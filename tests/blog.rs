use blog::auth::{login_user, new_user, successfully_logged_in, AuthError};
use blog::credential::CredentialError;
use blog::document::{Document, Value};
use blog::model::{EncryptedUser, LoggedInUser, Post, PostWithId, StoreError, User};
use blog::posts::{
    display_date, lex_less, list_for_home, new_post, post_from_form, shown_post, sort_by_date_desc,
    with_display_dates, FormError,
};
use blog::session::{create_not_loggedin, logout, session_cookie_name, CookieChange, Route};
use blog::store::{
    check_post_id, post_document, post_from_document, post_with_id_from_document,
    user_from_document,
};

fn s(x: &str) -> String {
    x.to_string()
}

fn user(name: &str, password: &str) -> User {
    User { username: s(name), password: s(password) }
}

fn listed(id: &str, date: &str) -> PostWithId {
    PostWithId { _id: s(id), title: s("t"), body: s("b"), author: s("a"), date: s(date) }
}

fn stored_post(id: &str, title: &str, date: &str) -> Document {
    Document {
        entries: vec![
            (s("_id"), Value::ObjectId(s(id))),
            (s("title"), Value::Str(s(title))),
            (s("body"), Value::Str(s("body text"))),
            (s("author"), Value::Str(s("alice"))),
            (s("date"), Value::Str(s(date))),
        ],
    }
}

fn dates(posts: &[PostWithId]) -> Vec<String> {
    posts.iter().map(|p| p.date.clone()).collect()
}

#[test]
fn lex_less_orders_by_code_point() {
    assert!(lex_less(&s("2023-01-01"), &s("2024-05-05")));
    assert!(!lex_less(&s("2024-05-05"), &s("2023-01-01")));
    assert!(!lex_less(&s("abc"), &s("abc")));
    assert!(lex_less(&s("ab"), &s("abc")));
    assert!(lex_less(&s(""), &s("a")));
    assert!(lex_less(&s("Z"), &s("a")));
}

#[test]
fn sort_puts_latest_date_first() {
    let posts = vec![
        listed("1", "2023-01-01 10:00:00"),
        listed("2", "2024-05-05 09:00:00"),
        listed("3", "2022-12-31 23:59:59"),
    ];
    let sorted = sort_by_date_desc(posts);
    assert_eq!(
        dates(&sorted),
        vec![s("2024-05-05 09:00:00"), s("2023-01-01 10:00:00"), s("2022-12-31 23:59:59")]
    );
    let ids: Vec<String> = sorted.iter().map(|p| p._id.clone()).collect();
    assert_eq!(ids, vec![s("2"), s("1"), s("3")]);
}

#[test]
fn sort_of_nothing_and_of_equal_dates() {
    assert!(sort_by_date_desc(Vec::new()).is_empty());
    let sorted = sort_by_date_desc(vec![listed("1", "2024"), listed("2", "2024"), listed("3", "2025")]);
    assert_eq!(dates(&sorted), vec![s("2025"), s("2024"), s("2024")]);
    let ids: Vec<String> = sorted.iter().map(|p| p._id.clone()).collect();
    assert_eq!(ids, vec![s("3"), s("1"), s("2")]);
}

#[test]
fn display_date_keeps_first_ten_characters() {
    assert_eq!(display_date(&s("2024-05-05T10:00:00")), "2024-05-05");
    assert_eq!(display_date(&s("2024-05")), "2024-05");
    assert_eq!(display_date(&s("")), "");
    assert_eq!(display_date(&s("ééééééééééxyz")), "éééééééééé");
}

#[test]
fn with_display_dates_cuts_each_date() {
    let shown = with_display_dates(vec![listed("1", "2024-05-05T10:00:00"), listed("2", "2023")]);
    assert_eq!(dates(&shown), vec![s("2024-05-05"), s("2023")]);
    assert_eq!(shown[0]._id, "1");
}

#[test]
fn home_listing_sorts_then_cuts_dates() {
    let docs = vec![
        stored_post("aa", "first", "2023-01-01 08:00:00"),
        stored_post("bb", "second", "2024-05-05 08:00:00"),
        stored_post("cc", "third", "2022-12-31 08:00:00"),
    ];
    let posts = list_for_home(&docs).unwrap();
    assert_eq!(dates(&posts), vec![s("2024-05-05"), s("2023-01-01"), s("2022-12-31")]);
    let titles: Vec<String> = posts.iter().map(|p| p.title.clone()).collect();
    assert_eq!(titles, vec![s("second"), s("first"), s("third")]);
    assert_eq!(posts[0]._id, "bb");
}

#[test]
fn home_listing_rejects_a_malformed_document() {
    let mut bad = stored_post("aa", "t", "2023");
    bad.entries.remove(2);
    let docs = vec![stored_post("bb", "t", "2024"), bad];
    assert_eq!(list_for_home(&docs).unwrap_err(), StoreError::StoreProtocolError);
    assert!(list_for_home(&Vec::new()).unwrap().is_empty());
}

#[test]
fn post_document_reads_back() {
    let post = Post { title: s("T"), body: s("B"), author: s("alice"), date: s("2024-05-05 10:00") };
    let d = post_document(&post);
    let back = post_from_document(&d).unwrap();
    assert_eq!(back.title, "T");
    assert_eq!(back.body, "B");
    assert_eq!(back.author, "alice");
    assert_eq!(back.date, "2024-05-05 10:00");
    // the stored document has no identifier yet
    assert_eq!(post_with_id_from_document(&d).unwrap_err(), StoreError::StoreProtocolError);
}

#[test]
fn field_of_another_type_is_a_protocol_error() {
    let d = Document {
        entries: vec![
            (s("title"), Value::Other),
            (s("body"), Value::Str(s("b"))),
            (s("author"), Value::Str(s("a"))),
            (s("date"), Value::Str(s("d"))),
        ],
    };
    assert_eq!(post_from_document(&d).unwrap_err(), StoreError::StoreProtocolError);
    assert_eq!(user_from_document(&d).unwrap_err(), StoreError::StoreProtocolError);
}

#[test]
fn post_ids_are_checked() {
    assert!(check_post_id(&s("5f8d0d55b54764421b7156c9")).is_ok());
    assert!(check_post_id(&s("5F8D0D55B54764421B7156C9")).is_ok());
    assert_eq!(check_post_id(&s("5f8d0d55b54764421b7156")).unwrap_err(), StoreError::MalformedIdentifier);
    assert_eq!(check_post_id(&s("zz8d0d55b54764421b7156c9")).unwrap_err(), StoreError::MalformedIdentifier);
    assert_eq!(check_post_id(&s("")).unwrap_err(), StoreError::MalformedIdentifier);
}

#[test]
fn hashed_password_verifies_and_another_does_not() {
    let e = EncryptedUser::encrypt_user(user("alice", "secret")).unwrap();
    assert_eq!(e.username, "alice");
    assert_ne!(e.encrypted_password, "secret");
    assert!(e.encrypted_password.starts_with("$argon2"));
    assert_eq!(e.compare("secret"), Ok(true));
    assert_eq!(e.compare("Secret"), Ok(false));
    assert_eq!(e.compare(""), Ok(false));
}

#[test]
fn empty_password_hashes_and_verifies() {
    let e = EncryptedUser::encrypt_user(user("bob", "")).unwrap();
    assert_eq!(e.compare(""), Ok(true));
    assert_eq!(e.compare("x"), Ok(false));
}

#[test]
fn malformed_stored_hash_is_reported() {
    let e = EncryptedUser { username: s("alice"), encrypted_password: s("not a hash") };
    assert_eq!(e.compare("secret"), Err(CredentialError::MalformedHash));
}

fn registered(name: &str, password: &str) -> Document {
    new_user(user(name, password)).unwrap()
}

#[test]
fn login_of_unknown_user_is_invalid_credentials() {
    let r = login_user(user("nobody", "pw"), None);
    assert_eq!(r.unwrap_err(), AuthError::InvalidCredentials);
}

#[test]
fn login_with_wrong_password_is_invalid_credentials() {
    let found = Some(registered("alice", "right"));
    assert_eq!(login_user(user("alice", "wrong"), found).unwrap_err(), AuthError::InvalidCredentials);
}

#[test]
fn login_with_right_password_sets_the_session() {
    let found = Some(registered("alice", "right"));
    match login_user(user("alice", "right"), found) {
        Ok(CookieChange::Store(v)) => assert_eq!(v, "alice"),
        _ => panic!("login should succeed"),
    }
}

#[test]
fn login_against_a_malformed_account() {
    let d = Document { entries: vec![(s("username"), Value::Str(s("alice")))] };
    assert_eq!(
        login_user(user("alice", "pw"), Some(d)).unwrap_err(),
        AuthError::Store(StoreError::StoreProtocolError)
    );
    let d = Document {
        entries: vec![
            (s("username"), Value::Str(s("alice"))),
            (s("encrypted_password"), Value::Str(s("plain"))),
        ],
    };
    assert_eq!(
        login_user(user("alice", "pw"), Some(d)).unwrap_err(),
        AuthError::Credential(CredentialError::MalformedHash)
    );
}

#[test]
fn successfully_logged_in_decides_the_match() {
    let found = Some(registered("carol", "pw"));
    assert_eq!(successfully_logged_in(&found, &user("carol", "pw")), Ok(true));
    assert_eq!(successfully_logged_in(&found, &user("carol", "px")), Ok(false));
    assert_eq!(successfully_logged_in(&None, &user("carol", "pw")), Ok(false));
}

#[test]
fn registering_twice_gives_two_equal_records() {
    let first = registered("dave", "pw");
    let second = registered("dave", "pw");
    let a = user_from_document(&first).unwrap();
    let b = user_from_document(&second).unwrap();
    assert_eq!(a.username, "dave");
    assert_eq!(a.username, b.username);
    assert_eq!(a.encrypted_password, b.encrypted_password);
    assert_ne!(a.encrypted_password, "pw");
}

#[test]
fn new_post_reads_title_and_body_from_the_form() {
    let d = new_post(LoggedInUser(s("alice")), &s("title=T&body=B")).unwrap();
    let p = shown_post(Some(d)).unwrap().unwrap();
    assert_eq!(p.title, "T");
    assert_eq!(p.body, "B");
    assert_eq!(p.author, "alice");
    assert!(!p.date.is_empty());
    assert!(p.date.chars().count() <= 10);
}

#[test]
fn new_post_decodes_the_form() {
    let d = new_post(LoggedInUser(s("bob")), &s("title=Hello+World&body=a%20b%26c")).unwrap();
    let p = post_from_document(&d).unwrap();
    assert_eq!(p.title, "Hello World");
    assert_eq!(p.body, "a b&c");
    assert!(!p.date.is_empty());
}

#[test]
fn new_post_needs_two_fields() {
    assert_eq!(new_post(LoggedInUser(s("bob")), &s("title=T")).unwrap_err(), FormError::MissingField);
    assert_eq!(new_post(LoggedInUser(s("bob")), &s("")).unwrap_err(), FormError::MissingField);
}

#[test]
fn post_from_form_takes_first_two_values() {
    let pairs = vec![(s("title"), s("T")), (s("body"), s("B")), (s("extra"), s("E"))];
    let p = post_from_form(&pairs, LoggedInUser(s("eve")), s("now")).unwrap();
    assert_eq!((p.title.as_str(), p.body.as_str(), p.author.as_str(), p.date.as_str()), ("T", "B", "eve", "now"));
    assert_eq!(post_from_form(&Vec::new(), LoggedInUser(s("eve")), s("now")).unwrap_err(), FormError::MissingField);
}

#[test]
fn shown_post_of_nothing_is_none() {
    assert!(shown_post(None).unwrap().is_none());
    let p = shown_post(Some(post_document(&Post {
        title: s("T"),
        body: s("B"),
        author: s("a"),
        date: s("2024-05-05T10:00:00"),
    })))
    .unwrap()
    .unwrap();
    assert_eq!(p.date, "2024-05-05");
}

#[test]
fn session_identity_round_trip() {
    assert_eq!(session_cookie_name(), "user_id");
    let u = LoggedInUser::from_cookie(Some(s("alice"))).unwrap();
    assert_eq!(u.0, "alice");
    assert_eq!(u.cookie_value(), "alice");
    assert!(LoggedInUser::from_cookie(None).is_none());
}

#[test]
fn logout_and_anonymous_create() {
    assert!(matches!(logout(), CookieChange::Remove));
    assert_eq!(create_not_loggedin(), Route::Index);
}
