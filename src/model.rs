use vstd::prelude::*;

verus! {

/// The identity carried by the session cookie: the username of the author
/// who logged in.
#[derive(Debug, Clone)]
pub struct LoggedInUser(pub String);

/// A blog post as it is written and stored.
#[derive(Debug, Clone)]
pub struct Post {
    pub title: String,
    pub body: String,
    pub author: String,
    pub date: String,
}

/// A stored blog post together with the hex form of its store identifier.
#[derive(Debug, Clone)]
pub struct PostWithId {
    pub _id: String,
    pub title: String,
    pub body: String,
    pub author: String,
    pub date: String,
}

/// Credentials as submitted in a registration or login form.
#[derive(Debug, Clone)]
pub struct User {
    pub username: String,
    pub password: String,
}

/// The persisted form of an account: the password only as its encoded hash.
#[derive(Debug, Clone)]
pub struct EncryptedUser {
    pub username: String,
    pub encrypted_password: String,
}

/// A stored account together with the hex form of its store identifier.
#[derive(Debug, Clone)]
pub struct UserWithId {
    pub _id: String,
    pub username: String,
    pub password: String,
}

/// Mathematical form of a `Post`.
pub struct PostView {
    pub title: Seq<char>,
    pub body: Seq<char>,
    pub author: Seq<char>,
    pub date: Seq<char>,
}

/// Mathematical form of a `PostWithId`.
pub struct PostWithIdView {
    pub id: Seq<char>,
    pub title: Seq<char>,
    pub body: Seq<char>,
    pub author: Seq<char>,
    pub date: Seq<char>,
}

impl View for Post {
    type V = PostView;

    open spec fn view(&self) -> PostView {
        PostView { title: self.title@, body: self.body@, author: self.author@, date: self.date@ }
    }
}

impl View for PostWithId {
    type V = PostWithIdView;

    open spec fn view(&self) -> PostWithIdView {
        PostWithIdView {
            id: self._id@,
            title: self.title@,
            body: self.body@,
            author: self.author@,
            date: self.date@,
        }
    }
}

/// The views of a sequence of posts, element by element.
pub open spec fn post_views(s: Seq<PostWithId>) -> Seq<PostWithIdView> {
    s.map_values(|p: PostWithId| p@)
}

/// Failures of the document store, and of the documents it hands back.
#[derive(Debug, Clone, Copy, PartialEq, Eq, Structural)]
pub enum StoreError {
    /// The store could not be reached, or the operation failed in it.
    StoreUnavailable,
    /// A stored document lacks a field, or holds it with another type.
    StoreProtocolError,
    /// A post identifier is not the hex text of a store identifier.
    MalformedIdentifier,
}

} // verus!
