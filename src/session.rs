use vstd::prelude::*;
use vstd::string::*;
use crate::model::LoggedInUser;

verus! {

/// Name of the private cookie that carries the session identity.
pub fn session_cookie_name() -> (r: String)
    ensures
        r@ == "user_id"@,
{
    String::from_str("user_id")
}

/// What a response does to the session cookie.
#[derive(Debug, Clone)]
pub enum CookieChange {
    /// Store this value in the private session cookie.
    Store(String),
    /// Remove the session cookie.
    Remove,
}

/// Where a response sends the browser.
#[derive(Debug, Clone, Copy, PartialEq, Eq, Structural)]
pub enum Route {
    /// The home page with the list of posts.
    Index,
    /// The login form.
    Login,
}

/// The value that a session for `username` stores in its private cookie.
pub open spec fn minted(username: Seq<char>) -> Seq<char> {
    username
}

/// The identity that a decoded session cookie value names, if any.
pub open spec fn resolved(value: Option<Seq<char>>) -> Option<Seq<char>> {
    value
}

impl LoggedInUser {
    /// The identity that the decoded value of the session cookie names:
    /// `None` where the request carries no valid session cookie.
    pub fn from_cookie(value: Option<String>) -> (r: Option<LoggedInUser>)
        ensures
            value is None ==> r is None,
            value matches Some(v) ==> (r matches Some(u) && Some(u.0@) == resolved(Some(v@))),
    {
        match value {
            Some(v) => Some(LoggedInUser(v)),
            None => None,
        }
    }

    /// The value that the session cookie of this identity holds.
    pub fn cookie_value(&self) -> (r: String)
        ensures
            r@ == minted(self.0@),
    {
        self.0.clone()
    }
}

/// A session cookie minted for a username names that username again.
pub proof fn lemma_session_round_trip(username: Seq<char>)
    ensures
        resolved(Some(minted(username))) == Some(username),
{
}

/// Logging out removes the session cookie; it always succeeds.
pub fn logout() -> (r: CookieChange)
    ensures
        r is Remove,
{
    CookieChange::Remove
}

/// The post form asked for without a session goes back to the home page.
pub fn create_not_loggedin() -> (r: Route)
    ensures
        r == Route::Index,
{
    Route::Index
}

} // verus!
