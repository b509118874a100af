//! Session tokens and the local checks routes make on them.

use vstd::prelude::*;

use crate::auth::forms::{PlainPassword, Username};
use crate::auth::responses::AuthSuccess;
use crate::errors::ResponseError;

verus! {

/// The cookie name the session token travels under.
pub const USER_TOKEN_NAME: &'static str = "user_token";

/// An opaque bearer credential extracted from the session cookie. It
/// has no structure the gateway can see; only the Identity service can
/// resolve it to an identity and role.
#[derive(Clone, PartialEq, Eq, Debug)]
pub struct Token(String);

impl View for Token {
    type V = Seq<char>;

    closed spec fn view(&self) -> Seq<char> {
        self.0@
    }
}

impl Token {
    /// Wraps the raw cookie value as a token.
    pub fn new(s: String) -> (r: Token)
        ensures
            r@ == s@,
    {
        Token(s)
    }

    /// The raw cookie value the token was built from.
    pub fn into_inner(self) -> (r: String)
        ensures
            r@ == self@,
    {
        self.0
    }

    /// The raw cookie value, borrowed.
    pub fn as_str(&self) -> (r: &str)
        ensures
            r@ == self@,
    {
        self.0.as_str()
    }
}

/// The local stand-in for the Identity service's `authenticate` call,
/// used where no backend is wired up: every validated credential pair
/// is granted the placeholder session token.
pub fn authenticate(_username: &Username, _password: &PlainPassword) -> (r: Result<
    Token,
    ResponseError,
>)
    ensures
        r matches Ok(t) && t@ == "placeholder"@,
{
    Ok(Token::new(String::from_str("placeholder")))
}

/// The local stand-in for the Identity service's `register` call:
/// every validated registration is acknowledged.
pub fn register(_username: &Username, _password: &PlainPassword, _email: &str) -> (r: Result<
    AuthSuccess,
    ResponseError,
>)
    ensures
        r == Ok::<AuthSuccess, ResponseError>(AuthSuccess::UserRegistered),
{
    Ok(AuthSuccess::UserRegistered)
}

/// The local deauthentication step: the gateway itself holds no
/// session state, so locally there is nothing to revoke and the call
/// always succeeds (revocation proper is the Identity service's
/// concern, reached separately).
pub fn deauthenticate(_token: &Token) -> (r: Result<(), ResponseError>)
    ensures
        r == Ok::<(), ResponseError>(()),
{
    Ok(())
}

/// The local presence check for routes that only need a session token
/// to be attached: any token passes, since its meaning can only be
/// resolved remotely.
pub fn authenticated(_token: &Token) -> (r: Result<(), ResponseError>)
    ensures
        r == Ok::<(), ResponseError>(()),
{
    Ok(())
}

} // verus!
