//! Validated credential fields and the login form built from them.

use vstd::prelude::*;

use regex::Regex;

verus! {

/// The outcome of a submitted login form.
#[derive(Clone, Copy, PartialEq, Eq, Structural, Debug)]
pub enum LoginFormSuccess {
    Authenticated,
}

/// Why a submitted credential field was rejected.
#[derive(Clone, Copy, PartialEq, Eq, Structural, Debug)]
pub enum LoginFormError {
    InvalidUsername,
    InvalidPassword,
}

/// Whether `c` may appear in a username: an ASCII letter, digit,
/// underscore or hyphen.
pub open spec fn is_username_char(c: char) -> bool {
    ||| 'a' as u32 <= c as u32 && c as u32 <= 'z' as u32
    ||| 'A' as u32 <= c as u32 && c as u32 <= 'Z' as u32
    ||| '0' as u32 <= c as u32 && c as u32 <= '9' as u32
    ||| c == '_'
    ||| c == '-'
}

/// A well-formatted username: four to ten characters, all from the
/// username alphabet.
pub open spec fn username_ok(s: Seq<char>) -> bool {
    4 <= s.len() <= 10 && forall|i: int| 0 <= i < s.len() ==> is_username_char(#[trigger] s[i])
}

/// Whether the characters of `s` form a well-formatted username.
fn check_username(s: &str) -> (r: bool)
    ensures
        r == username_ok(s@),
{
    let n = s.unicode_len();
    if n < 4 || n > 10 {
        return false;
    }
    let mut i: usize = 0;
    while i < n
        invariant
            0 <= i <= n,
            n == s@.len(),
            forall|j: int| 0 <= j < i ==> is_username_char(#[trigger] s@[j]),
        decreases n - i,
    {
        let c = s.get_char(i);
        let v: u32 = c as u32;
        let ok = ('a' as u32 <= v && v <= 'z' as u32) || ('A' as u32 <= v && v <= 'Z' as u32)
            || ('0' as u32 <= v && v <= '9' as u32) || c == '_' || c == '-';
        if !ok {
            assert(!is_username_char(s@[i as int]));
            return false;
        }
        i = i + 1;
    }
    true
}

/// A valid (well-formatted) username.
#[derive(Clone, PartialEq, Eq, Debug)]
pub struct Username(String);

impl View for Username {
    type V = Seq<char>;

    closed spec fn view(&self) -> Seq<char> {
        self.0@
    }
}

impl Username {
    /// Every constructed username is well-formatted.
    pub open spec fn wf(&self) -> bool {
        username_ok(self@)
    }

    /// Accepts `s` as a username exactly when it is well-formatted.
    pub fn new(s: String) -> (r: Result<Username, LoginFormError>)
        ensures
            match r {
                Ok(u) => u@ == s@ && u.wf(),
                Err(e) => e == LoginFormError::InvalidUsername && !username_ok(s@),
            },
    {
        if check_username(s.as_str()) {
            Ok(Username(s))
        } else {
            Err(LoginFormError::InvalidUsername)
        }
    }

    /// The username's characters.
    pub fn as_str(&self) -> (r: &str)
        ensures
            r@ == self@,
    {
        self.0.as_str()
    }
}

/// What a password is shaped like: whether the anchored pattern
/// `^[\w]{8,64}$` matches the whole string. The `\w` class is the
/// Unicode word-character class, whose extension only the regex engine
/// states; contracts therefore speak of this predicate by name.
pub uninterp spec fn password_shaped(s: Seq<char>) -> bool;

/// Relies on `regex::Regex::new` and `regex::Regex::is_match`: the
/// fixed, valid pattern `^[\w]{8,64}$` compiles, and matching is a
/// deterministic function of the haystack alone, here named
/// `password_shaped`.
#[verifier::external_body]
fn check_password(s: &str) -> (r: bool)
    ensures
        r == password_shaped(s@),
{
    Regex::new("^[\\w]{8,64}$").unwrap().is_match(s)
}

/// A valid (well-formatted) plaintext password.
#[derive(Clone, PartialEq, Eq, Debug)]
pub struct PlainPassword(String);

impl View for PlainPassword {
    type V = Seq<char>;

    closed spec fn view(&self) -> Seq<char> {
        self.0@
    }
}

impl PlainPassword {
    /// Every constructed password is well-shaped.
    pub open spec fn wf(&self) -> bool {
        password_shaped(self@)
    }

    /// Accepts `s` as a password exactly when the password pattern
    /// matches it.
    pub fn new(s: String) -> (r: Result<PlainPassword, LoginFormError>)
        ensures
            match r {
                Ok(p) => p@ == s@ && p.wf(),
                Err(e) => e == LoginFormError::InvalidPassword && !password_shaped(s@),
            },
    {
        if check_password(s.as_str()) {
            Ok(PlainPassword(s))
        } else {
            Err(LoginFormError::InvalidPassword)
        }
    }

    /// The password's characters.
    pub fn as_str(&self) -> (r: &str)
        ensures
            r@ == self@,
    {
        self.0.as_str()
    }
}

/// A submitted login form; either field may have failed validation.
pub struct LoginForm {
    username: Option<Username>,
    password: Option<PlainPassword>,
}

impl LoginForm {
    /// The form's username field, as mathematics.
    pub closed spec fn spec_username(&self) -> Option<Username> {
        self.username
    }

    /// The form's password field, as mathematics.
    pub closed spec fn spec_password(&self) -> Option<PlainPassword> {
        self.password
    }

    /// Builds a form from its already-validated fields.
    pub fn new(username: Option<Username>, password: Option<PlainPassword>) -> (r: LoginForm)
        ensures
            r.spec_username() == username,
            r.spec_password() == password,
    {
        LoginForm { username, password }
    }

    /// The form's username field, if it validated.
    pub fn username(&self) -> (r: &Option<Username>)
        ensures
            *r == self.spec_username(),
    {
        &self.username
    }

    /// The form's password field, if it validated.
    pub fn password(&self) -> (r: &Option<PlainPassword>)
        ensures
            *r == self.spec_password(),
    {
        &self.password
    }
}

} // verus!
