//! The entity data the gateway relays, and the validated search query.

use vstd::prelude::*;

use crate::auth::forms::Username;
use crate::content::responses::GetError;
use crate::ids::{CategoryId, CommentId, ThreadId, UserId};

verus! {

/// A comment in a thread.
#[derive(Clone, PartialEq, Eq, Debug)]
pub struct Comment {
    pub id: CommentId,
    pub content: String,
    pub thread: ThreadId,
    pub uid: UserId,
}

/// A thread in a category.
#[derive(Clone, PartialEq, Eq, Debug)]
pub struct Thread {
    pub id: ThreadId,
    pub category_id: u32,
    pub title: String,
    pub description: String,
}

/// A forum category.
#[derive(Clone, PartialEq, Eq, Debug)]
pub struct Category {
    pub id: CategoryId,
    pub title: String,
    pub description: String,
}

/// A user's public profile.
#[derive(Clone, PartialEq, Eq, Debug)]
pub struct User {
    pub id: UserId,
    pub username: Username,
    pub description: String,
    pub avatar: String,
}

/// A plain acknowledgement.
#[derive(Clone, PartialEq, Eq, Debug)]
pub struct OkMessage {
    pub ok: bool,
    pub message: String,
}

/// One search hit.
#[derive(Clone, PartialEq, Eq, Debug)]
pub struct SearchResult {
    pub id: CategoryId,
    pub title: String,
    pub description: String,
}

/// Whether `c` may appear in a search query: an ASCII letter, digit,
/// underscore, hyphen or space, or one of the six Nordic vowels
/// (lower- and upper-case ae-ligature, slashed o, and ring-a).
pub open spec fn is_query_char(c: char) -> bool {
    ||| 'a' as u32 <= c as u32 && c as u32 <= 'z' as u32
    ||| 'A' as u32 <= c as u32 && c as u32 <= 'Z' as u32
    ||| '0' as u32 <= c as u32 && c as u32 <= '9' as u32
    ||| c == '_'
    ||| c == '-'
    ||| c == ' '
    ||| c == '\u{e6}'
    ||| c == '\u{f8}'
    ||| c == '\u{e5}'
    ||| c == '\u{c6}'
    ||| c == '\u{d8}'
    ||| c == '\u{c5}'
}

/// A well-formatted search query: two to fifteen characters, all from
/// the query alphabet.
pub open spec fn query_ok(s: Seq<char>) -> bool {
    2 <= s.len() <= 15 && forall|i: int| 0 <= i < s.len() ==> is_query_char(#[trigger] s[i])
}

fn check_query(s: &str) -> (r: bool)
    ensures
        r == query_ok(s@),
{
    let n = s.unicode_len();
    if n < 2 || n > 15 {
        return false;
    }
    let mut i: usize = 0;
    while i < n
        invariant
            0 <= i <= n,
            n == s@.len(),
            forall|j: int| 0 <= j < i ==> is_query_char(#[trigger] s@[j]),
        decreases n - i,
    {
        let c = s.get_char(i);
        let v: u32 = c as u32;
        let ok = ('a' as u32 <= v && v <= 'z' as u32) || ('A' as u32 <= v && v <= 'Z' as u32)
            || ('0' as u32 <= v && v <= '9' as u32) || c == '_' || c == '-' || c == ' '
            || c == '\u{e6}' || c == '\u{f8}' || c == '\u{e5}' || c == '\u{c6}' || c == '\u{d8}'
            || c == '\u{c5}';
        if !ok {
            assert(!is_query_char(s@[i as int]));
            return false;
        }
        i = i + 1;
    }
    true
}

/// A validated search string.
#[derive(Clone, PartialEq, Eq, Debug)]
pub struct QueryStr(String);

impl View for QueryStr {
    type V = Seq<char>;

    closed spec fn view(&self) -> Seq<char> {
        self.0@
    }
}

impl QueryStr {
    /// Every constructed query is well-formatted.
    pub open spec fn wf(&self) -> bool {
        query_ok(self@)
    }

    /// Accepts `s` as a search query exactly when it is
    /// well-formatted.
    pub fn new(s: String) -> (r: Result<QueryStr, GetError>)
        ensures
            match r {
                Ok(q) => q@ == s@ && q.wf(),
                Err(e) => e == GetError::InvalidQuery && !query_ok(s@),
            },
    {
        if check_query(s.as_str()) {
            Ok(QueryStr(s))
        } else {
            Err(GetError::InvalidQuery)
        }
    }

    /// The query's characters.
    pub fn as_str(&self) -> (r: &str)
        ensures
            r@ == self@,
    {
        self.0.as_str()
    }
}

/// A search request as parsed from the URL.
#[derive(Clone, PartialEq, Eq, Debug)]
pub struct SearchQuery {
    pub q: QueryStr,
}

/// What the Content service's search call is asked for.
#[derive(Clone, PartialEq, Eq, Debug)]
pub struct SearchPayload {
    pub query: QueryStr,
    pub include_hidden: bool,
}

/// The search form of the search route: the query, and an optional
/// request to include hidden results.
#[derive(Clone, PartialEq, Eq, Debug)]
pub struct SearchForm {
    pub q: QueryStr,
    pub hidden: Option<bool>,
}

impl SearchForm {
    /// The search payload the form stands for: a missing `hidden`
    /// field asks for visible results only.
    pub fn into_payload(self) -> (r: SearchPayload)
        ensures
            r.query == self.q,
            r.include_hidden == (self.hidden == Some(true)),
    {
        let include_hidden = match self.hidden {
            Some(b) => b,
            None => false,
        };
        SearchPayload { query: self.q, include_hidden }
    }
}

} // verus!
