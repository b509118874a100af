//! Entity identifiers and the decimal parsing they share.

use vstd::prelude::*;

use crate::content::responses::GetError;

verus! {

/// Whether `c` is a decimal digit.
pub open spec fn is_digit(c: char) -> bool {
    '0' as u32 <= c as u32 && c as u32 <= '9' as u32
}

/// The numeric value of the digit `c`.
pub open spec fn digit_val(c: char) -> int {
    c as u32 - '0' as u32
}

/// Whether every character of `s` is a decimal digit.
pub open spec fn all_digits(s: Seq<char>) -> bool {
    forall|i: int| 0 <= i < s.len() ==> is_digit(#[trigger] s[i])
}

/// The numeric value of the digit string `s`, most significant digit
/// first.
pub open spec fn digits_value(s: Seq<char>) -> int
    decreases s.len(),
{
    if s.len() == 0 {
        0
    } else {
        digits_value(s.drop_last()) * 10 + digit_val(s.last())
    }
}

/// What parsing an unsigned decimal number yields: the value of `s`
/// when `s` is nonempty, all digits, and in range; nothing otherwise.
pub open spec fn spec_parse_u32(s: Seq<char>) -> Option<u32> {
    if s.len() > 0 && all_digits(s) && digits_value(s) <= u32::MAX as int {
        Some(digits_value(s) as u32)
    } else {
        None
    }
}

proof fn lemma_digits_value_nonneg(s: Seq<char>)
    requires
        all_digits(s),
    ensures
        digits_value(s) >= 0,
    decreases s.len(),
{
    if s.len() > 0 {
        assert(all_digits(s.drop_last()));
        lemma_digits_value_nonneg(s.drop_last());
    }
}

/// A longer prefix of a digit string never has a smaller value.
proof fn lemma_digits_value_le(s: Seq<char>, i: int, j: int)
    requires
        all_digits(s),
        0 <= i <= j <= s.len(),
    ensures
        digits_value(s.take(i)) <= digits_value(s.take(j)),
    decreases j - i,
{
    if i < j {
        lemma_digits_value_le(s, i, j - 1);
        assert(s.take(j).drop_last() =~= s.take(j - 1));
        assert(all_digits(s.take(j - 1)));
        lemma_digits_value_nonneg(s.take(j - 1));
        assert(is_digit(s[j - 1]));
    }
}

/// Parses `s` as an unsigned decimal number: succeeds exactly on
/// nonempty all-digit strings whose value fits, leading zeroes
/// included.
pub fn parse_u32(s: &str) -> (r: Option<u32>)
    ensures
        r == spec_parse_u32(s@),
{
    let n = s.unicode_len();
    if n == 0 {
        return None;
    }
    let mut acc: u64 = 0;
    let mut i: usize = 0;
    while i < n
        invariant
            0 <= i <= n,
            n == s@.len(),
            all_digits(s@.take(i as int)),
            acc == digits_value(s@.take(i as int)),
            acc <= u32::MAX,
        decreases n - i,
    {
        let c = s.get_char(i);
        let v: u32 = c as u32;
        proof {
            assert(s@.take(i as int + 1).drop_last() =~= s@.take(i as int));
        }
        if v < '0' as u32 || v > '9' as u32 {
            assert(!is_digit(s@[i as int]));
            return None;
        }
        let d: u64 = (v - '0' as u32) as u64;
        let next: u64 = acc * 10 + d;
        assert(next == digits_value(s@.take(i as int + 1)));
        if next > 0xffff_ffff {
            proof {
                if all_digits(s@) {
                    lemma_digits_value_le(s@, i as int + 1, s@.len() as int);
                    assert(s@.take(s@.len() as int) =~= s@);
                }
            }
            return None;
        }
        acc = next;
        i = i + 1;
    }
    proof {
        assert(s@.take(n as int) =~= s@);
    }
    Some(acc as u32)
}

/// Marker trait shared by all entity-identifier types.
pub trait Id {

}

/// The identifier of a category.
#[derive(Clone, Copy, PartialEq, Eq, Structural, Hash, Debug)]
pub struct CategoryId(pub u32);

impl Id for CategoryId {

}

impl CategoryId {
    /// Parses a category id from its decimal form.
    pub fn parse(s: &str) -> (r: Result<CategoryId, GetError>)
        ensures
            r == match spec_parse_u32(s@) {
                Some(v) => Ok::<CategoryId, GetError>(CategoryId(v)),
                None => Err::<CategoryId, GetError>(GetError::InvalidId),
            },
    {
        match parse_u32(s) {
            Some(v) => Ok(CategoryId(v)),
            None => Err(GetError::InvalidId),
        }
    }
}

/// The identifier of a thread.
#[derive(Clone, Copy, PartialEq, Eq, Structural, Hash, Debug)]
pub struct ThreadId(pub u32);

impl Id for ThreadId {

}

impl ThreadId {
    /// Parses a thread id from its decimal form.
    pub fn parse(s: &str) -> (r: Result<ThreadId, GetError>)
        ensures
            r == match spec_parse_u32(s@) {
                Some(v) => Ok::<ThreadId, GetError>(ThreadId(v)),
                None => Err::<ThreadId, GetError>(GetError::InvalidId),
            },
    {
        match parse_u32(s) {
            Some(v) => Ok(ThreadId(v)),
            None => Err(GetError::InvalidId),
        }
    }
}

/// The identifier of a comment.
#[derive(Clone, Copy, PartialEq, Eq, Structural, Hash, Debug)]
pub struct CommentId(pub u32);

impl Id for CommentId {

}

impl CommentId {
    /// Parses a comment id from its decimal form.
    pub fn parse(s: &str) -> (r: Result<CommentId, GetError>)
        ensures
            r == match spec_parse_u32(s@) {
                Some(v) => Ok::<CommentId, GetError>(CommentId(v)),
                None => Err::<CommentId, GetError>(GetError::InvalidId),
            },
    {
        match parse_u32(s) {
            Some(v) => Ok(CommentId(v)),
            None => Err(GetError::InvalidId),
        }
    }
}

/// The identifier of a user.
#[derive(Clone, Copy, PartialEq, Eq, Structural, Hash, Debug)]
pub struct UserId(pub u32);

impl Id for UserId {

}

impl UserId {
    /// Parses a user id from its decimal form.
    pub fn parse(s: &str) -> (r: Result<UserId, GetError>)
        ensures
            r == match spec_parse_u32(s@) {
                Some(v) => Ok::<UserId, GetError>(UserId(v)),
                None => Err::<UserId, GetError>(GetError::InvalidId),
            },
    {
        match parse_u32(s) {
            Some(v) => Ok(UserId(v)),
            None => Err(GetError::InvalidId),
        }
    }
}

/// An optional identifier, for routes where the id segment may be
/// empty (meaning "all of them").
#[derive(Clone, Copy, PartialEq, Eq, Debug)]
pub struct OptId<I: Id>(pub Option<I>);

impl<I: Id> OptId<I> {
    /// The wrapped optional id.
    pub fn into_inner(self) -> (r: Option<I>)
        ensures
            r == self.0,
    {
        self.0
    }
}

impl OptId<CategoryId> {
    /// Parses an optional category id: an empty segment means none.
    pub fn parse(s: &str) -> (r: Result<OptId<CategoryId>, GetError>)
        ensures
            r == if s@.len() == 0 {
                Ok::<OptId<CategoryId>, GetError>(OptId(None))
            } else {
                match spec_parse_u32(s@) {
                    Some(v) => Ok::<OptId<CategoryId>, GetError>(OptId(Some(CategoryId(v)))),
                    None => Err::<OptId<CategoryId>, GetError>(GetError::InvalidId),
                }
            },
    {
        if s.unicode_len() == 0 {
            return Ok(OptId(None));
        }
        match parse_u32(s) {
            Some(v) => Ok(OptId(Some(CategoryId(v)))),
            None => Err(GetError::InvalidId),
        }
    }
}

} // verus!
