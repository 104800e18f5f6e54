use vstd::prelude::*;

use crate::errors::DbError;

verus! {

/// A character that is safe for direct interpolation into SQL text:
/// ASCII letters, digits, and underscore. Anything else (whitespace,
/// quotes, semicolons, ...) is rejected.
pub open spec fn identifier_char(c: char) -> bool {
    ('a' as u32 <= c as u32 && c as u32 <= 'z' as u32)
    || ('A' as u32 <= c as u32 && c as u32 <= 'Z' as u32)
    || ('0' as u32 <= c as u32 && c as u32 <= '9' as u32)
    || c == '_'
}

/// The longest identifier the guard accepts; the backend truncates
/// longer names, so they are refused rather than silently shortened.
pub const MAX_IDENTIFIER_LEN: usize = 63;

/// An identifier the guard accepts: non-empty, within the length bound,
/// and made of safe characters only.
pub open spec fn valid_identifier(s: Seq<char>) -> bool {
    &&& 0 < s.len()
    &&& s.len() <= MAX_IDENTIFIER_LEN
    &&& forall|i: int| 0 <= i < s.len() ==> identifier_char(s[i])
}

/// What the allow-list buys: an accepted identifier carries no whitespace,
/// no quoting character, no statement separator and no comment leader, so
/// interpolating it into SQL text cannot change the statement's shape.
pub proof fn lemma_accepted_identifier_is_interpolation_safe(s: Seq<char>)
    requires
        valid_identifier(s),
    ensures
        forall|i: int|
            0 <= i < s.len() ==> s[i] != ' ' && s[i] != ';' && s[i] != '\'' && s[i] != '"' && s[i]
                != '\\' && s[i] != '-',
{
    assert forall|i: int|
        0 <= i < s.len() implies s[i] != ' ' && s[i] != ';' && s[i] != '\'' && s[i] != '"' && s[i]
        != '\\' && s[i] != '-' by {
        assert(identifier_char(s[i]));
    }
}

/// Identifier guard: allow-list validation of a schema identifier before it
/// may be interpolated into SQL text. Fail-closed: a rejected identifier is
/// never truncated or escaped, the whole call fails with `InvalidIdentifier`.
pub fn validate(identifier: &str) -> (r: Result<&str, DbError>)
    ensures
        r is Ok <==> valid_identifier(identifier@),
        r matches Ok(t) ==> t@ == identifier@,
        r is Err ==> r == Err::<&str, DbError>(DbError::InvalidIdentifier),
{
    let n = identifier.unicode_len();
    if n == 0 || n > MAX_IDENTIFIER_LEN {
        return Err(DbError::InvalidIdentifier);
    }
    for i in 0..n
        invariant
            n == identifier@.len(),
            forall|j: int| 0 <= j < i ==> identifier_char(identifier@[j]),
    {
        let c = identifier.get_char(i);
        let u = c as u32;
        let safe = ('a' as u32 <= u && u <= 'z' as u32)
            || ('A' as u32 <= u && u <= 'Z' as u32)
            || ('0' as u32 <= u && u <= '9' as u32)
            || c == '_';
        if !safe {
            return Err(DbError::InvalidIdentifier);
        }
    }
    Ok(identifier)
}

} // verus!
