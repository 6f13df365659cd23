use vstd::prelude::*;

verus! {

/// Whether a character separates the parts of an account name.
pub open spec fn is_separator(c: char) -> bool {
    c == '-' || c == '_' || c == '.'
}

/// Whether a character may stand in an account name.
pub open spec fn is_account_char(c: char) -> bool {
    ('a' <= c && c <= 'z') || ('0' <= c && c <= '9') || is_separator(c)
}

/// A valid NEAR account name: 2 to 64 characters among lower-case letters,
/// digits and the separators `-`, `_`, `.`, where no separator starts or ends
/// the name and no two separators follow each other.
pub open spec fn valid_account_id(s: Seq<char>) -> bool {
    &&& 2 <= s.len() <= 64
    &&& forall|i: int| 0 <= i < s.len() ==> is_account_char(#[trigger] s[i])
    &&& !is_separator(s[0])
    &&& !is_separator(s[s.len() - 1])
    &&& forall|i: int|
        0 <= i < s.len() - 1 ==> !(is_separator(#[trigger] s[i]) && is_separator(s[i + 1]))
}

/// Checks an account name with `near_sdk::env::is_valid_account_id`.
///
/// Trusted: the contract claims that the outside function accepts exactly the
/// names described by [`valid_account_id`]. Its source checks the byte length
/// (2 to 64) and then scans the bytes, refusing any byte outside `a-z`, `0-9`,
/// `-`, `_`, `.`, two separators in a row, a leading or a trailing separator. A
/// name with a character outside ASCII is refused both by the source (its
/// bytes are not in the allowed set) and by the statement, and for an ASCII
/// name bytes and characters coincide.
#[verifier::external_body]
pub(crate) fn near_is_valid_account_id(account: &String) -> (valid: bool)
    ensures
        valid == valid_account_id(account@),
{
    near_sdk::env::is_valid_account_id(account.as_bytes())
}

} // verus!
