//! Validated name tokens used for artifact and vendor names.
use vstd::prelude::*;

verus! {

/// A character is allowed in an identifier iff it is ASCII alphanumeric,
/// an underscore, or a hyphen.
pub open spec fn spec_valid_id_char(c: char) -> bool {
    ||| 'a' <= c && c <= 'z'
    ||| 'A' <= c && c <= 'Z'
    ||| '0' <= c && c <= '9'
    ||| c == '_'
    ||| c == '-'
}

/// A text is a valid identifier iff it is non-empty and every character is
/// alphanumeric, an underscore, or a hyphen.
pub open spec fn spec_valid_identifier(s: Seq<char>) -> bool {
    &&& s.len() > 0
    &&& forall|i: int| 0 <= i < s.len() ==> spec_valid_id_char(#[trigger] s[i])
}

/// Decides whether a character may appear in an identifier: alphanumeric
/// characters, underscores and hyphens are allowed, everything else is not.
pub fn is_valid_id_char(c: char) -> (r: bool)
    ensures
        r == spec_valid_id_char(c),
{
    ('a' <= c && c <= 'z') || ('A' <= c && c <= 'Z') || ('0' <= c && c <= '9') || c == '_' || c
        == '-'
}

/// Why a text was rejected as an identifier.
#[derive(Debug, Clone, Copy, PartialEq, Eq)]
pub enum IdentifierError {
    /// The text was empty.
    Empty,
    /// The text held a character that identifiers do not allow.
    InvalidCharacter { ch: char },
}

/// A validated name token: non-empty, and made only of alphanumeric
/// characters, underscores and hyphens. Used for artifact and vendor names.
#[derive(Debug, PartialEq, Eq, Hash, PartialOrd, Ord)]
pub struct ValidIdentifier(pub String);

impl Clone for ValidIdentifier {
    fn clone(&self) -> (r: Self)
        ensures
            r == *self,
    {
        ValidIdentifier(self.0.clone())
    }
}

impl View for ValidIdentifier {
    type V = Seq<char>;

    open spec fn view(&self) -> Seq<char> {
        self.0@
    }
}

impl ValidIdentifier {
    /// The invariant every constructed identifier satisfies.
    pub open spec fn wf(&self) -> bool {
        spec_valid_identifier(self@)
    }

    /// Parses a text into an identifier. Construction succeeds iff the text
    /// is non-empty and every character is alphanumeric, `_` or `-`; the
    /// identifier then holds the text exactly.
    pub fn from_str(input: &str) -> (r: Result<Self, IdentifierError>)
        ensures
            r is Ok <==> spec_valid_identifier(input@),
            r matches Ok(id) ==> id@ == input@ && id.wf(),
            r matches Err(e) ==> (e matches IdentifierError::InvalidCharacter { ch } ==> exists|i:
                int|
                0 <= i < input@.len() && input@[i] == ch && !spec_valid_id_char(ch)),
            r matches Err(e) ==> (e is Empty <==> input@.len() == 0),
    {
        let len = input.unicode_len();
        if len == 0 {
            return Err(IdentifierError::Empty);
        }
        for i in 0..len
            invariant
                len == input@.len(),
                forall|j: int| 0 <= j < i ==> spec_valid_id_char(#[trigger] input@[j]),
        {
            let c = input.get_char(i);
            if !is_valid_id_char(c) {
                return Err(IdentifierError::InvalidCharacter { ch: c });
            }
        }
        Ok(ValidIdentifier(input.to_owned()))
    }

    /// The identifier's text.
    pub fn as_str(&self) -> (r: &str)
        ensures
            r@ == self@,
    {
        self.0.as_str()
    }
}

} // verus!
