//! Document box scopes: the identifiers that partition a tenant's content.
use vstd::prelude::*;

verus! {

/// A character allowed in a scope: an ASCII letter or digit, or one of
/// `:`, `-`, `_` and `.`.
pub open spec fn is_scope_char(c: char) -> bool {
    ||| ('a' <= c && c <= 'z')
    ||| ('A' <= c && c <= 'Z')
    ||| ('0' <= c && c <= '9')
    ||| c == ':'
    ||| c == '-'
    ||| c == '_'
    ||| c == '.'
}

/// A valid scope is non-empty and made only of scope characters.
pub open spec fn is_valid_scope(s: Seq<char>) -> bool {
    s.len() > 0 && forall|i: int| 0 <= i < s.len() ==> is_scope_char(#[trigger] s[i])
}

fn scope_char(c: char) -> (r: bool)
    ensures
        r == is_scope_char(c),
{
    (c >= 'a' && c <= 'z') || (c >= 'A' && c <= 'Z') || (c >= '0' && c <= '9') || c == ':' || c
        == '-' || c == '_' || c == '.'
}

/// A validated document box scope.
#[derive(Debug, Clone, PartialEq, Eq, PartialOrd, Ord, Hash)]
pub struct DocumentBoxScope(pub String);

impl DocumentBoxScope {
    /// Whether `value` is an acceptable scope.
    pub fn validate_scope(value: &str) -> (r: bool)
        ensures
            r == is_valid_scope(value@),
    {
        broadcast use vstd::string::group_string_axioms;

        if value.is_empty() {
            return false;
        }
        let mut all_allowed = true;
        for c in it: value.chars()
            invariant
                it.seq() == value@,
                all_allowed == (forall|j: int| 0 <= j < it.index() ==> is_scope_char(#[trigger] it.seq()[j])),
        {
            if !scope_char(c) {
                all_allowed = false;
            }
        }
        all_allowed
    }

    /// A scope from `s`, when it is valid.
    pub fn from_str(s: &str) -> (r: Result<DocumentBoxScope, InvalidDocumentBoxScope>)
        ensures
            r matches Ok(scope) ==> is_valid_scope(s@) && scope.0@ == s@,
            r is Err ==> !is_valid_scope(s@),
    {
        if !DocumentBoxScope::validate_scope(s) {
            return Err(InvalidDocumentBoxScope);
        }
        Ok(DocumentBoxScope(s.to_owned()))
    }

    /// The scope's text.
    pub fn as_str(&self) -> (r: &str)
        ensures
            r@ == self.0@,
    {
        self.0.as_str()
    }
}

impl std::str::FromStr for DocumentBoxScope {
    type Err = InvalidDocumentBoxScope;

    fn from_str(s: &str) -> Result<DocumentBoxScope, InvalidDocumentBoxScope> {
        DocumentBoxScope::from_str(s)
    }
}

/// A text that is not a valid scope.
#[derive(Debug, PartialEq, Eq, Structural)]
pub struct InvalidDocumentBoxScope;

impl InvalidDocumentBoxScope {
    pub fn message(&self) -> (r: &'static str)
        ensures
            r@ == "invalid document box scope"@,
    {
        "invalid document box scope"
    }
}

/// Request to create a document box.
#[derive(Debug)]
pub struct CreateDocumentBoxRequest {
    /// Scope for the document box to use.
    pub scope: String,
}

impl CreateDocumentBoxRequest {
    /// The request's own constraint: a scope of at least one byte.
    pub fn validate(&self) -> (r: bool)
        ensures
            r == (self.scope@.len() > 0),
    {
        !self.scope.as_str().is_empty()
    }
}

} // verus!
