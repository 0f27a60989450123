//! Identifiers of users and classes.

use vstd::prelude::*;

verus! {

/// A 128-bit unique identifier of a user or a class.
#[derive(Debug, Clone, Copy, PartialEq, Eq, Structural, Hash)]
pub struct Id {
    pub bits: u128,
}

/// The identifier that `uuid::Uuid::parse_str` reads from a text, if any.
pub uninterp spec fn parsed_uuid(text: Seq<char>) -> Option<u128>;

/// Relies on `uuid::Uuid::parse_str`: it accepts or rejects a text by the
/// text alone, and yields the identifier's 128 bits. Every accepted form
/// (simple, hyphenated, `urn:uuid:`) is 32, 36 or 45 ASCII characters long.
#[verifier::external_body]
fn parse_uuid(text: &str) -> (r: Option<u128>)
    ensures
        r == parsed_uuid(text@),
        text@.len() < 32 || text@.len() > 45 ==> r is None,
{
    uuid::Uuid::parse_str(text).ok().map(|u| u.as_u128())
}

impl Id {
    /// The identifier whose bits are all zero; it names the internal service.
    pub open spec fn nil_spec() -> Id {
        Id { bits: 0 }
    }

    pub fn nil() -> (r: Id)
        ensures
            r == Id::nil_spec(),
    {
        Id { bits: 0 }
    }

    pub fn is_nil(&self) -> (r: bool)
        ensures
            r == (*self == Id::nil_spec()),
    {
        self.bits == 0
    }

    /// Reads an identifier from its textual form.
    pub fn parse(text: &str) -> (r: Option<Id>)
        ensures
            text@.len() < 32 || text@.len() > 45 ==> r is None,
            match parsed_uuid(text@) {
                Some(b) => r == Some(Id { bits: b }),
                None => r is None,
            },
    {
        match parse_uuid(text) {
            Some(b) => Some(Id { bits: b }),
            None => None,
        }
    }
}

} // verus!
