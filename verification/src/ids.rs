//! Identifiers: time-ordered 128-bit tokens, generated at creation and
//! immutable afterwards.  The token itself is held as its 128 bits; the
//! uuid crate supplies generation, parsing and the canonical hyphenated
//! rendering through the trusted wrappers below.

use vstd::prelude::*;

verus! {

/// What `uuid::Uuid::try_parse` makes of a string: the 128 bits, or nothing.
pub uninterp spec fn parsed_uuid(s: Seq<char>) -> Option<u128>;

/// The canonical hyphenated rendering of 128 bits.
pub uninterp spec fn hyphenated_of(v: u128) -> Seq<char>;

/// Relies on `uuid::Uuid::try_parse`: a deterministic parser, so its outcome
/// is a function of the input characters alone.
#[verifier::external_body]
fn parse_uuid_str(s: &str) -> (r: Option<u128>)
    ensures
        r == parsed_uuid(s@),
{
    match uuid::Uuid::try_parse(s) {
        Ok(u) => Some(u.as_u128()),
        Err(_) => None,
    }
}

/// Relies on uuid's `Hyphenated` formatter: 36 characters (hex digits and
/// four hyphens) determined by the 128 bits alone.  `uuid::Uuid::try_parse`
/// accepts the hyphenated form and reads back the same bits, so the
/// rendering round-trips through the parser.
#[verifier::external_body]
fn format_uuid_bits(v: u128) -> (r: String)
    ensures
        r@ == hyphenated_of(v),
        r@.len() == 36,
        parsed_uuid(r@) == Some(v),
{
    uuid::Uuid::from_u128(v).hyphenated().to_string()
}

/// Relies on `uuid::Uuid::now_v7`, which draws on the clock and on
/// process-local randomness; nothing is assumed about the bits that come
/// back.  In degenerate environments the call itself can abort the
/// process: uuid panics if the system clock reads before the Unix epoch or
/// if the operating system's randomness source fails.  Neither condition
/// depends on any input, so no precondition can exclude them.
#[verifier::external_body]
fn fresh_uuid_bits() -> u128 {
    uuid::Uuid::now_v7().as_u128()
}

/// The identifier of a `User`.
#[derive(Debug, Clone, Copy, PartialEq, Eq, Structural)]
pub struct UserId(u128);

impl View for UserId {
    type V = u128;

    closed spec fn view(&self) -> u128 {
        self.0
    }
}

impl UserId {
    /// A fresh time-ordered identifier.
    pub fn new() -> Self {
        UserId(fresh_uuid_bits())
    }

    pub fn from_string(value: &str) -> (r: Result<Self, &'static str>)
        ensures
            match parsed_uuid(value@) {
                Some(b) => r matches Ok(id) && id@ == b,
                None => r matches Err(e) && e@ == "Invalid UUID string"@,
            },
    {
        match parse_uuid_str(value) {
            Some(b) => Ok(UserId(b)),
            None => Err("Invalid UUID string"),
        }
    }

    /// The canonical hyphenated rendering, 36 characters long; parsing it
    /// back yields this identifier's bits.
    pub fn value(&self) -> (s: String)
        ensures
            s@ == hyphenated_of(self@),
            s@.len() == 36,
            parsed_uuid(s@) == Some(self@),
    {
        format_uuid_bits(self.0)
    }

    /// The raw 128 bits, the key under which the entity is filed.
    pub fn as_u128(&self) -> (k: u128)
        ensures
            k == self@,
    {
        self.0
    }
}

/// The identifier of a `Group`.
#[derive(Debug, Clone, Copy, PartialEq, Eq, Structural)]
pub struct GroupId(u128);

impl View for GroupId {
    type V = u128;

    closed spec fn view(&self) -> u128 {
        self.0
    }
}

impl GroupId {
    /// A fresh time-ordered identifier.
    pub fn new() -> Self {
        GroupId(fresh_uuid_bits())
    }

    pub fn from_string(value: &str) -> (r: Result<Self, &'static str>)
        ensures
            match parsed_uuid(value@) {
                Some(b) => r matches Ok(id) && id@ == b,
                None => r matches Err(e) && e@ == "Invalid UUID string"@,
            },
    {
        match parse_uuid_str(value) {
            Some(b) => Ok(GroupId(b)),
            None => Err("Invalid UUID string"),
        }
    }

    /// The canonical hyphenated rendering, 36 characters long; parsing it
    /// back yields this identifier's bits.
    pub fn value(&self) -> (s: String)
        ensures
            s@ == hyphenated_of(self@),
            s@.len() == 36,
            parsed_uuid(s@) == Some(self@),
    {
        format_uuid_bits(self.0)
    }

    /// The raw 128 bits, the key under which the entity is filed.
    pub fn as_u128(&self) -> (k: u128)
        ensures
            k == self@,
    {
        self.0
    }
}

/// The identifier of a `UserGroup` association.
#[derive(Debug, Clone, Copy, PartialEq, Eq, Structural)]
pub struct UserGroupId(u128);

impl View for UserGroupId {
    type V = u128;

    closed spec fn view(&self) -> u128 {
        self.0
    }
}

impl UserGroupId {
    /// A fresh time-ordered identifier.
    pub fn new() -> Self {
        UserGroupId(fresh_uuid_bits())
    }

    pub fn from_string(value: &str) -> (r: Result<Self, &'static str>)
        ensures
            match parsed_uuid(value@) {
                Some(b) => r matches Ok(id) && id@ == b,
                None => r matches Err(e) && e@ == "Invalid UUID string"@,
            },
    {
        match parse_uuid_str(value) {
            Some(b) => Ok(UserGroupId(b)),
            None => Err("Invalid UUID string"),
        }
    }

    /// The canonical hyphenated rendering, 36 characters long; parsing it
    /// back yields this identifier's bits.
    pub fn value(&self) -> (s: String)
        ensures
            s@ == hyphenated_of(self@),
            s@.len() == 36,
            parsed_uuid(s@) == Some(self@),
    {
        format_uuid_bits(self.0)
    }

    /// The raw 128 bits, the key under which the entity is filed.
    pub fn as_u128(&self) -> (k: u128)
        ensures
            k == self@,
    {
        self.0
    }
}

} // verus!
