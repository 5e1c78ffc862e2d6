//! Identifiers of the system: ULIDs, which sort by time of creation, and the
//! readable names of model providers.

use vstd::prelude::*;
use vstd::utf8::*;

use crate::outside;

verus! {

/// Why a text is no identifier.
#[derive(Debug, Clone, Copy, PartialEq, Eq, Structural)]
pub enum IdError {
    /// The text is not 26 bytes long.
    InvalidLength,
    /// A character is outside the alphabet.
    InvalidChar,
}

/// Reads an identifier's number from its text.
fn parse(s: &str) -> (r: Result<u128, IdError>)
    ensures
        r.ok() == outside::ulid_number(s@),
        (r matches Err(IdError::InvalidLength)) <==> encode_utf8(s@).len() != 26,
{
    outside::ulid_from_string(s)
}

/// Identifier of a conversation session.
#[derive(Debug, Clone, Copy, PartialEq, Eq, PartialOrd, Ord, Hash, Structural)]
pub struct SessionId(pub u128);

impl SessionId {
    /// A fresh identifier, from the clock and a random source.
    pub fn new() -> Self {
        SessionId(outside::ulid_new())
    }

    /// The identifier that a text spells.
    pub fn from_text(s: &str) -> (r: Result<Self, IdError>)
        ensures
            r matches Ok(id) ==> outside::ulid_number(s@) == Some(id.0),
            r is Err <==> outside::ulid_number(s@) is None,
            (r matches Err(IdError::InvalidLength)) <==> encode_utf8(s@).len() != 26,
    {
        match parse(s) {
            Ok(n) => Ok(SessionId(n)),
            Err(e) => Err(e),
        }
    }

    /// The text of the identifier.
    pub fn text(&self) -> (r: String)
        ensures
            r@ == outside::ulid_chars(self.0),
            r@.len() == 26,
            outside::ulid_number(r@) == Some(self.0),
    {
        outside::ulid_to_string(self.0)
    }
}

/// Identifier of a message, of the user or of the assistant.
#[derive(Debug, Clone, Copy, PartialEq, Eq, PartialOrd, Ord, Hash, Structural)]
pub struct MessageId(pub u128);

impl MessageId {
    /// A fresh identifier, from the clock and a random source.
    pub fn new() -> Self {
        MessageId(outside::ulid_new())
    }

    /// The identifier that a text spells.
    pub fn from_text(s: &str) -> (r: Result<Self, IdError>)
        ensures
            r matches Ok(id) ==> outside::ulid_number(s@) == Some(id.0),
            r is Err <==> outside::ulid_number(s@) is None,
            (r matches Err(IdError::InvalidLength)) <==> encode_utf8(s@).len() != 26,
    {
        match parse(s) {
            Ok(n) => Ok(MessageId(n)),
            Err(e) => Err(e),
        }
    }

    /// The text of the identifier.
    pub fn text(&self) -> (r: String)
        ensures
            r@ == outside::ulid_chars(self.0),
            r@.len() == 26,
            outside::ulid_number(r@) == Some(self.0),
    {
        outside::ulid_to_string(self.0)
    }
}

/// Identifier of a request for approval.
#[derive(Debug, Clone, Copy, PartialEq, Eq, PartialOrd, Ord, Hash, Structural)]
pub struct ApprovalId(pub u128);

impl ApprovalId {
    /// A fresh identifier, from the clock and a random source.
    pub fn new() -> Self {
        ApprovalId(outside::ulid_new())
    }

    /// The identifier that a text spells.
    pub fn from_text(s: &str) -> (r: Result<Self, IdError>)
        ensures
            r matches Ok(id) ==> outside::ulid_number(s@) == Some(id.0),
            r is Err <==> outside::ulid_number(s@) is None,
            (r matches Err(IdError::InvalidLength)) <==> encode_utf8(s@).len() != 26,
    {
        match parse(s) {
            Ok(n) => Ok(ApprovalId(n)),
            Err(e) => Err(e),
        }
    }

    /// The text of the identifier.
    pub fn text(&self) -> (r: String)
        ensures
            r@ == outside::ulid_chars(self.0),
            r@.len() == 26,
            outside::ulid_number(r@) == Some(self.0),
    {
        outside::ulid_to_string(self.0)
    }
}

/// Identifier of one invocation of a tool.
#[derive(Debug, Clone, Copy, PartialEq, Eq, PartialOrd, Ord, Hash, Structural)]
pub struct ToolCallId(pub u128);

impl ToolCallId {
    /// A fresh identifier, from the clock and a random source.
    pub fn new() -> Self {
        ToolCallId(outside::ulid_new())
    }

    /// The identifier that a text spells.
    pub fn from_text(s: &str) -> (r: Result<Self, IdError>)
        ensures
            r matches Ok(id) ==> outside::ulid_number(s@) == Some(id.0),
            r is Err <==> outside::ulid_number(s@) is None,
            (r matches Err(IdError::InvalidLength)) <==> encode_utf8(s@).len() != 26,
    {
        match parse(s) {
            Ok(n) => Ok(ToolCallId(n)),
            Err(e) => Err(e),
        }
    }

    /// The text of the identifier.
    pub fn text(&self) -> (r: String)
        ensures
            r@ == outside::ulid_chars(self.0),
            r@.len() == 26,
            outside::ulid_number(r@) == Some(self.0),
    {
        outside::ulid_to_string(self.0)
    }
}

/// Identifier of an entry of the audit log.
#[derive(Debug, Clone, Copy, PartialEq, Eq, PartialOrd, Ord, Hash, Structural)]
pub struct AuditId(pub u128);

impl AuditId {
    /// A fresh identifier, from the clock and a random source.
    pub fn new() -> Self {
        AuditId(outside::ulid_new())
    }

    /// The identifier that a text spells.
    pub fn from_text(s: &str) -> (r: Result<Self, IdError>)
        ensures
            r matches Ok(id) ==> outside::ulid_number(s@) == Some(id.0),
            r is Err <==> outside::ulid_number(s@) is None,
            (r matches Err(IdError::InvalidLength)) <==> encode_utf8(s@).len() != 26,
    {
        match parse(s) {
            Ok(n) => Ok(AuditId(n)),
            Err(e) => Err(e),
        }
    }

    /// The text of the identifier.
    pub fn text(&self) -> (r: String)
        ensures
            r@ == outside::ulid_chars(self.0),
            r@.len() == 26,
            outside::ulid_number(r@) == Some(self.0),
    {
        outside::ulid_to_string(self.0)
    }
}

/// Identifier of a rule of automatic approval.
#[derive(Debug, Clone, Copy, PartialEq, Eq, PartialOrd, Ord, Hash, Structural)]
pub struct RuleId(pub u128);

impl RuleId {
    /// A fresh identifier, from the clock and a random source.
    pub fn new() -> Self {
        RuleId(outside::ulid_new())
    }

    /// The identifier that a text spells.
    pub fn from_text(s: &str) -> (r: Result<Self, IdError>)
        ensures
            r matches Ok(id) ==> outside::ulid_number(s@) == Some(id.0),
            r is Err <==> outside::ulid_number(s@) is None,
            (r matches Err(IdError::InvalidLength)) <==> encode_utf8(s@).len() != 26,
    {
        match parse(s) {
            Ok(n) => Ok(RuleId(n)),
            Err(e) => Err(e),
        }
    }

    /// The text of the identifier.
    pub fn text(&self) -> (r: String)
        ensures
            r@ == outside::ulid_chars(self.0),
            r@.len() == 26,
            outside::ulid_number(r@) == Some(self.0),
    {
        outside::ulid_to_string(self.0)
    }
}

/// Stable name of a model provider, for the audit log. It is no ULID: it is a
/// readable, hierarchical name such as `local:vllm:qwen3.5-8b`.
#[derive(Debug, PartialEq, Eq, Hash)]
pub struct ProviderId(pub String);

impl ProviderId {
    /// The provider of a given name.
    pub fn from_name(s: &str) -> (r: Self)
        ensures
            r.0@ == s@,
    {
        ProviderId(s.to_owned())
    }

    /// The name.
    pub fn text(&self) -> (r: String)
        ensures
            r == self.0,
    {
        self.0.clone()
    }
}

impl Clone for ProviderId {
    fn clone(&self) -> (r: Self)
        ensures
            r == *self,
    {
        ProviderId(self.0.clone())
    }
}

} // verus!
