//! Instants of the UTC time line and their RFC 3339 text.

use vstd::prelude::*;

use crate::outside;

verus! {

/// An instant: seconds since the epoch and nanoseconds within the second.
#[derive(Debug, Clone, Copy, PartialEq, Eq, Structural)]
pub struct Timestamp {
    pub secs: i64,
    pub nanos: u32,
}

impl Timestamp {
    /// Whether the instant lies in the years 0 to 9999, which RFC 3339 can
    /// spell.
    pub open spec fn in_range(self) -> bool {
        &&& -62167219200 <= self.secs <= 253402300799
        &&& self.nanos < 1_000_000_000
    }

    /// Whether the instant lies in the years 0 to 9999.
    pub fn is_in_range(&self) -> (r: bool)
        ensures
            r == self.in_range(),
    {
        -62167219200 <= self.secs && self.secs <= 253402300799 && self.nanos < 1_000_000_000
    }

    /// The RFC 3339 text of the instant.
    pub fn to_rfc3339(&self) -> (r: String)
        requires
            self.in_range(),
        ensures
            r@ == outside::rfc3339_chars(self.secs, self.nanos),
            outside::rfc3339_instant(r@) == Some((self.secs, self.nanos)),
    {
        outside::rfc3339_write(self.secs, self.nanos)
    }
}

/// The instant that an RFC 3339 text spells, if it spells one.
pub fn parse_ts(s: &str) -> (r: Option<Timestamp>)
    ensures
        r matches Some(t) ==> outside::rfc3339_instant(s@) == Some((t.secs, t.nanos)),
        r is None <==> outside::rfc3339_instant(s@) is None,
{
    match outside::rfc3339_parse(s) {
        Some((secs, nanos)) => Some(Timestamp { secs, nanos }),
        None => None,
    }
}

} // verus!
