use vstd::prelude::*;

verus! {

/// Seconds in the lifetime of a hub: twenty-four hours.
pub const HUB_TTL_SECS: u64 = 86400;

/// First second (Unix time) of 0000-01-01, the start of the four-digit years
/// that RFC 3339 text can hold.
pub const FIRST_FORMATTABLE_SECS: i64 = -62167219200;

/// Last second (Unix time) of 9999-12-31, the end of the four-digit years.
pub const LAST_FORMATTABLE_SECS: i64 = 253402300799;

/// Last second from which a full hub lifetime still ends within the
/// four-digit years.
pub const LATEST_CREATION_SECS: i64 = 253402214399;

pub const NANOS_PER_SEC: u32 = 1_000_000_000;

/// An instant in UTC, as seconds and nanoseconds since the Unix epoch.
#[derive(Debug, Clone, Copy, PartialEq, Eq, Structural)]
pub struct Timestamp {
    pub secs: i64,
    pub nanos: u32,
}

/// Text that chrono's RFC 3339 formatting gives for an instant.
pub uninterp spec fn rfc3339_of(secs: i64, nanos: u32) -> Seq<char>;

/// Relies on chrono's `DateTime::<Utc>::from_timestamp`, which yields a value
/// for every second of the years 0 to 9999 and every sub-second count below
/// one second, and on `DateTime::to_rfc3339`, whose
/// text depends on the instant alone.
#[verifier::external_body]
fn format_rfc3339(secs: i64, nanos: u32) -> (r: String)
    requires
        FIRST_FORMATTABLE_SECS <= secs <= LAST_FORMATTABLE_SECS,
        nanos < NANOS_PER_SEC,
    ensures
        r@ == rfc3339_of(secs, nanos),
{
    match chrono::DateTime::<chrono::Utc>::from_timestamp(secs, nanos) {
        Some(t) => t.to_rfc3339(),
        None => String::new(),
    }
}

impl Timestamp {
    /// Instants that the hub lifecycle accepts as creation times: from the
    /// start of year 0 up to the last one whose expiry can still be written
    /// out.
    pub open spec fn wf(self) -> bool {
        &&& FIRST_FORMATTABLE_SECS <= self.secs <= LATEST_CREATION_SECS
        &&& self.nanos < NANOS_PER_SEC
    }

    /// Builds an instant when it lies in the accepted range.
    pub fn from_unix(secs: i64, nanos: u32) -> (r: Option<Timestamp>)
        ensures
            r is Some <==> (Timestamp { secs, nanos }).wf(),
            r is Some ==> r->Some_0 == (Timestamp { secs, nanos }),
    {
        if FIRST_FORMATTABLE_SECS <= secs && secs <= LATEST_CREATION_SECS && nanos < NANOS_PER_SEC {
            Some(Timestamp { secs, nanos })
        } else {
            None
        }
    }

    /// The instant one hub lifetime later.
    pub fn plus_hub_ttl(&self) -> (r: Timestamp)
        requires
            self.wf(),
        ensures
            r.secs == self.secs + HUB_TTL_SECS,
            r.nanos == self.nanos,
            FIRST_FORMATTABLE_SECS <= r.secs <= LAST_FORMATTABLE_SECS,
    {
        Timestamp { secs: self.secs + HUB_TTL_SECS as i64, nanos: self.nanos }
    }

    /// RFC 3339 text of an instant of the years 0 to 9999.
    pub fn to_rfc3339(&self) -> (r: String)
        requires
            FIRST_FORMATTABLE_SECS <= self.secs <= LAST_FORMATTABLE_SECS,
            self.nanos < NANOS_PER_SEC,
        ensures
            r@ == rfc3339_of(self.secs, self.nanos),
    {
        format_rfc3339(self.secs, self.nanos)
    }
}

} // verus!
