//! Plain response shapes shared with the weather ingestion job.
//!
//! The embedding program decodes the upstream JSON into these types; the
//! monthly-normals arithmetic itself works on floating-point values and so
//! stays with that program.

use vstd::prelude::*;

verus! {

/// One observation station, as the upstream station listing reports it.
///
/// The two dates are ISO `YYYY-MM-DD` day stamps and bound the period the
/// station has data for.
#[derive(Clone, Debug, PartialEq, Eq)]
pub struct Station {
    /// Upstream identifier of the station.
    pub id: String,
    /// First day the station has data for.
    pub mindate: String,
    /// Last day the station has data for.
    pub maxdate: String,
}

/// The body of one station-listing response.
#[derive(Clone, Debug, PartialEq, Eq)]
pub struct StationsResponse {
    /// The stations matching the query, in upstream order.
    pub results: Vec<Station>,
}

} // verus!
