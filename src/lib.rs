//! Builds per-travel-mode, directed, weighted routing graphs from tagged way
//! segments.
//!
//! Weights are integers in thousandths of a preference unit: larger numbers
//! mean a stronger preference, and zero or less means impassable.
use vstd::prelude::*;

pub mod adjacency;
pub mod config;
pub mod edges;
pub mod restriction;
pub mod segment;
pub mod text;

verus! {

/// Identifier of a map node.
pub type ElementID = i64;

/// Weight given to an edge, in thousandths. Larger numbers indicate stronger
/// preference; zero or less means the way cannot be used.
pub type EdgeWeight = i64;

/// Weight (or below) indicating a way is not usable.
pub const CANNOT_USE: EdgeWeight = 0;

/// Permitted access types and road or rail type weighting that together
/// define routing preferences.
pub struct RouteConfig {
    pub name: String,
    /// Weights keyed to road or rail types; larger numbers indicate stronger
    /// preference. Where a type repeats, the first entry counts.
    pub weights: Vec<(String, EdgeWeight)>,
    /// Usable access types ordered by specificity. The first item should be
    /// most general and the last most specific so that later types can
    /// override earlier ones.
    pub can_use: Vec<String>,
}

/// Result of a routing request.
pub enum Status {
    /// Start and end nodes are not connected
    NoRoute,
    /// Found series of nodes connecting start to end
    Success,
    /// Maximum tries exceeded searching for connection between start and end
    /// nodes
    GaveUp,
}

} // verus!
