//! The closed set of map-tile providers the application can draw from.

use vstd::prelude::*;

verus! {

/// Tile sources the map widget may be configured with. A closed enumeration:
/// the UI dispatches on it instead of on a hidden provider map.
#[derive(Debug, Clone, Copy, PartialEq, Eq, Hash)]
pub enum Provider {
    OpenStreetMap,
}

} // verus!
