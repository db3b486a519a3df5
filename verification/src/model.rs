//! Data carried through a trace: geographic positions, accepted hops and the
//! events the trace pipeline emits.
//!
//! Latitude and longitude are held in integer micro-degrees (degrees scaled
//! by one million), which keeps every coordinate a plain value the contracts
//! can speak about exactly. The boundary code that talks to the geolocation
//! service converts its decimal degrees to micro-degrees before handing a
//! position in.

use vstd::prelude::*;

verus! {

/// A geographic point in integer micro-degrees (degrees scaled by one
/// million).
#[derive(Debug, Clone, Copy, PartialEq, Eq, Structural)]
pub struct Position {
    pub lat_micro: i64,
    pub lon_micro: i64,
}

impl Position {
    /// Builds a position from micro-degree coordinates.
    pub fn from_micro(lat_micro: i64, lon_micro: i64) -> (p: Position)
        ensures
            p.lat_micro == lat_micro,
            p.lon_micro == lon_micro,
    {
        Position { lat_micro, lon_micro }
    }
}

/// One accepted hop: a node is only built after a successful geolocation
/// lookup, so every field is always meaningful (the hostname may be empty
/// for hops that did not resolve to a name).
#[derive(Debug)]
pub struct TraceNode {
    pub position: Position,
    pub hostname: String,
    pub isp: String,
    pub ip: String,
}

impl Clone for TraceNode {
    /// A field-by-field copy equal to the original.
    fn clone(&self) -> (r: TraceNode)
        ensures
            r == *self,
    {
        TraceNode {
            position: self.position,
            hostname: self.hostname.clone(),
            isp: self.isp.clone(),
            ip: self.ip.clone(),
        }
    }
}

/// A raw hop record as the hop-discovery mechanism reports it, before
/// enrichment: the textual IP and whatever hostname discovery saw.
#[derive(Debug, Clone)]
pub struct RawHop {
    pub ip: String,
    pub hostname: String,
}

/// A successful geolocation answer for one IP: where it sits and who runs it.
#[derive(Debug, Clone)]
pub struct Located {
    pub position: Position,
    pub isp: String,
}

/// What the trace pipeline emits: one `Node` per accepted hop, then exactly
/// one terminal `Finish`.
#[derive(Debug, Clone)]
pub enum TraceEvent {
    Node(TraceNode),
    Finish,
}

} // verus!
