//! The trace pipeline's decisions, separated from the I/O that feeds them:
//! how a geolocation answer is accepted, how a target resolves, which hop
//! becomes an event, and what the full event stream of a trace looks like.
//!
//! The unverified boundary performs the network calls and hands their
//! outcomes in as plain values; every choice made on those outcomes is
//! verified here. The event stream always carries all accepted nodes in
//! discovery order and ends with exactly one terminal `Finish`, whatever
//! failed along the way.

use vstd::prelude::*;
use crate::model::{Located, Position, RawHop, TraceEvent, TraceNode};

verus! {

/// The node built for an enriched hop: discovery supplies hostname and IP,
/// the lookup supplies position and ISP.
pub open spec fn node_for(hop: RawHop, found: Located) -> TraceNode {
    TraceNode { position: found.position, hostname: hop.hostname, isp: found.isp, ip: hop.ip }
}

/// Accepts a geolocation response: only an explicit success status yields
/// a located answer, carrying the reported coordinates and ISP.
pub fn interpret_lookup(status: String, lat_micro: i64, lon_micro: i64, isp: String) -> (r: Option<
    Located,
>)
    ensures
        status@ == "success"@ ==> (r matches Some(l) && l.position.lat_micro == lat_micro
            && l.position.lon_micro == lon_micro && l.isp == isp),
        status@ != "success"@ ==> r is None,
{
    let success: String = "success".to_owned();
    if status == success {
        Some(Located { position: Position { lat_micro, lon_micro }, isp })
    } else {
        None
    }
}

/// Decides the trace's target address: a literal IP is used directly;
/// otherwise the first address the name lookup returned; `None` when both
/// ways failed, which ends the trace before any hop is discovered.
pub fn resolve_target(literal: Option<String>, looked_up: Option<Vec<String>>) -> (r: Option<
    String,
>)
    ensures
        literal matches Some(ip) ==> r == Some(ip),
        literal is None && (looked_up matches Some(addrs) && addrs@.len() > 0) ==> (r matches Some(
            first,
        ) && first == looked_up->0@[0]),
        literal is None && (looked_up matches Some(addrs) ==> addrs@.len() == 0) ==> r is None,
{
    match literal {
        Some(ip) => Some(ip),
        None => match looked_up {
            Some(addrs) => if addrs.len() > 0 {
                Some(addrs[0].clone())
            } else {
                None
            },
            None => None,
        },
    }
}

/// Builds the local-vantage event: a successful self lookup becomes a node
/// named "Local" carrying the machine's public IP; a failed lookup is
/// silently skipped and the trace goes on.
pub fn self_event(ip: String, lookup: Option<Located>) -> (r: Option<TraceEvent>)
    ensures
        lookup matches Some(found) ==> (r matches Some(e) && e matches TraceEvent::Node(n)
            && n.position == found.position && n.isp == found.isp && n.ip == ip && n.hostname@
            == "Local"@),
        lookup is None ==> r is None,
{
    match lookup {
        Some(found) => Some(
            TraceEvent::Node(
                TraceNode {
                    position: found.position,
                    hostname: "Local".to_owned(),
                    isp: found.isp,
                    ip,
                },
            ),
        ),
        None => None,
    }
}

/// Builds the event for one discovered hop: a successful lookup becomes a
/// `Node` carrying the hop's hostname and IP with the lookup's position
/// and ISP; a failed lookup drops the hop without an event.
pub fn hop_event(hop: RawHop, lookup: Option<Located>) -> (r: Option<TraceEvent>)
    ensures
        lookup matches Some(found) ==> r == Some(TraceEvent::Node(node_for(hop, found))),
        lookup is None ==> r is None,
{
    match lookup {
        Some(found) => Some(
            TraceEvent::Node(
                TraceNode {
                    position: found.position,
                    hostname: hop.hostname,
                    isp: found.isp,
                    ip: hop.ip,
                },
            ),
        ),
        None => None,
    }
}

/// The events the enrichment stage emits for the discovered hops, in
/// discovery order: one `Node` per successful lookup, nothing for a
/// failed one.
pub open spec fn hop_events(hops: Seq<RawHop>, lookups: Seq<Option<Located>>) -> Seq<TraceEvent>
    decreases hops.len(),
{
    if hops.len() == 0 || lookups.len() == 0 {
        Seq::empty()
    } else {
        (match lookups[0] {
            Some(found) => seq![TraceEvent::Node(node_for(hops[0], found))],
            None => Seq::empty(),
        }) + hop_events(hops.skip(1), lookups.skip(1))
    }
}

/// How many lookups of the sequence succeeded.
pub open spec fn count_some(lookups: Seq<Option<Located>>) -> int
    decreases lookups.len(),
{
    if lookups.len() == 0 {
        0
    } else {
        (if lookups[0] is Some {
            1int
        } else {
            0int
        }) + count_some(lookups.skip(1))
    }
}

/// The position of the `k`-th successful lookup in the sequence.
pub open spec fn kth_success(lookups: Seq<Option<Located>>, k: int) -> int
    decreases lookups.len(),
{
    if lookups.len() == 0 {
        0
    } else if lookups[0] is Some {
        if k == 0 {
            0
        } else {
            1 + kth_success(lookups.skip(1), k - 1)
        }
    } else {
        1 + kth_success(lookups.skip(1), k)
    }
}

/// Enrichment emits exactly one event per successful lookup and preserves
/// discovery order: the `k`-th emitted event is the node of the `k`-th hop
/// whose lookup succeeded, and those source positions are strictly
/// increasing in `k`.
pub proof fn lemma_hop_events_order(hops: Seq<RawHop>, lookups: Seq<Option<Located>>, k: int)
    requires
        hops.len() == lookups.len(),
        0 <= k < count_some(lookups),
    ensures
        hop_events(hops, lookups).len() == count_some(lookups),
        0 <= kth_success(lookups, k) < lookups.len(),
        lookups[kth_success(lookups, k)] is Some,
        hop_events(hops, lookups)[k] == TraceEvent::Node(
            node_for(hops[kth_success(lookups, k)], lookups[kth_success(lookups, k)]->0),
        ),
        k > 0 ==> kth_success(lookups, k - 1) < kth_success(lookups, k),
    decreases hops.len(),
{
    lemma_hop_events_length(hops, lookups);
    let rest_h = hops.skip(1);
    let rest_l = lookups.skip(1);
    if lookups[0] is Some {
        if k == 0 {
            if count_some(rest_l) > 0 {
                lemma_hop_events_order(rest_h, rest_l, 0);
            }
        } else {
            lemma_hop_events_order(rest_h, rest_l, k - 1);
            if k - 1 > 0 {
                lemma_hop_events_order(rest_h, rest_l, k - 2);
            }
        }
    } else {
        lemma_hop_events_order(rest_h, rest_l, k);
        if k > 0 {
            lemma_hop_events_order(rest_h, rest_l, k - 1);
        }
    }
}

/// Enrichment emits as many events as there were successful lookups.
pub proof fn lemma_hop_events_length(hops: Seq<RawHop>, lookups: Seq<Option<Located>>)
    requires
        hops.len() == lookups.len(),
    ensures
        hop_events(hops, lookups).len() == count_some(lookups),
    decreases hops.len(),
{
    if hops.len() == 0 {
    } else {
        lemma_hop_events_length(hops.skip(1), lookups.skip(1));
    }
}

/// No more lookups succeed than were made.
pub proof fn lemma_count_some_bounds(lookups: Seq<Option<Located>>)
    ensures
        0 <= count_some(lookups) <= lookups.len(),
    decreases lookups.len(),
{
    if lookups.len() == 0 {
    } else {
        lemma_count_some_bounds(lookups.skip(1));
    }
}

/// The whole event stream of one trace, given what the outside world
/// answered: the optional local-vantage node, then — only when the target
/// resolved — the enriched hop events in discovery order, then the single
/// terminal `Finish`.
pub open spec fn event_plan(
    self_node: Option<TraceNode>,
    resolved: bool,
    hops: Seq<RawHop>,
    lookups: Seq<Option<Located>>,
) -> Seq<TraceEvent> {
    (match self_node {
        Some(n) => seq![TraceEvent::Node(n)],
        None => Seq::<TraceEvent>::empty(),
    }) + (if resolved {
        hop_events(hops, lookups)
    } else {
        Seq::<TraceEvent>::empty()
    }) + seq![TraceEvent::Finish]
}

/// Every trace terminates with exactly one `Finish`, which comes after all
/// `Node` events, on every path including total failure.
pub proof fn lemma_plan_terminal(
    self_node: Option<TraceNode>,
    resolved: bool,
    hops: Seq<RawHop>,
    lookups: Seq<Option<Located>>,
)
    ensures
        event_plan(self_node, resolved, hops, lookups).len() >= 1,
        event_plan(self_node, resolved, hops, lookups).last() is Finish,
        forall|k: int|
            0 <= k < event_plan(self_node, resolved, hops, lookups).len() - 1 ==> event_plan(
                self_node,
                resolved,
                hops,
                lookups,
            )[k] is Node,
{
    lemma_hop_events_all_nodes(hops, lookups);
}

/// Every event the enrichment stage emits is a `Node`.
pub proof fn lemma_hop_events_all_nodes(hops: Seq<RawHop>, lookups: Seq<Option<Located>>)
    ensures
        forall|k: int|
            0 <= k < hop_events(hops, lookups).len() ==> #[trigger] hop_events(hops, lookups)[k]
                is Node,
    decreases hops.len(),
{
    if hops.len() == 0 || lookups.len() == 0 {
    } else {
        lemma_hop_events_all_nodes(hops.skip(1), lookups.skip(1));
    }
}

/// A trace whose target never resolved, with no local vantage point,
/// produces no `Node` event at all: its stream is the single `Finish`.
pub proof fn lemma_unresolved_plan(hops: Seq<RawHop>, lookups: Seq<Option<Located>>)
    ensures
        event_plan(None, false, hops, lookups) == seq![TraceEvent::Finish],
{
    assert(event_plan(None, false, hops, lookups) =~= seq![TraceEvent::Finish]);
}

} // verus!
