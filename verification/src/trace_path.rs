//! The UI-owned trace state: an append-only sequence of indexed nodes and
//! the tracing-in-progress flag, mutated only by draining the event stream
//! one event per redraw.
//!
//! Indices are assigned at insertion as the current sequence length, never
//! taken from the producer, so they are contiguous from zero however many
//! upstream lookups failed.

use vstd::prelude::*;
use crate::model::{Located, RawHop, TraceEvent, TraceNode};
use crate::orchestrator::{count_some, event_plan, hop_events, lemma_hop_events_length};

verus! {

/// How long the "copied" confirmation stays visible, in milliseconds.
pub const COPY_FEEDBACK_MS: u64 = 1000;

/// The mutable state behind the path renderer: accepted nodes tagged with
/// their insertion index, whether a trace is running, and when the
/// clipboard confirmation was last started.
pub struct TracePath {
    pub nodes: Vec<(usize, TraceNode)>,
    pub tracing: bool,
    pub copy_anim_time: Option<u64>,
}

impl TracePath {
    /// Every node carries its own position as its index: contiguous from
    /// zero, strictly increasing, no gaps.
    pub open spec fn well_indexed(self) -> bool {
        forall|k: int| 0 <= k < self.nodes@.len() ==> (#[trigger] self.nodes@[k]).0 == k
    }

    /// When the clipboard confirmation was started, if it is still pending.
    pub open spec fn copy_started(self) -> Option<u64> {
        self.copy_anim_time
    }

    /// An idle, empty trace state.
    pub fn new() -> (p: TracePath)
        ensures
            p.nodes@.len() == 0,
            !p.tracing,
            p.copy_started() is None,
            p.well_indexed(),
    {
        TracePath { nodes: Vec::new(), tracing: false, copy_anim_time: None }
    }

    /// Replaces the node sequence wholesale, tagging each node with its
    /// position in the new sequence.
    pub fn set_path(&mut self, nodes: Vec<TraceNode>)
        ensures
            final(self).nodes@.len() == nodes@.len(),
            forall|k: int|
                0 <= k < nodes@.len() ==> #[trigger] final(self).nodes@[k] == (
                    k as usize,
                    nodes@[k],
                ),
            final(self).tracing == old(self).tracing,
            final(self).copy_started() == old(self).copy_started(),
            final(self).well_indexed(),
    {
        let mut out: Vec<(usize, TraceNode)> = Vec::new();
        let mut i: usize = 0;
        while i < nodes.len()
            invariant
                i <= nodes@.len(),
                out@.len() == i,
                forall|k: int| 0 <= k < i ==> #[trigger] out@[k] == (k as usize, nodes@[k]),
            decreases nodes@.len() - i,
        {
            out.push((i, nodes[i].clone()));
            i = i + 1;
        }
        self.nodes = out;
    }

    /// Starts a fresh trace: clears the nodes and raises the tracing flag.
    /// The superseded trace is not signalled; its late events would land in
    /// this fresh state.
    pub fn begin_trace(&mut self)
        ensures
            final(self).nodes@.len() == 0,
            final(self).tracing,
            final(self).copy_started() == old(self).copy_started(),
            final(self).well_indexed(),
    {
        self.nodes.clear();
        self.tracing = true;
    }

    /// Applies one drained event: a `Node` is appended with index equal to
    /// the current length, `Finish` lowers the tracing flag. Appending
    /// preserves contiguous indexing.
    pub fn apply_event(&mut self, event: TraceEvent)
        requires
            old(self).nodes@.len() < usize::MAX,
        ensures
            event matches TraceEvent::Node(n) ==> {
                &&& final(self).nodes@ == old(self).nodes@.push((old(self).nodes@.len() as usize, n))
                &&& final(self).tracing == old(self).tracing
            },
            event is Finish ==> final(self).nodes@ == old(self).nodes@ && !final(self).tracing,
            final(self).copy_started() == old(self).copy_started(),
            old(self).well_indexed() ==> final(self).well_indexed(),
    {
        match event {
            TraceEvent::Node(node) => {
                let idx: usize = self.nodes.len();
                self.nodes.push((idx, node));
            },
            TraceEvent::Finish => {
                self.tracing = false;
            },
        }
    }

    /// Notes that the hovered node's IP was just copied, starting the
    /// confirmation timer at `now_ms`.
    pub fn note_copied(&mut self, now_ms: u64)
        ensures
            final(self).copy_started() == Some(now_ms),
            final(self).nodes@ == old(self).nodes@,
            final(self).tracing == old(self).tracing,
    {
        self.copy_anim_time = Some(now_ms);
    }

    /// Whether the "copied" confirmation is still visible at `now_ms`: true
    /// within `COPY_FEEDBACK_MS` of the start (and when the clock reads
    /// earlier than the start); an expired timer is cleared.
    pub fn copy_feedback(&mut self, now_ms: u64) -> (shown: bool)
        ensures
            shown == (old(self).copy_started() matches Some(start) && (now_ms <= start || now_ms
                - start <= COPY_FEEDBACK_MS)),
            shown ==> final(self).copy_started() == old(self).copy_started(),
            !shown ==> final(self).copy_started() is None,
            final(self).nodes@ == old(self).nodes@,
            final(self).tracing == old(self).tracing,
    {
        match self.copy_anim_time {
            Some(start) => {
                if now_ms <= start || now_ms - start <= COPY_FEEDBACK_MS {
                    true
                } else {
                    self.copy_anim_time = None;
                    false
                }
            },
            None => false,
        }
    }
}

/// The node sequence left after draining `events` into `nodes`, index-tagging
/// each accepted node with the length at its insertion; `Finish` events
/// leave the sequence alone.
pub open spec fn drained(
    nodes: Seq<(usize, TraceNode)>,
    events: Seq<TraceEvent>,
) -> Seq<(usize, TraceNode)>
    decreases events.len(),
{
    if events.len() == 0 {
        nodes
    } else {
        match events[0] {
            TraceEvent::Node(n) => drained(nodes.push((nodes.len() as usize, n)), events.skip(1)),
            TraceEvent::Finish => drained(nodes, events.skip(1)),
        }
    }
}

/// The payloads of the `Node` events of a stream, in stream order.
pub open spec fn node_payloads(events: Seq<TraceEvent>) -> Seq<TraceNode>
    decreases events.len(),
{
    if events.len() == 0 {
        Seq::empty()
    } else {
        match events[0] {
            TraceEvent::Node(n) => seq![n] + node_payloads(events.skip(1)),
            TraceEvent::Finish => node_payloads(events.skip(1)),
        }
    }
}

/// Draining any event stream preserves the nodes already accepted and
/// appends exactly the stream's `Node` payloads, in stream order.
pub proof fn lemma_drained_appends(nodes: Seq<(usize, TraceNode)>, events: Seq<TraceEvent>)
    ensures
        drained(nodes, events).len() == nodes.len() + node_payloads(events).len(),
        forall|k: int| 0 <= k < nodes.len() ==> #[trigger] drained(nodes, events)[k] == nodes[k],
        forall|k: int|
            0 <= k < node_payloads(events).len() ==> (#[trigger] drained(nodes, events)[nodes.len()
                + k]).1 == node_payloads(events)[k],
    decreases events.len(),
{
    if events.len() == 0 {
    } else {
        match events[0] {
            TraceEvent::Node(n) => {
                let pushed = nodes.push((nodes.len() as usize, n));
                let rest = events.skip(1);
                lemma_drained_appends(pushed, rest);
                assert(node_payloads(events) == seq![n] + node_payloads(rest));
                assert(drained(nodes, events) == drained(pushed, rest));
                assert forall|k: int| 0 <= k < node_payloads(events).len() implies (
                #[trigger] drained(nodes, events)[nodes.len() + k]).1 == node_payloads(
                    events,
                )[k] by {
                    if k == 0 {
                        assert(drained(pushed, rest)[nodes.len() as int] == pushed[nodes.len() as int]);
                    } else {
                        assert((drained(pushed, rest)[pushed.len() + (k - 1)]).1 == node_payloads(
                            rest,
                        )[k - 1]);
                        assert(node_payloads(events)[k] == node_payloads(rest)[k - 1]);
                    }
                }
            },
            TraceEvent::Finish => {
                lemma_drained_appends(nodes, events.skip(1));
                assert(node_payloads(events) == node_payloads(events.skip(1)));
                assert(drained(nodes, events) == drained(nodes, events.skip(1)));
            },
        }
    }
}

/// Index assignment stays contiguous from zero with no gaps, however the
/// drained stream interleaves accepted nodes and terminal signals.
pub proof fn lemma_drained_well_indexed(nodes: Seq<(usize, TraceNode)>, events: Seq<TraceEvent>)
    requires
        forall|k: int| 0 <= k < nodes.len() ==> (#[trigger] nodes[k]).0 == k,
        nodes.len() + events.len() <= usize::MAX,
    ensures
        forall|k: int|
            0 <= k < drained(nodes, events).len() ==> (#[trigger] drained(nodes, events)[k]).0 == k,
    decreases events.len(),
{
    if events.len() == 0 {
    } else {
        match events[0] {
            TraceEvent::Node(n) => {
                let pushed = nodes.push((nodes.len() as usize, n));
                assert forall|k: int| 0 <= k < pushed.len() implies (#[trigger] pushed[k]).0
                    == k by {
                    if k < nodes.len() {
                        assert(pushed[k] == nodes[k]);
                    }
                }
                lemma_drained_well_indexed(pushed, events.skip(1));
                assert(drained(nodes, events) == drained(pushed, events.skip(1)));
            },
            TraceEvent::Finish => {
                lemma_drained_well_indexed(nodes, events.skip(1));
                assert(drained(nodes, events) == drained(nodes, events.skip(1)));
            },
        }
    }
}

/// `Node` payloads split across concatenation.
pub proof fn lemma_node_payloads_concat(a: Seq<TraceEvent>, b: Seq<TraceEvent>)
    ensures
        node_payloads(a + b) == node_payloads(a) + node_payloads(b),
    decreases a.len(),
{
    if a.len() == 0 {
        assert(a + b =~= b);
        assert(node_payloads(a) + node_payloads(b) =~= node_payloads(b));
    } else {
        lemma_node_payloads_concat(a.skip(1), b);
        assert((a + b).skip(1) =~= a.skip(1) + b);
        match a[0] {
            TraceEvent::Node(n) => {
                assert(node_payloads(a + b) =~= node_payloads(a) + node_payloads(b));
            },
            TraceEvent::Finish => {
                assert(node_payloads(a + b) =~= node_payloads(a) + node_payloads(b));
            },
        }
    }
}

/// A stream of `Node` events carries one payload per event.
pub proof fn lemma_node_payloads_length(events: Seq<TraceEvent>)
    requires
        forall|k: int| 0 <= k < events.len() ==> (#[trigger] events[k]) is Node,
    ensures
        node_payloads(events).len() == events.len(),
    decreases events.len(),
{
    if events.len() == 0 {
    } else {
        assert(events[0] is Node);
        lemma_node_payloads_length(events.skip(1));
    }
}

/// Draining one whole trace into a fresh state yields one node per
/// successful hop lookup, plus one more exactly when the self lookup
/// succeeded, all indexed contiguously from zero.
pub proof fn lemma_full_trace_shape(
    self_node: Option<TraceNode>,
    resolved: bool,
    hops: Seq<RawHop>,
    lookups: Seq<Option<Located>>,
)
    requires
        hops.len() == lookups.len(),
        hops.len() + 2 <= usize::MAX,
    ensures
        drained(Seq::empty(), event_plan(self_node, resolved, hops, lookups)).len() == (
        if self_node is Some {
            1int
        } else {
            0int
        }) + (if resolved {
            count_some(lookups)
        } else {
            0int
        }),
        forall|k: int|
            0 <= k < drained(Seq::empty(), event_plan(self_node, resolved, hops, lookups)).len()
                ==> (#[trigger] drained(
                Seq::empty(),
                event_plan(self_node, resolved, hops, lookups),
            )[k]).0 == k,
{
    let prefix: Seq<TraceEvent> = match self_node {
        Some(n) => seq![TraceEvent::Node(n)],
        None => Seq::<TraceEvent>::empty(),
    };
    let middle: Seq<TraceEvent> = if resolved {
        hop_events(hops, lookups)
    } else {
        Seq::<TraceEvent>::empty()
    };
    let plan = event_plan(self_node, resolved, hops, lookups);
    assert(plan == prefix + middle + seq![TraceEvent::Finish]);
    lemma_node_payloads_concat(prefix + middle, seq![TraceEvent::Finish]);
    lemma_node_payloads_concat(prefix, middle);
    let fin = seq![TraceEvent::Finish];
    assert(fin.len() == 1 && fin[0] is Finish);
    assert(fin.skip(1) =~= Seq::<TraceEvent>::empty());
    assert(node_payloads(fin) == node_payloads(fin.skip(1)));
    assert(node_payloads(Seq::<TraceEvent>::empty()).len() == 0);
    if self_node is Some {
        assert(prefix.len() == 1 && prefix[0] is Node);
        assert(prefix.skip(1) =~= Seq::<TraceEvent>::empty());
        assert(node_payloads(prefix) == seq![self_node->0] + node_payloads(prefix.skip(1)));
        assert(node_payloads(prefix).len() == 1);
    }
    if resolved {
        crate::orchestrator::lemma_hop_events_all_nodes(hops, lookups);
        lemma_node_payloads_length(middle);
        lemma_hop_events_length(hops, lookups);
    }
    lemma_drained_appends(Seq::empty(), plan);
    crate::orchestrator::lemma_count_some_bounds(lookups);
    lemma_drained_well_indexed(Seq::empty(), plan);
}

} // verus!
