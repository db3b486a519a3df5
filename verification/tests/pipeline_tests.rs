//! End-to-end scenarios over the decision functions and the path state,
//! with the outside world's answers supplied as plain values.

use visual_trace::model::{Located, Position, RawHop, TraceEvent};
use visual_trace::orchestrator::{hop_event, resolve_target, self_event};
use visual_trace::trace_path::TracePath;

fn located(isp: &str) -> Located {
    Located {
        position: Position::from_micro(1_000_000, 2_000_000),
        isp: isp.to_string(),
    }
}

fn hop(ip: &str) -> RawHop {
    RawHop {
        ip: ip.to_string(),
        hostname: String::new(),
    }
}

#[test]
fn failed_lookups_drop_hops_but_keep_order() {
    // Four discovered hops; geolocation succeeds for the first, third and
    // fourth. The path keeps exactly those three, in discovery order, plus
    // the self node in front, with contiguous indices throughout.
    let mut path = TracePath::new();
    path.begin_trace();

    if let Some(e) = self_event("203.0.113.9".to_string(), Some(located("Home"))) {
        path.apply_event(e);
    }

    let outcomes = vec![
        (hop("10.0.0.1"), Some(located("A"))),
        (hop("10.0.0.2"), None),
        (hop("10.0.0.3"), Some(located("C"))),
        (hop("10.0.0.4"), Some(located("D"))),
    ];
    for (h, lookup) in outcomes {
        if let Some(e) = hop_event(h, lookup) {
            path.apply_event(e);
        }
    }
    path.apply_event(TraceEvent::Finish);

    assert!(!path.tracing);
    assert_eq!(path.nodes.len(), 4);
    let ips: Vec<&str> = path.nodes.iter().map(|(_, n)| n.ip.as_str()).collect();
    assert_eq!(ips, vec!["203.0.113.9", "10.0.0.1", "10.0.0.3", "10.0.0.4"]);
    for (k, (idx, _)) in path.nodes.iter().enumerate() {
        assert_eq!(*idx, k);
    }
}

#[test]
fn unresolvable_target_ends_with_bare_finish() {
    // Self lookup failed and the target resolves nowhere: the trace emits
    // no node at all, only the terminal signal, and the state goes idle.
    let mut path = TracePath::new();
    path.begin_trace();

    assert!(self_event("203.0.113.9".to_string(), None).is_none());
    assert!(resolve_target(None, Some(vec![])).is_none());
    // The only event such a trace produces:
    path.apply_event(TraceEvent::Finish);

    assert_eq!(path.nodes.len(), 0);
    assert!(!path.tracing);
}
