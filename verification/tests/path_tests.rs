use visual_trace::model::{Position, TraceEvent, TraceNode};
use visual_trace::trace_path::TracePath;

fn node(ip: &str, hostname: &str) -> TraceNode {
    TraceNode {
        position: Position::from_micro(48_856_600, 2_352_200),
        hostname: hostname.to_string(),
        isp: "Example ISP".to_string(),
        ip: ip.to_string(),
    }
}

#[test]
fn draining_assigns_contiguous_indices() {
    let mut path = TracePath::new();
    path.begin_trace();
    assert!(path.tracing);
    path.apply_event(TraceEvent::Node(node("10.0.0.1", "local")));
    path.apply_event(TraceEvent::Node(node("93.184.216.34", "edge")));
    path.apply_event(TraceEvent::Node(node("1.1.1.1", "")));
    path.apply_event(TraceEvent::Finish);
    assert!(!path.tracing);
    assert_eq!(path.nodes.len(), 3);
    for (k, (idx, _)) in path.nodes.iter().enumerate() {
        assert_eq!(*idx, k);
    }
    assert_eq!(path.nodes[1].1.ip, "93.184.216.34");
}

#[test]
fn begin_trace_clears_previous_nodes() {
    let mut path = TracePath::new();
    path.apply_event(TraceEvent::Node(node("10.0.0.1", "a")));
    path.apply_event(TraceEvent::Node(node("10.0.0.2", "b")));
    path.begin_trace();
    assert!(path.nodes.is_empty());
    assert!(path.tracing);
}

#[test]
fn finish_leaves_nodes_untouched() {
    let mut path = TracePath::new();
    path.begin_trace();
    path.apply_event(TraceEvent::Node(node("10.0.0.1", "a")));
    path.apply_event(TraceEvent::Finish);
    assert_eq!(path.nodes.len(), 1);
    assert_eq!(path.nodes[0].0, 0);
    assert_eq!(path.nodes[0].1.hostname, "a");
}

#[test]
fn set_path_enumerates_nodes() {
    let mut path = TracePath::new();
    path.set_path(vec![node("10.0.0.1", "a"), node("10.0.0.2", "b")]);
    assert_eq!(path.nodes.len(), 2);
    assert_eq!(path.nodes[0].0, 0);
    assert_eq!(path.nodes[1].0, 1);
    assert_eq!(path.nodes[0].1.ip, "10.0.0.1");
    assert_eq!(path.nodes[1].1.ip, "10.0.0.2");
}

#[test]
fn copy_feedback_expires_after_a_second() {
    let mut path = TracePath::new();
    path.note_copied(5_000);
    assert!(path.copy_feedback(5_400));
    assert!(path.copy_feedback(6_000));
    // Strictly more than one second after the copy: confirmation gone.
    assert!(!path.copy_feedback(6_001));
    // And the timer was cleared, so it stays gone.
    assert!(!path.copy_feedback(6_000));
}
