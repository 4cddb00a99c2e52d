use nom_tracable::LineKind;
use nom_tracable::Span;
use nom_tracable::TracableInfo;
use nom_tracable::TracableStorage;
use nom_tracable::TraceLine;
use nom_tracable::backward_trace;
use nom_tracable::forward_trace;
use nom_tracable::traced_call;

type R = Result<(Span, String), nom::Err<nom::error::Error<Span>>>;

fn term_body(s: Span) -> R {
    if s.fragment.starts_with('1') {
        let rest = s.fragment[1..].to_string();
        let extra = s.extra;
        let offset = s.offset + 1;
        Ok((Span { offset, fragment: rest, extra }, "1".to_string()))
    } else {
        Err(nom::Err::Error(nom::error::Error::new(s, nom::error::ErrorKind::Char)))
    }
}

fn term(s: Span, st: &mut TracableStorage, out: &mut Vec<TraceLine>) -> R {
    let (info, s) = forward_trace(s, "term", st, out);
    let res = term_body(s);
    backward_trace(res, "term", info, st, out)
}

#[test]
fn depth_restored_on_success() {
    let info = TracableInfo::new().forward(true).backward(true);
    let mut st = TracableStorage::new();
    let mut out: Vec<TraceLine> = Vec::new();
    let s = Span::new_extra("1".to_string(), info);
    let res = traced_call(term_body, s, "term", &mut st, &mut out);
    let (rem, v) = res.unwrap();
    assert_eq!(rem.extra.depth, 0);
    assert_eq!(v, "1");
    assert_eq!(rem.offset, 1);
    assert_eq!(rem.fragment, "");
}

#[test]
fn forward_only_never_decrements_depth() {
    let info = TracableInfo::new().forward(true).backward(false);
    let mut st = TracableStorage::new();
    let mut out: Vec<TraceLine> = Vec::new();

    fn inner(s: Span, st: &mut TracableStorage, out: &mut Vec<TraceLine>) -> R {
        let (info, s) = forward_trace(s, "inner", st, out);
        let res = term_body(s);
        backward_trace(res, "inner", info, st, out)
    }
    fn middle(s: Span, st: &mut TracableStorage, out: &mut Vec<TraceLine>) -> R {
        let (info, s) = forward_trace(s, "middle", st, out);
        let res = inner(s, st, out);
        backward_trace(res, "middle", info, st, out)
    }
    fn outer(s: Span, st: &mut TracableStorage, out: &mut Vec<TraceLine>) -> R {
        let (info, s) = forward_trace(s, "outer", st, out);
        let res = middle(s, st, out);
        backward_trace(res, "outer", info, st, out)
    }

    let s = Span::new_extra("1".to_string(), info);
    let (rem, _) = outer(s, &mut st, &mut out).unwrap();
    // No backward event may decrement depth when backward logging is off.
    assert_eq!(rem.extra.depth, 3);
    assert_eq!(st.get_forward_count(), 3);
    assert_eq!(st.get_backward_count(), 0);
    // A header, then only forward lines, at strictly increasing depth.
    assert_eq!(out.len(), 4);
    assert_eq!(out[0].kind, LineKind::Header);
    for (i, l) in out[1..].iter().enumerate() {
        assert_eq!(l.kind, LineKind::Forward);
        assert_eq!(l.depth, i);
        assert_eq!(l.count, i + 1);
    }
}

#[test]
fn counters_reset_at_depth_zero_then_increase() {
    let info = TracableInfo::new().forward(true).backward(true);
    let mut st = TracableStorage::new();
    let mut out: Vec<TraceLine> = Vec::new();
    // Leftover counts from an earlier run in the same context.
    st.inc_forward_count();
    st.inc_forward_count();
    st.inc_backward_count();
    assert_eq!(st.get_forward_count(), 2);

    let s = Span::new_extra("1".to_string(), info);
    let (fwd_snapshot, s1) = forward_trace(s, "term", &mut st, &mut out);
    // Reset to zero at the depth-0 entry, then counted: strictly above zero.
    assert_eq!(st.get_forward_count(), 1);
    assert_eq!(st.get_backward_count(), 0);

    // A nested entry does not reset and strictly increases the counter.
    let before = st.get_forward_count();
    let (nested_snapshot, s2) = forward_trace(s1, "nested", &mut st, &mut out);
    assert!(st.get_forward_count() > before);
    assert_eq!(st.get_forward_count(), 2);

    // Each backward event strictly increases the backward counter.
    let res: R = term_body(s2);
    let res = backward_trace(res, "nested", nested_snapshot, &mut st, &mut out);
    assert_eq!(st.get_backward_count(), 1);
    let res = backward_trace(res, "term", fwd_snapshot, &mut st, &mut out);
    assert_eq!(st.get_backward_count(), 2);
    assert!(res.is_ok());
}

#[test]
fn disabled_tracing_is_silent() {
    let info = TracableInfo::new();  // both directions off
    let mut st = TracableStorage::new();
    st.inc_forward_count();
    st.inc_backward_count();
    let mut out: Vec<TraceLine> = Vec::new();

    let s = Span::new_extra("1".to_string(), info);
    let (snapshot, s1) = forward_trace(s, "term", &mut st, &mut out);
    // Depth bookkeeping stays live, but nothing is counted or written.
    assert_eq!(s1.extra.depth, 1);
    assert_eq!(st.get_forward_count(), 1);
    assert_eq!(st.get_backward_count(), 1);
    assert!(out.is_empty());

    let res: R = term_body(s1);
    let res = backward_trace(res, "term", snapshot, &mut st, &mut out);
    assert_eq!(st.get_forward_count(), 1);
    assert_eq!(st.get_backward_count(), 1);
    assert!(out.is_empty());
    // With backward logging off the result passes through unchanged.
    let (rem, v) = res.unwrap();
    assert_eq!(rem.extra.depth, 1);
    assert_eq!(v, "1");
}

#[test]
fn failure_is_logged_and_returned_unchanged() {
    let info = TracableInfo::new().forward(true).backward(true);
    let mut st = TracableStorage::new();
    let mut out: Vec<TraceLine> = Vec::new();
    let s = Span::new_extra("2".to_string(), info);
    let res = term(s, &mut st, &mut out);

    // Exactly one forward/backward pair.
    assert_eq!(st.get_forward_count(), 1);
    assert_eq!(st.get_backward_count(), 1);
    assert_eq!(out.len(), 3);
    assert_eq!(out[0].kind, LineKind::Header);
    assert_eq!(out[1].kind, LineKind::Forward);
    assert_eq!(out[1].name, "term");
    // The backward event is logged as a failure, with no fragment shown.
    assert_eq!(out[2].kind, LineKind::BackwardFailure);
    assert_eq!(out[2].name, "term");
    assert_eq!(out[2].body, "");
    assert_eq!(out[2].count, 1);

    // The original failure value comes back unchanged in kind and content.
    match res {
        Err(nom::Err::Error(e)) => {
            assert_eq!(e.code, nom::error::ErrorKind::Char);
            assert_eq!(e.input.fragment, "2");
            assert_eq!(e.input.offset, 0);
        },
        _ => panic!("expected a recoverable parse error"),
    }
}

#[test]
fn independent_contexts_never_share_counters() {
    let info = TracableInfo::new().forward(true).backward(true);
    let mut st1 = TracableStorage::new();
    let mut st2 = TracableStorage::new();
    let mut out1: Vec<TraceLine> = Vec::new();
    let mut out2: Vec<TraceLine> = Vec::new();

    // Two parses, interleaved step by step on two separate contexts.
    let a = Span::new_extra("1".to_string(), info);
    let b = Span::new_extra("1".to_string(), info);
    let (ia, a1) = forward_trace(a, "term", &mut st1, &mut out1);
    let (ib, b1) = forward_trace(b, "term", &mut st2, &mut out2);
    assert_eq!(st1.get_forward_count(), 1);
    assert_eq!(st2.get_forward_count(), 1);
    let ra: R = term_body(a1);
    let rb: R = term_body(b1);
    let ra = backward_trace(ra, "term", ia, &mut st1, &mut out1);
    assert_eq!(st1.get_backward_count(), 1);
    assert_eq!(st2.get_backward_count(), 0);
    let rb = backward_trace(rb, "term", ib, &mut st2, &mut out2);
    assert_eq!(st2.get_backward_count(), 1);
    assert!(ra.is_ok());
    assert!(rb.is_ok());
    // Neither trace ever shows the other's sequence numbers.
    assert_eq!(out1, out2);
    for l in &out1 {
        assert!(l.count <= 1);
    }
}

#[test]
fn snapshot_is_the_pre_call_configuration() {
    let info = TracableInfo::new().forward(true).depth(4).count_width(7);
    let mut st = TracableStorage::new();
    let mut out: Vec<TraceLine> = Vec::new();
    let s = Span::new_extra("xyz".to_string(), info);
    let (snapshot, s1) = forward_trace(s, "p", &mut st, &mut out);
    assert_eq!(snapshot, info);
    assert_eq!(s1.extra.depth, 5);
    assert_eq!(s1.extra.count_width, 7);
    assert_eq!(s1.fragment, "xyz");
    assert_eq!(s1.offset, 0);
}

#[test]
fn backward_only_still_resets_and_logs_exits() {
    let info = TracableInfo::new().backward(true);
    let mut st = TracableStorage::new();
    st.inc_forward_count();
    st.inc_backward_count();
    let mut out: Vec<TraceLine> = Vec::new();

    let s = Span::new_extra("1".to_string(), info);
    let (snapshot, s1) = forward_trace(s, "term", &mut st, &mut out);
    // The depth-0 entry resets the context and prints the header, but with
    // forward logging off nothing is counted and no entry line appears.
    assert_eq!(st.get_forward_count(), 0);
    assert_eq!(st.get_backward_count(), 0);
    assert_eq!(out.len(), 1);
    assert_eq!(out[0].kind, LineKind::Header);
    assert_eq!(out[0].body, "offset : fragment");

    let res: R = term_body(s1);
    let res = backward_trace(res, "term", snapshot, &mut st, &mut out);
    assert_eq!(st.get_backward_count(), 1);
    assert_eq!(out.len(), 2);
    assert_eq!(out[1].kind, LineKind::Backward);
    assert_eq!(out[1].count, 1);
    assert_eq!(out[1].body, "1 : ");
    let (rem, _) = res.unwrap();
    assert_eq!(rem.extra.depth, 0);
}
