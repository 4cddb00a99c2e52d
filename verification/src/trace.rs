use vstd::prelude::*;

use crate::config::TracableInfo;
use crate::storage::TracableStorage;
use crate::traceable::Tracable;
use crate::traceable::HasTracableInfo;
use crate::traceable::dec_info;
use crate::traceable::inc_info;

verus! {

/// What one recorded line reports.
#[derive(Clone, Copy, Debug, PartialEq, Eq, Structural)]
pub enum LineKind {
    /// The column headers, emitted once per run at the first depth-0 entry.
    Header,
    /// Entry into a traced call.
    Forward,
    /// Successful return from a traced call.
    Backward,
    /// Failed return from a traced call; no position is rendered.
    BackwardFailure,
}

/// One recorded trace line: the sequence number, the nesting depth, the
/// traced function's name, and the rendered input position (`body`).
#[derive(Clone, Debug, PartialEq)]
pub struct TraceLine {
    pub kind: LineKind,
    pub count: usize,
    pub depth: usize,
    pub name: String,
    pub body: String,
}

/// The mathematical content of a `TraceLine`.
pub struct TraceLineModel {
    pub kind: LineKind,
    pub count: usize,
    pub depth: usize,
    pub name: Seq<char>,
    pub body: Seq<char>,
}

impl View for TraceLine {
    type V = TraceLineModel;

    open spec fn view(&self) -> TraceLineModel {
        TraceLineModel {
            kind: self.kind,
            count: self.count,
            depth: self.depth,
            name: self.name@,
            body: self.body@,
        }
    }
}

/// The models of a sequence of recorded lines.
pub open spec fn models_of(lines: Seq<TraceLine>) -> Seq<TraceLineModel> {
    lines.map_values(|l: TraceLine| l@)
}

/// Whether a forward crossing of `info` begins a new run: it stands at
/// depth 0 and at least one direction is recorded. Exactly then the
/// counters are reset and a header line is emitted.
pub open spec fn starts_run(info: TracableInfo) -> bool {
    info.depth == 0 && (info.forward || info.backward)
}

/// The counters after a forward crossing of `info`: reset first when the
/// crossing begins a run, then counted when forward recording is enabled.
pub open spec fn storage_after_forward(info: TracableInfo, s: TracableStorage) -> TracableStorage {
    let s0 = if starts_run(info) {
        TracableStorage { forward_count: 0, backward_count: 0 }
    } else {
        s
    };
    if info.forward {
        TracableStorage { forward_count: (s0.forward_count + 1) as usize, ..s0 }
    } else {
        s0
    }
}

/// The counters after a backward crossing of `info`: counted exactly when
/// backward recording is enabled.
pub open spec fn storage_after_backward(info: TracableInfo, s: TracableStorage) -> TracableStorage {
    if info.backward {
        TracableStorage { backward_count: (s.backward_count + 1) as usize, ..s }
    } else {
        s
    }
}

/// The lines a forward crossing emits, given the counters `s` it found:
/// a header when the crossing begins a run, then the entry line itself
/// when forward recording is enabled.
pub open spec fn forward_lines(
    info: TracableInfo,
    s: TracableStorage,
    header: Seq<char>,
    name: Seq<char>,
    body: Seq<char>,
) -> Seq<TraceLineModel> {
    let hdr: Seq<TraceLineModel> = if starts_run(info) {
        seq![
            (TraceLineModel {
                kind: LineKind::Header,
                count: 0,
                depth: 0,
                name: Seq::empty(),
                body: header,
            }),
        ]
    } else {
        Seq::empty()
    };
    let fwd: Seq<TraceLineModel> = if info.forward {
        seq![
            (TraceLineModel {
                kind: LineKind::Forward,
                count: storage_after_forward(info, s).forward_count,
                depth: info.depth,
                name: name,
                body: body,
            }),
        ]
    } else {
        Seq::empty()
    };
    hdr + fwd
}

/// The lines a backward crossing emits, given the counters `s` it found:
/// one exit line when backward recording is enabled, rendering the
/// remaining input on success (`ok`) and no position on failure.
pub open spec fn backward_lines(
    info: TracableInfo,
    s: TracableStorage,
    name: Seq<char>,
    ok: bool,
    body: Seq<char>,
) -> Seq<TraceLineModel> {
    if info.backward {
        seq![
            (TraceLineModel {
                kind: if ok {
                    LineKind::Backward
                } else {
                    LineKind::BackwardFailure
                },
                count: storage_after_backward(info, s).backward_count,
                depth: info.depth,
                name: name,
                body: if ok {
                    body
                } else {
                    Seq::empty()
                },
            }),
        ]
    } else {
        Seq::empty()
    }
}

/// Records the entry into a traced call named `name`.
///
/// If the crossing begins a run, the counters of this context are reset and
/// a header line is emitted; if forward recording is enabled, the forward
/// counter is counted up and an entry line carrying the new sequence number
/// is emitted. The call returns the configuration found on `input` — the
/// snapshot its caller must hand to `backward_trace` — together with the
/// input at depth one greater, otherwise unchanged.
pub fn forward_trace<T: Tracable>(
    input: T,
    name: &str,
    storage: &mut TracableStorage,
    out: &mut Vec<TraceLine>,
) -> (r: (TracableInfo, T))
    requires
        input.info_spec().depth < usize::MAX,
        input.info_spec().forward && input.info_spec().depth != 0 ==> old(
            storage,
        ).forward_count < usize::MAX,
    ensures
        r.0 == input.info_spec(),
        r.1.info_spec() == inc_info(input.info_spec()),
        input.same_payload(&r.1),
        *final(storage) == storage_after_forward(input.info_spec(), *old(storage)),
        models_of(final(out)@) == models_of(old(out)@) + forward_lines(
            input.info_spec(),
            *old(storage),
            input.header_spec(),
            name@,
            input.format_spec(),
        ),
        !input.info_spec().forward && !starts_run(input.info_spec()) ==> final(out)@ == old(
            out,
        )@,
{
    let ghost out0 = out@;
    let info = input.get_tracable_info();
    if info.depth == 0 && (info.forward || info.backward) {
        storage.init_count();
        out.push(
            TraceLine {
                kind: LineKind::Header,
                count: 0,
                depth: 0,
                name: String::new(),
                body: input.header(),
            },
        );
    }
    if info.forward {
        storage.inc_forward_count();
        let count = storage.get_forward_count();
        out.push(
            TraceLine {
                kind: LineKind::Forward,
                count,
                depth: info.depth,
                name: name.to_owned(),
                body: input.format(),
            },
        );
    }
    proof {
        assert(models_of(out@) =~= models_of(out0) + forward_lines(
            info,
            *old(storage),
            input.header_spec(),
            name@,
            input.format_spec(),
        ));
    }
    let input = input.inc_depth();
    (info, input)
}

/// Records the return from a traced call named `name`.
///
/// `info` must be the snapshot that the matching `forward_trace` returned.
/// When backward recording is disabled the result, the counters and the
/// recorded lines all stay exactly as they were — in forward-only mode the
/// depth is *not* restored here; each caller already holds its own pre-call
/// configuration. Otherwise the backward counter is counted up and an exit
/// line is emitted; a successful result is returned with its remaining
/// input at depth one smaller, and a failure is returned unchanged.
pub fn backward_trace<T: Tracable, U>(
    input: nom::IResult<T, U>,
    name: &str,
    info: TracableInfo,
    storage: &mut TracableStorage,
    out: &mut Vec<TraceLine>,
) -> (r: nom::IResult<T, U>)
    requires
        info.backward ==> old(storage).backward_count < usize::MAX,
        info.backward ==> match input {
            Ok((s, x)) => s.info_spec().depth > 0,
            Err(e) => true,
        },
    ensures
        *final(storage) == storage_after_backward(info, *old(storage)),
        !info.backward ==> r == input && final(out)@ == old(out)@,
        info.backward ==> match input {
            Ok((s, x)) => {
                &&& r matches Ok(q)
                &&& q.0.info_spec() == dec_info(s.info_spec())
                &&& s.same_payload(&q.0)
                &&& q.1 == x
                &&& models_of(final(out)@) == models_of(old(out)@) + backward_lines(
                    info,
                    *old(storage),
                    name@,
                    true,
                    s.format_spec(),
                )
            },
            Err(e) => {
                &&& r matches Err(e2) && e2 == e
                &&& models_of(final(out)@) == models_of(old(out)@) + backward_lines(
                    info,
                    *old(storage),
                    name@,
                    false,
                    Seq::empty(),
                )
            },
        },
{
    let ghost out0 = out@;
    if info.backward {
        storage.inc_backward_count();
        let count = storage.get_backward_count();
        match input {
            Ok((s, x)) => {
                out.push(
                    TraceLine {
                        kind: LineKind::Backward,
                        count,
                        depth: info.depth,
                        name: name.to_owned(),
                        body: s.format(),
                    },
                );
                proof {
                    assert(models_of(out@) =~= models_of(out0) + backward_lines(
                        info,
                        *old(storage),
                        name@,
                        true,
                        s.format_spec(),
                    ));
                }
                Ok((s.dec_depth(), x))
            },
            Err(e) => {
                out.push(
                    TraceLine {
                        kind: LineKind::BackwardFailure,
                        count,
                        depth: info.depth,
                        name: name.to_owned(),
                        body: String::new(),
                    },
                );
                proof {
                    assert(models_of(out@) =~= models_of(out0) + backward_lines(
                        info,
                        *old(storage),
                        name@,
                        false,
                        Seq::empty(),
                    ));
                }
                Err(e)
            },
        }
    } else {
        input
    }
}

/// Brackets one call of the parsing function `f` between a forward and a
/// backward crossing: the generic traced-call wrapper.
///
/// `f` must accept any input and, on success, hand back a remaining input
/// whose configuration equals its argument's — which holds of any parser
/// whose own traced calls are bracketed the same way. With backward
/// recording enabled a successful call returns the configuration it started
/// with (the depth round-trips); in forward-only mode the returned depth is
/// the entry depth plus one, restoration being the caller's business.
pub fn traced_call<T: Tracable, U, F: FnOnce(T) -> nom::IResult<T, U>>(
    f: F,
    input: T,
    name: &str,
    storage: &mut TracableStorage,
    out: &mut Vec<TraceLine>,
) -> (r: nom::IResult<T, U>)
    requires
        input.info_spec().depth < usize::MAX,
        old(storage).forward_count < usize::MAX,
        old(storage).backward_count < usize::MAX,
        forall|t: T| call_requires(f, (t,)),
        forall|t: T, res: nom::IResult<T, U>| #[trigger]
            call_ensures(f, (t,), res) ==> match res {
                Ok(p) => p.0.info_spec() == t.info_spec(),
                Err(e) => true,
            },
    ensures
        input.info_spec().backward ==> match r {
            Ok(p) => p.0.info_spec() == input.info_spec(),
            Err(e) => true,
        },
        !input.info_spec().backward ==> match r {
            Ok(p) => p.0.info_spec() == inc_info(input.info_spec()),
            Err(e) => true,
        },
        *final(storage) == storage_after_backward(
            input.info_spec(),
            storage_after_forward(input.info_spec(), *old(storage)),
        ),
{
    let (info, input2) = forward_trace(input, name, storage, out);
    let mid = f(input2);
    backward_trace(mid, name, info, storage, out)
}

/// Law: with recording enabled, each crossing drives its counter strictly
/// upward — the first depth-0 entry of a run resets before counting, and a
/// counter never decreases otherwise.
pub proof fn lemma_counters_strictly_increase(info: TracableInfo, s: TracableStorage)
    requires
        s.forward_count < usize::MAX,
        s.backward_count < usize::MAX,
    ensures
        info.forward ==> storage_after_forward(info, s).forward_count == (if starts_run(info) {
            1int
        } else {
            s.forward_count + 1
        }),
        info.backward ==> storage_after_backward(info, s).backward_count == s.backward_count + 1,
        storage_after_backward(info, s).forward_count == s.forward_count,
        !starts_run(info) ==> storage_after_forward(info, s).forward_count >= s.forward_count
            && storage_after_forward(info, s).backward_count == s.backward_count,
{
}

/// Law: with both directions disabled, a crossing mutates no counter and
/// emits no line, at any depth.
pub proof fn lemma_disabled_is_silent(
    info: TracableInfo,
    s: TracableStorage,
    header: Seq<char>,
    name: Seq<char>,
    body: Seq<char>,
)
    requires
        !info.forward,
        !info.backward,
    ensures
        storage_after_forward(info, s) == s,
        storage_after_backward(info, s) == s,
        forward_lines(info, s, header, name, body) == Seq::<TraceLineModel>::empty(),
        backward_lines(info, s, name, true, body) == Seq::<TraceLineModel>::empty(),
        backward_lines(info, s, name, false, body) == Seq::<TraceLineModel>::empty(),
{
    assert(forward_lines(info, s, header, name, body) =~= Seq::<TraceLineModel>::empty());
}

/// Law: what a crossing records is a function of the configuration, the
/// counters it found, and the rendered input alone — two parses run from
/// equal configurations and fresh contexts record identical traces.
pub proof fn lemma_trace_deterministic(
    info1: TracableInfo,
    info2: TracableInfo,
    s1: TracableStorage,
    s2: TracableStorage,
    header: Seq<char>,
    name: Seq<char>,
    body: Seq<char>,
)
    requires
        info1 == info2,
        s1 == s2,
    ensures
        storage_after_forward(info1, s1) == storage_after_forward(info2, s2),
        storage_after_backward(info1, s1) == storage_after_backward(info2, s2),
        forward_lines(info1, s1, header, name, body) == forward_lines(info2, s2, header, name, body),
        backward_lines(info1, s1, name, true, body) == backward_lines(info2, s2, name, true, body),
        backward_lines(info1, s1, name, false, body) == backward_lines(
            info2,
            s2,
            name,
            false,
            body,
        ),
{
}

} // verus!
