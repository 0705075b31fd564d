//! Verilator adapter.
//!
//! [`VerilatorAdapter`] is the digital simulator the scheduler sees for a
//! Verilator-built model, reached through the narrow [`VerilatorBackend`]
//! interface (next event, step to a boundary, drain captured events). A
//! postponement's revised prediction is cached and handed back by the next
//! prediction query. At the end of a run the captured events become a VCD
//! trace, in time order and, within one time, in signal-name order.
//! [`ScriptedVerilatorBackend`] is a programmable backend.
use vstd::prelude::*;
use std::collections::VecDeque;
use vstd::string::StringExecFns;
use vstd::utf8::encode_utf8;
use vstd::utf8::is_ascii_chars;
use vstd::string::StrSliceExecFns;
use vstd::string::StringExecFnsIsAscii;
use vstd::relations::{sorted_by, total_ordering};
use crate::icarus::{adapter_declarations, wrapped_id_char};
use crate::mixed_signal::{
    BoundarySignals, DigitalAdapterKind, DigitalEventTrace, DigitalSimulator, DigitalStepReport,
    NextEventReport, SchedulerError, ErrorValue, TraceView, digital_failure,
};
use crate::text::{int_decimal, push_char, push_int_decimal, push_str};
use crate::time::{SignalName, SimulationTime, find_position, names_view, time_text};

verus! {

broadcast use vstd::seq_lib::group_to_multiset_ensures;

/// The interface a Verilator-built model offers the adapter. The model's
/// state is named as a plain value; what each call answers, and the state
/// it leaves, is a function of that state and the call's argument, named by
/// the spec functions.
pub trait VerilatorBackend {
    /// The model's state as a plain value.
    type State;

    /// The present state.
    spec fn state(&self) -> Self::State;

    /// The next scheduled event time in state `s`, `None` when the model is
    /// quiescent, or the diagnostic the query fails with.
    spec fn next_result(s: Self::State) -> Result<Option<SimulationTime>, Seq<char>>;

    /// The state a query leaves from state `s`.
    spec fn after_next(s: Self::State) -> Self::State;

    /// The verdict a step to `boundary` gives from state `s`, or the
    /// diagnostic it fails with.
    spec fn step_outcome(s: Self::State, boundary: SimulationTime) -> Result<VerilatorStepOutcome, Seq<char>>;

    /// The state a step to `boundary` leaves from state `s`.
    spec fn after_step(s: Self::State, boundary: SimulationTime) -> Self::State;

    /// The transitions captured and not yet drained in state `s`.
    spec fn undrained_events(s: Self::State) -> Seq<VerilatorEvent>;

    /// The state draining leaves from state `s`.
    spec fn after_drain(s: Self::State) -> Self::State;

    /// The next scheduled event time, `None` when the model is quiescent,
    /// or a diagnostic.
    fn next_event_time(&mut self) -> (r: Result<Option<SimulationTime>, String>)
        ensures
            r matches Ok(o) ==> Self::next_result(old(self).state()) == Ok::<Option<SimulationTime>, Seq<char>>(o),
            r matches Err(m) ==> Self::next_result(old(self).state()) == Err::<Option<SimulationTime>, Seq<char>>(m@),
            final(self).state() == Self::after_next(old(self).state()),
    ;

    /// Advance the model to `boundary` and give the verdict.
    fn step_to(&mut self, boundary: SimulationTime) -> (r: Result<VerilatorStepOutcome, String>)
        ensures
            r matches Ok(o) ==> Self::step_outcome(old(self).state(), boundary) == Ok::<VerilatorStepOutcome, Seq<char>>(o),
            r matches Err(m) ==> Self::step_outcome(old(self).state(), boundary) == Err::<VerilatorStepOutcome, Seq<char>>(m@),
            final(self).state() == Self::after_step(old(self).state(), boundary),
    ;

    /// Drain the signal transitions captured since the last drain.
    fn take_events(&mut self) -> (r: Vec<VerilatorEvent>)
        ensures
            r@ == Self::undrained_events(old(self).state()),
            final(self).state() == Self::after_drain(old(self).state()),
    ;
}

/// The text of the failure reported when the model is quiescent.
pub open spec fn quiescent_text() -> Seq<char> {
    "verilator backend reports quiescent model with no further events"@
}

/// The text of the failure reported when the model cannot answer a query
/// for its next event, with diagnostic `msg`.
pub open spec fn query_failure_text(msg: Seq<char>) -> Seq<char> {
    "verilator backend next_event_time failed: "@ + msg
}

/// The text of the failure reported when the model fails to step to
/// `boundary` with diagnostic `msg`.
pub open spec fn step_failure_text(boundary: SimulationTime, msg: Seq<char>) -> Seq<char> {
    "verilator backend step_to("@ + time_text(boundary) + ") failed: "@ + msg
}

/// The model's verdict after a step.
#[derive(Debug, Clone, Copy, PartialEq, Eq, Structural)]
pub enum VerilatorStepOutcome {
    /// An event happened at the boundary.
    Confirmed,
    /// An event happened earlier, at `actual_time`.
    Mispredicted {
        /// The earlier event time.
        actual_time: SimulationTime,
    },
    /// No event at the boundary; the next is predicted at `new_prediction`.
    Postponed {
        /// The revised prediction.
        new_prediction: SimulationTime,
    },
}

/// One captured signal transition.
#[derive(Debug, Clone, PartialEq)]
pub struct VerilatorEvent {
    /// When it happened.
    pub time: SimulationTime,
    /// Which signal changed.
    pub signal: SignalName,
    /// The new value (`0`, `1`, a bit string, `x`, `z`, ...).
    pub new_value: String,
}

/// A captured transition as plain values: time, signal name, new value.
pub open spec fn event_view(e: VerilatorEvent) -> (SimulationTime, Seq<char>, Seq<char>) {
    (e.time, e.signal@, e.new_value@)
}

/// Captured transitions as plain values.
pub open spec fn events_view(s: Seq<VerilatorEvent>) -> Seq<(SimulationTime, Seq<char>, Seq<char>)> {
    s.map_values(|e: VerilatorEvent| event_view(e))
}

/// Byte strings in lexicographic order (strictly before).
pub open spec fn bytes_lt(a: Seq<u8>, b: Seq<u8>) -> bool
    decreases a.len(),
{
    if a.len() == 0 {
        b.len() > 0
    } else if b.len() == 0 {
        false
    } else if a[0] != b[0] {
        a[0] < b[0]
    } else {
        bytes_lt(a.drop_first(), b.drop_first())
    }
}

proof fn lemma_bytes_lt_irreflexive(a: Seq<u8>)
    ensures
        !bytes_lt(a, a),
    decreases a.len(),
{
    if a.len() > 0 {
        lemma_bytes_lt_irreflexive(a.drop_first());
    }
}

proof fn lemma_bytes_lt_asymmetric(a: Seq<u8>, b: Seq<u8>)
    ensures
        !(bytes_lt(a, b) && bytes_lt(b, a)),
    decreases a.len(),
{
    if a.len() > 0 && b.len() > 0 && a[0] == b[0] {
        lemma_bytes_lt_asymmetric(a.drop_first(), b.drop_first());
    }
}

proof fn lemma_bytes_lt_transitive(a: Seq<u8>, b: Seq<u8>, c: Seq<u8>)
    requires
        bytes_lt(a, b),
        bytes_lt(b, c),
    ensures
        bytes_lt(a, c),
    decreases a.len(),
{
    if a.len() > 0 && b.len() > 0 && c.len() > 0 && a[0] == b[0] && b[0] == c[0] {
        lemma_bytes_lt_transitive(a.drop_first(), b.drop_first(), c.drop_first());
    }
}

proof fn lemma_bytes_lt_total(a: Seq<u8>, b: Seq<u8>)
    ensures
        a == b || bytes_lt(a, b) || bytes_lt(b, a),
    decreases a.len(),
{
    if a.len() > 0 && b.len() > 0 && a[0] == b[0] {
        lemma_bytes_lt_total(a.drop_first(), b.drop_first());
        if a.drop_first() == b.drop_first() {
            assert(a =~= seq![a[0]] + a.drop_first());
            assert(b =~= seq![b[0]] + b.drop_first());
        }
    } else if a.len() == 0 && b.len() == 0 {
        assert(a =~= b);
    }
}

/// The order in which captured transitions are listed: by time, then by
/// signal name (byte order), then by capture order.
pub open spec fn capture_order(e: Seq<(SimulationTime, Seq<char>, Seq<char>)>) -> spec_fn(usize, usize) -> bool {
    |i: usize, j: usize| {
        let a = e[i as int];
        let b = e[j as int];
        a.0.ps < b.0.ps || (a.0.ps == b.0.ps && (bytes_lt(encode_utf8(a.1), encode_utf8(b.1))
            || (encode_utf8(a.1) == encode_utf8(b.1) && i <= j)))
    }
}

/// The capture order is a total order.
pub proof fn lemma_capture_order_total(e: Seq<(SimulationTime, Seq<char>, Seq<char>)>)
    ensures
        total_ordering(capture_order(e)),
{
    let r = capture_order(e);
    assert forall|x: usize| #[trigger] r(x, x) by {
        lemma_bytes_lt_irreflexive(encode_utf8(e[x as int].1));
    }
    assert forall|x: usize, y: usize| #[trigger] r(x, y) && #[trigger] r(y, x) implies x == y by {
        lemma_bytes_lt_asymmetric(encode_utf8(e[x as int].1), encode_utf8(e[y as int].1));
        lemma_bytes_lt_irreflexive(encode_utf8(e[x as int].1));
    }
    assert forall|x: usize, y: usize, z: usize| #[trigger] r(x, y) && #[trigger] r(y, z) implies r(x, z) by {
        let bx = encode_utf8(e[x as int].1);
        let by_ = encode_utf8(e[y as int].1);
        let bz = encode_utf8(e[z as int].1);
        if bytes_lt(bx, by_) && bytes_lt(by_, bz) {
            lemma_bytes_lt_transitive(bx, by_, bz);
        }
    }
    assert forall|x: usize, y: usize| #[trigger] r(x, y) || #[trigger] r(y, x) by {
        lemma_bytes_lt_total(encode_utf8(e[x as int].1), encode_utf8(e[y as int].1));
    }
}

/// Positions `0..n`.
pub open spec fn positions(n: nat) -> Seq<usize> {
    Seq::new(n, |k: int| k as usize)
}

/// The adapter lists every captured transition exactly once, in time order,
/// transitions at one time by signal name (byte order) and then in capture
/// order.
pub proof fn law_verilator_listing_chronological(e: Seq<(SimulationTime, Seq<char>, Seq<char>)>)
    ensures
        positions(e.len()).sort_by(capture_order(e)).to_multiset() == positions(e.len()).to_multiset(),
        sorted_by(positions(e.len()).sort_by(capture_order(e)), capture_order(e)),
        forall|a: int, b: int|
            #![trigger positions(e.len()).sort_by(capture_order(e))[a], positions(e.len()).sort_by(capture_order(e))[b]]
            0 <= a < b < e.len() ==> e[positions(e.len()).sort_by(capture_order(e))[a] as int].0.ps
                <= e[positions(e.len()).sort_by(capture_order(e))[b] as int].0.ps,
{
    broadcast use vstd::seq_lib::group_to_multiset_ensures;

    lemma_capture_order_total(e);
    positions(e.len()).lemma_sort_by_ensures(capture_order(e));
    let ord = positions(e.len()).sort_by(capture_order(e));
    assert(ord.len() == e.len()) by {
        assert(ord.to_multiset().len() == positions(e.len()).to_multiset().len());
    }
    assert forall|a: int, b: int| 0 <= a < b < e.len() implies e[ord[a] as int].0.ps <= e[ord[b] as int].0.ps by {
        assert((capture_order(e))(ord[a], ord[b]));
    }
}

/// The line written for one transition of the `i`-th declared signal:
/// `<value><id>` for a one-byte value, `b<value> <id>` otherwise.
pub open spec fn value_line(value: Seq<char>, i: int) -> Seq<char> {
    if value.len() == 1 && is_ascii_chars(value) {
        value + seq![wrapped_id_char(i), '\n']
    } else {
        seq!['b'] + value + seq![' ', wrapped_id_char(i), '\n']
    }
}

/// The lines that the `j`-th transition in listing order `ord` adds: a time
/// stamp where its time differs from that of the one before, then its value.
pub open spec fn timeline_entry(
    signals: Seq<Seq<char>>,
    e: Seq<(SimulationTime, Seq<char>, Seq<char>)>,
    ord: Seq<usize>,
    j: int,
) -> Seq<char> {
    let ev = e[ord[j] as int];
    let stamp = if j > 0 && e[ord[j - 1] as int].0 == ev.0 {
        Seq::<char>::empty()
    } else {
        seq!['#'] + int_decimal(ev.0.ps as int) + seq!['\n']
    };
    let line = match crate::time::first_position_in(signals, ev.1) {
        Some(i) => value_line(ev.2, i),
        None => Seq::<char>::empty(),
    };
    stamp + line
}

/// The lines of the first `k` transitions in listing order `ord`.
pub open spec fn verilator_timeline(
    signals: Seq<Seq<char>>,
    e: Seq<(SimulationTime, Seq<char>, Seq<char>)>,
    ord: Seq<usize>,
    k: nat,
) -> Seq<char>
    decreases k,
{
    if k == 0 {
        Seq::empty()
    } else {
        verilator_timeline(signals, e, ord, (k - 1) as nat) + timeline_entry(signals, e, ord, k - 1)
    }
}

/// The complete VCD text of the adapter for registered `signals` and
/// captured transitions `e`.
pub open spec fn verilator_vcd_text(signals: Seq<Seq<char>>, e: Seq<(SimulationTime, Seq<char>, Seq<char>)>) -> Seq<char> {
    let ord = positions(e.len()).sort_by(capture_order(e));
    "$timescale 1ps $end\n$scope module verilator_top $end\n"@ + adapter_declarations(signals)
        + "$upscope $end\n$enddefinitions $end\n"@ + verilator_timeline(signals, e, ord, ord.len())
}

/// Times of the captured transitions of signal `name`, in capture order.
pub open spec fn capture_times(e: Seq<(SimulationTime, Seq<char>, Seq<char>)>, name: Seq<char>) -> Seq<SimulationTime>
    decreases e.len(),
{
    if e.len() == 0 {
        Seq::empty()
    } else if e.last().1 == name {
        capture_times(e.drop_last(), name).push(e.last().0)
    } else {
        capture_times(e.drop_last(), name)
    }
}

/// The per-signal index: one entry per registered signal, in order; a
/// signal's transitions go to the first entry of its name, so a repeated
/// name's later entries stay empty.
pub open spec fn verilator_index(signals: Seq<Seq<char>>, e: Seq<(SimulationTime, Seq<char>, Seq<char>)>) -> Seq<(Seq<char>, Seq<SimulationTime>)> {
    Seq::new(signals.len(), |i: int|
        (signals[i], if crate::time::first_position_in(signals, signals[i]) == Some(i) {
            capture_times(e, signals[i])
        } else {
            Seq::<SimulationTime>::empty()
        }))
}

fn bytes_less(a: &[u8], b: &[u8]) -> (r: bool)
    ensures
        r == bytes_lt(a@, b@),
{
    let mut i: usize = 0;
    assert(a@.subrange(0, a@.len() as int) =~= a@);
    assert(b@.subrange(0, b@.len() as int) =~= b@);
    while i < a.len() && i < b.len() && a[i] == b[i]
        invariant
            i <= a@.len(),
            i <= b@.len(),
            bytes_lt(a@, b@) == bytes_lt(a@.subrange(i as int, a@.len() as int), b@.subrange(i as int, b@.len() as int)),
        decreases a@.len() - i,
    {
        let ghost sa = a@.subrange(i as int, a@.len() as int);
        let ghost sb = b@.subrange(i as int, b@.len() as int);
        assert(sa.drop_first() =~= a@.subrange(i + 1, a@.len() as int));
        assert(sb.drop_first() =~= b@.subrange(i + 1, b@.len() as int));
        i += 1;
    }
    if i == a.len() {
        i < b.len()
    } else if i == b.len() {
        false
    } else {
        a[i] < b[i]
    }
}

fn listed_before_or_same(events: &Vec<VerilatorEvent>, i: usize, j: usize) -> (r: bool)
    requires
        i < events@.len(),
        j < events@.len(),
    ensures
        r == (capture_order(events_view(events@)))(i, j),
{
    let a = &events[i];
    let b = &events[j];
    if a.time.ps != b.time.ps {
        return a.time.ps < b.time.ps;
    }
    let ab = a.signal.as_str().as_bytes();
    let bb = b.signal.as_str().as_bytes();
    if bytes_less(ab, bb) {
        return true;
    }
    if bytes_less(bb, ab) {
        return false;
    }
    proof {
        lemma_bytes_lt_total(ab@, bb@);
    }
    i <= j
}

fn listing_order(events: &Vec<VerilatorEvent>) -> (ord: Vec<usize>)
    ensures
        ord@ == positions(events@.len()).sort_by(capture_order(events_view(events@))),
{
    let ghost e = events_view(events@);
    let ghost leq = capture_order(e);
    let n = events.len();
    let mut out: Vec<usize> = Vec::new();
    let mut i: usize = 0;
    while i < n
        invariant
            i <= n,
            n == events@.len(),
            e == events_view(events@),
            leq == capture_order(e),
            sorted_by(out@, leq),
            out@.to_multiset() == positions(n as nat).subrange(0, i as int).to_multiset(),
            forall|k: int| 0 <= k < out@.len() ==> out@[k] < n,
        decreases n - i,
    {
        let mut pos: usize = 0;
        while pos < out.len() && listed_before_or_same(events, out[pos], i)
            invariant
                pos <= out@.len(),
                i < n,
                n == events@.len(),
                forall|k: int| 0 <= k < out@.len() ==> out@[k] < n,
                forall|j: int| 0 <= j < pos ==> leq(out@[j], i),
                leq == capture_order(events_view(events@)),
            decreases out@.len() - pos,
        {
            pos += 1;
        }
        let ghost before = out@;
        proof {
            lemma_capture_order_total(e);
        }
        out.insert(pos, i);
        proof {
            assert(out@ == before.insert(pos as int, i));
            if pos < before.len() {
                assert(!leq(before[pos as int], i));
                assert(leq(i, before[pos as int]));
            }
            assert forall|a: int, b: int| 0 <= a < b < out@.len() implies #[trigger] leq(out@[a], out@[b]) by {
                if b < pos {
                    assert(out@[a] == before[a] && out@[b] == before[b]);
                } else if b == pos {
                    assert(out@[a] == before[a]);
                } else if a == pos {
                    assert(out@[b] == before[b - 1]);
                    if b - 1 > pos {
                        assert(leq(before[pos as int], before[b - 1]));
                    }
                } else if a < pos {
                    assert(out@[a] == before[a] && out@[b] == before[b - 1]);
                } else {
                    assert(out@[a] == before[a - 1] && out@[b] == before[b - 1]);
                }
            }
            assert(positions(n as nat).subrange(0, i + 1) =~= positions(n as nat).subrange(0, i as int).push(i));
            assert forall|k: int| 0 <= k < out@.len() implies out@[k] < n by {
                if k < pos {
                    assert(out@[k] == before[k]);
                } else if k > pos {
                    assert(out@[k] == before[k - 1]);
                }
            }
        }
        i += 1;
    }
    proof {
        assert(positions(n as nat).subrange(0, n as int) =~= positions(n as nat));
        lemma_capture_order_total(e);
        positions(n as nat).lemma_sort_by_ensures(leq);
        vstd::seq_lib::lemma_sorted_unique(out@, positions(n as nat).sort_by(leq), leq);
    }
    out
}

/// Whether a value is one byte long, that is, a single ASCII character.
fn is_single_byte(v: &String) -> (b: bool)
    ensures
        b == (v@.len() == 1 && is_ascii_chars(v@)),
{
    v.is_ascii() && v.as_str().unicode_len() == 1
}

fn push_value_line(out: &mut String, value: &String, i: usize)
    ensures
        final(out)@ == old(out)@ + value_line(value@, i as int),
{
    let id = {
        let b: u8 = ((33 + (i % 256)) % 256) as u8;
        b as char
    };
    assert(id == wrapped_id_char(i as int));
    if is_single_byte(value) {
        push_str(out, value.as_str());
        push_char(out, id);
        push_char(out, '\n');
    } else {
        push_char(out, 'b');
        push_str(out, value.as_str());
        push_char(out, ' ');
        push_char(out, id);
        push_char(out, '\n');
    }
    assert(out@ =~= old(out)@ + value_line(value@, i as int));
}

proof fn lemma_first_position_matches(signals: Seq<SignalName>, name: Seq<char>, pos: Option<usize>)
    requires
        pos matches Some(i) ==> 0 <= i < signals.len() && signals[i as int]@ == name
            && forall|j: int| 0 <= j < i ==> signals[j]@ != name,
        pos is None ==> forall|j: int| 0 <= j < signals.len() ==> signals[j]@ != name,
    ensures
        crate::time::first_position_in(names_view(signals), name) == (match pos {
            Some(i) => Some(i as int),
            None => None::<int>,
        }),
{
    let names = names_view(signals);
    assert(forall|j: int| 0 <= j < names.len() ==> names[j] == signals[j]@);
    match pos {
        Some(i) => {
            assert(0 <= i < names.len() && names[i as int] == name);
            let c = choose|k: int| 0 <= k < names.len() && names[k] == name && forall|j: int| 0 <= j < k ==> names[j] != name;
            assert(c == i as int) by {
                if c < i as int {
                    assert(names[c] == signals[c]@);
                }
                if c > i as int {
                    assert(names[i as int] == name);
                }
            }
        },
        None => {},
    }
}

fn capture_times_of(events: &Vec<VerilatorEvent>, name: &SignalName) -> (r: Vec<SimulationTime>)
    ensures
        r@ == capture_times(events_view(events@), name@),
{
    let mut r: Vec<SimulationTime> = Vec::new();
    let mut i: usize = 0;
    while i < events.len()
        invariant
            i <= events@.len(),
            r@ == capture_times(events_view(events@.subrange(0, i as int)), name@),
        decreases events@.len() - i,
    {
        if events[i].signal.same_as(name) {
            r.push(events[i].time);
        }
        assert(events_view(events@.subrange(0, i + 1)).drop_last() =~= events_view(events@.subrange(0, i as int)));
        i += 1;
    }
    assert(events@.subrange(0, events@.len() as int) =~= events@);
    r
}

/// The [`DigitalSimulator`] backed by a Verilator-built model.
pub struct VerilatorAdapter<B: VerilatorBackend> {
    backend: B,
    boundary: BoundarySignals,
    signals: Vec<SignalName>,
    pending_prediction: Option<SimulationTime>,
    captured: Vec<VerilatorEvent>,
}

impl<B: VerilatorBackend> VerilatorAdapter<B> {
    /// The transitions captured and not yet handed over.
    pub closed spec fn captured_events(&self) -> Seq<(SimulationTime, Seq<char>, Seq<char>)> {
        events_view(self.captured@)
    }

    /// The revised prediction cached from the last postponement.
    pub closed spec fn cached_prediction(&self) -> Option<SimulationTime> {
        self.pending_prediction
    }

    /// The registered trace signals.
    pub closed spec fn registered(&self) -> Seq<SignalName> {
        self.signals@
    }

    /// The configured boundary map.
    pub closed spec fn boundary_map(&self) -> BoundarySignals {
        self.boundary
    }

    /// The backend driven by this adapter.
    pub closed spec fn held_backend(&self) -> B {
        self.backend
    }

    /// An adapter over `backend` with the boundary map and the trace
    /// signals (whose order fixes their VCD identifiers).
    pub fn new(backend: B, boundary: BoundarySignals, signals: Vec<SignalName>) -> (a: VerilatorAdapter<B>)
        ensures
            a.held_backend() == backend,
            a.boundary_map() == boundary,
            a.registered() == signals@,
            a.cached_prediction() is None,
            a.captured_events().len() == 0,
    {
        VerilatorAdapter { backend, boundary, signals, pending_prediction: None, captured: Vec::new() }
    }

    /// The configured boundary map, unchanged.
    pub fn boundary_signals(&self) -> (b: &BoundarySignals)
        ensures
            *b == self.boundary_map(),
    {
        &self.boundary
    }

    /// The registered trace signals.
    pub fn signals(&self) -> (s: &[SignalName])
        ensures
            s@ == self.registered(),
    {
        self.signals.as_slice()
    }

    /// The backend.
    pub fn backend(&self) -> (b: &B)
        ensures
            *b == self.held_backend(),
    {
        &self.backend
    }

    fn capture(&mut self)
        ensures
            final(self).registered() == old(self).registered(),
            final(self).boundary_map() == old(self).boundary_map(),
            final(self).cached_prediction() == old(self).cached_prediction(),
            final(self).captured_events() == old(self).captured_events() + events_view(
                B::undrained_events(old(self).held_backend().state()),
            ),
            final(self).held_backend().state() == B::after_drain(old(self).held_backend().state()),
    {
        let mut fresh = self.backend.take_events();
        let ghost before = self.captured@;
        let ghost added = fresh@;
        self.captured.append(&mut fresh);
        assert(self.captured@ == before + added);
        assert(events_view(self.captured@) =~= events_view(before) + events_view(added));
    }
}

/// The state of a [`VerilatorAdapter`] over a model in state `S`, as plain
/// values: the model's state, the cached prediction, the captured
/// transitions, the registered trace signals and the boundary map.
pub type VerilatorAdapterState<S> = (
    S,
    Option<SimulationTime>,
    Seq<(SimulationTime, Seq<char>, Seq<char>)>,
    Seq<SignalName>,
    BoundarySignals,
);

impl<B: VerilatorBackend> DigitalSimulator for VerilatorAdapter<B> {
    type State = VerilatorAdapterState<B::State>;

    open spec fn state(&self) -> Self::State {
        (self.held_backend().state(), self.cached_prediction(), self.captured_events(), self.registered(), self.boundary_map())
    }

    open spec fn prediction_outcome(s: Self::State) -> Result<NextEventReport, ErrorValue> {
        match s.1 {
            Some(t) => Ok(NextEventReport { predicted_time: t }),
            None => match B::next_result(s.0) {
                Ok(Some(t)) => Ok(NextEventReport { predicted_time: t }),
                Ok(None) => Err(digital_failure(quiescent_text())),
                Err(m) => Err(digital_failure(query_failure_text(m))),
            },
        }
    }

    open spec fn after_query(s: Self::State) -> Self::State {
        match s.1 {
            Some(_) => (s.0, None, s.2, s.3, s.4),
            None => (B::after_next(s.0), None, s.2, s.3, s.4),
        }
    }

    open spec fn confirm_outcome(s: Self::State, boundary: SimulationTime) -> Result<DigitalStepReport, ErrorValue> {
        match B::step_outcome(s.0, boundary) {
            Ok(VerilatorStepOutcome::Confirmed) => Ok(DigitalStepReport::Confirmed { time: boundary }),
            Ok(VerilatorStepOutcome::Mispredicted { actual_time }) => Ok(DigitalStepReport::Mispredicted { actual_time }),
            Ok(VerilatorStepOutcome::Postponed { new_prediction }) => Ok(DigitalStepReport::Postponed { new_prediction }),
            Err(m) => Err(digital_failure(step_failure_text(boundary, m))),
        }
    }

    open spec fn after_confirm(s: Self::State, boundary: SimulationTime) -> Self::State {
        let stepped = B::after_step(s.0, boundary);
        match B::step_outcome(s.0, boundary) {
            Ok(o) => (
                B::after_drain(stepped),
                match o {
                    VerilatorStepOutcome::Postponed { new_prediction } => Some(new_prediction),
                    _ => s.1,
                },
                s.2 + events_view(B::undrained_events(stepped)),
                s.3,
                s.4,
            ),
            Err(_) => (stepped, s.1, s.2, s.3, s.4),
        }
    }

    open spec fn trace_view(s: Self::State) -> TraceView {
        (verilator_vcd_text(names_view(s.3), s.2), verilator_index(names_view(s.3), s.2))
    }

    open spec fn after_take(s: Self::State) -> Self::State {
        (s.0, s.1, Seq::empty(), s.3, s.4)
    }

    fn adapter_kind(&self) -> (k: DigitalAdapterKind)
        ensures
            k == DigitalAdapterKind::Verilator,
    {
        DigitalAdapterKind::Verilator
    }

    fn next_event_time(&mut self) -> (r: Result<NextEventReport, SchedulerError>) {
        match self.pending_prediction {
            Some(t) => {
                self.pending_prediction = None;
                return Ok(NextEventReport { predicted_time: t });
            },
            None => {},
        }
        match self.backend.next_event_time() {
            Ok(Some(t)) => Ok(NextEventReport { predicted_time: t }),
            Ok(None) => Err(SchedulerError::DigitalAdapterFailed(
                String::from_str("verilator backend reports quiescent model with no further events"),
            )),
            Err(msg) => {
                let mut m = String::from_str("verilator backend next_event_time failed: ");
                push_str(&mut m, msg.as_str());
                assert(m@ =~= query_failure_text(msg@));
                Err(SchedulerError::DigitalAdapterFailed(m))
            },
        }
    }

    fn confirm_event(&mut self, boundary: SimulationTime) -> (r: Result<DigitalStepReport, SchedulerError>) {
        match self.backend.step_to(boundary) {
            Ok(VerilatorStepOutcome::Confirmed) => {
                self.capture();
                Ok(DigitalStepReport::Confirmed { time: boundary })
            },
            Ok(VerilatorStepOutcome::Mispredicted { actual_time }) => {
                self.capture();
                Ok(DigitalStepReport::Mispredicted { actual_time })
            },
            Ok(VerilatorStepOutcome::Postponed { new_prediction }) => {
                self.pending_prediction = Some(new_prediction);
                self.capture();
                Ok(DigitalStepReport::Postponed { new_prediction })
            },
            Err(msg) => {
                let mut m = String::from_str("verilator backend step_to(");
                let bt = boundary.to_string();
                push_str(&mut m, bt.as_str());
                push_str(&mut m, ") failed: ");
                push_str(&mut m, msg.as_str());
                assert(m@ =~= step_failure_text(boundary, msg@));
                Err(SchedulerError::DigitalAdapterFailed(m))
            },
        }
    }

    fn take_trace(&mut self) -> (t: DigitalEventTrace) {
        let ghost names = names_view(self.signals@);
        let ghost e = events_view(self.captured@);
        let n = self.signals.len();
        let mut index: Vec<(SignalName, Vec<SimulationTime>)> = Vec::new();
        let mut i: usize = 0;
        while i < n
            invariant
                i <= n,
                n == self.signals@.len(),
                names == names_view(self.signals@),
                e == events_view(self.captured@),
                crate::icarus::index_view(index@) == verilator_index(names, e).subrange(0, i as int),
            decreases n - i,
        {
            let pos = find_position(self.signals.as_slice(), &self.signals[i]);
            proof {
                lemma_first_position_matches(self.signals@, self.signals@[i as int]@, pos);
                assert(names[i as int] == self.signals@[i as int]@);
            }
            let times = if pos == Some(i) {
                capture_times_of(&self.captured, &self.signals[i])
            } else {
                Vec::new()
            };
            let ghost prev = index@;
            index.push((self.signals[i].duplicate(), times));
            assert(crate::icarus::index_view(index@) =~= crate::icarus::index_view(prev).push((names[i as int], times@)));
            assert(crate::icarus::index_view(index@) =~= verilator_index(names, e).subrange(0, i + 1));
            i += 1;
        }
        let mut out = String::new();
        push_str(&mut out, "$timescale 1ps $end\n$scope module verilator_top $end\n");
        let ghost prefix = out@;
        let mut d: usize = 0;
        while d < n
            invariant
                d <= n,
                n == self.signals@.len(),
                names == names_view(self.signals@),
                out@ == prefix + adapter_declarations(names.subrange(0, d as int)),
            decreases n - d,
        {
            push_str(&mut out, "$var wire 1 ");
            let b: u8 = ((33 + (d % 256)) % 256) as u8;
            let id = b as char;
            assert(id == wrapped_id_char(d as int));
            push_char(&mut out, id);
            push_str(&mut out, " ");
            push_str(&mut out, self.signals[d].as_str());
            push_str(&mut out, " $end\n");
            assert(names.subrange(0, d + 1).drop_last() =~= names.subrange(0, d as int));
            assert(out@ =~= prefix + adapter_declarations(names.subrange(0, d + 1)));
            d += 1;
        }
        assert(names.subrange(0, n as int) =~= names);
        push_str(&mut out, "$upscope $end\n$enddefinitions $end\n");
        let ord = listing_order(&self.captured);
        proof {
            lemma_capture_order_total(e);
            positions(e.len()).lemma_sort_by_ensures(capture_order(e));
            lemma_order_in_range(e);
        }
        let ghost prefix2 = out@;
        let mut k: usize = 0;
        while k < ord.len()
            invariant
                k <= ord@.len(),
                names == names_view(self.signals@),
                e == events_view(self.captured@),
                ord@ == positions(e.len()).sort_by(capture_order(e)),
                forall|j: int| 0 <= j < ord@.len() ==> ord@[j] < e.len(),
                out@ == prefix2 + verilator_timeline(names, e, ord@, k as nat),
            decreases ord@.len() - k,
        {
            push_timeline_entry(&mut out, &self.signals, &self.captured, &ord, k);
            k += 1;
        }
        let mut emptied: Vec<VerilatorEvent> = Vec::new();
        std::mem::swap(&mut emptied, &mut self.captured);
        assert(self.captured_events() =~= Seq::empty());
        DigitalEventTrace { vcd: out, events_by_signal: index }
    }
}

/// A query leaves no prediction cached, whatever the state: a revised
/// prediction is handed back at most once.
pub proof fn law_query_clears_cached_prediction<B: VerilatorBackend>(s: VerilatorAdapterState<B::State>)
    ensures
        VerilatorAdapter::<B>::after_query(s).1 is None,
        VerilatorAdapter::<B>::after_query(s).2 == s.2,
{
}

/// A postponement's revised prediction is handed back exactly once: from a
/// state with `t` cached, a query answers `t` without touching the model,
/// and the query after it answers as an adapter with nothing cached does,
/// from the model's own next event.
pub proof fn law_cached_prediction_handed_back_once<B: VerilatorBackend>(
    s: VerilatorAdapterState<B::State>,
    t: SimulationTime,
)
    requires
        s.1 == Some(t),
    ensures
        VerilatorAdapter::<B>::prediction_outcome(s) == Ok::<NextEventReport, ErrorValue>(
            NextEventReport { predicted_time: t },
        ),
        VerilatorAdapter::<B>::after_query(s).0 == s.0,
        VerilatorAdapter::<B>::prediction_outcome(VerilatorAdapter::<B>::after_query(s))
            == VerilatorAdapter::<B>::prediction_outcome((s.0, None, s.2, s.3, s.4)),
        VerilatorAdapter::<B>::prediction_outcome(VerilatorAdapter::<B>::after_query(s)) == match B::next_result(s.0) {
            Ok(Some(u)) => Ok::<NextEventReport, ErrorValue>(NextEventReport { predicted_time: u }),
            Ok(None) => Err(digital_failure(quiescent_text())),
            Err(m) => Err(digital_failure(query_failure_text(m))),
        },
{
}

/// A postponement is announced to the next query: when a confirmation
/// reports that the event moved to `p`, the following query answers `p`.
pub proof fn law_postponement_answers_next_query<B: VerilatorBackend>(
    s: VerilatorAdapterState<B::State>,
    boundary: SimulationTime,
    p: SimulationTime,
)
    requires
        VerilatorAdapter::<B>::confirm_outcome(s, boundary) == Ok::<DigitalStepReport, ErrorValue>(
            DigitalStepReport::Postponed { new_prediction: p },
        ),
    ensures
        VerilatorAdapter::<B>::prediction_outcome(VerilatorAdapter::<B>::after_confirm(s, boundary))
            == Ok::<NextEventReport, ErrorValue>(NextEventReport { predicted_time: p }),
{
}

/// Every successful step keeps what the model captured, whatever the
/// verdict (confirmed, mispredicted or postponed): the transitions not yet
/// drained once the model has stepped are appended, in order, to those
/// captured before, and the model is left drained. A failed step captures
/// nothing, and only a postponement changes the cached prediction.
pub proof fn law_step_captures_transitions<B: VerilatorBackend>(
    s: VerilatorAdapterState<B::State>,
    boundary: SimulationTime,
)
    ensures
        B::step_outcome(s.0, boundary) is Ok ==> VerilatorAdapter::<B>::after_confirm(s, boundary).2 == s.2
            + events_view(B::undrained_events(B::after_step(s.0, boundary))),
        B::step_outcome(s.0, boundary) is Ok ==> VerilatorAdapter::<B>::after_confirm(s, boundary).0
            == B::after_drain(B::after_step(s.0, boundary)),
        B::step_outcome(s.0, boundary) is Err ==> VerilatorAdapter::<B>::after_confirm(s, boundary).2 == s.2,
        VerilatorAdapter::<B>::after_confirm(s, boundary).2.subrange(0, s.2.len() as int) == s.2,
        VerilatorAdapter::<B>::after_confirm(s, boundary).3 == s.3,
        !(VerilatorAdapter::<B>::confirm_outcome(s, boundary) matches Ok(DigitalStepReport::Postponed { .. }))
            ==> VerilatorAdapter::<B>::after_confirm(s, boundary).1 == s.1,
{
    let r = VerilatorAdapter::<B>::after_confirm(s, boundary);
    assert(r.2.subrange(0, s.2.len() as int) =~= s.2);
}

/// Appends the lines of the `k`-th transition in listing order `ord`.
#[verifier::rlimit(40)]
fn push_timeline_entry(
    out: &mut String,
    signals: &Vec<SignalName>,
    captured: &Vec<VerilatorEvent>,
    ord: &Vec<usize>,
    k: usize,
)
    requires
        k < ord@.len(),
        forall|j: int| 0 <= j < ord@.len() ==> ord@[j] < captured@.len(),
    ensures
        final(out)@ == old(out)@ + timeline_entry(names_view(signals@), events_view(captured@), ord@, k as int),
{
    let ghost e = events_view(captured@);
    let idx = ord[k];
    let ev = &captured[idx];
    assert(e[idx as int] == event_view(*ev));
    if k > 0 {
        assert(e[ord@[k - 1] as int] == event_view(captured@[ord@[k - 1] as int]));
    }
    if k == 0 || captured[ord[k - 1]].time.ps != ev.time.ps {
        push_char(out, '#');
        push_int_decimal(out, ev.time.ps);
        push_char(out, '\n');
    }
    let pos = find_position(signals.as_slice(), &ev.signal);
    proof {
        lemma_first_position_matches(signals@, ev.signal@, pos);
    }
    match pos {
        Some(p) => {
            push_value_line(out, &ev.new_value, p);
        },
        None => {},
    }
    assert(out@ =~= old(out)@ + timeline_entry(names_view(signals@), e, ord@, k as int));
}

proof fn lemma_order_in_range(e: Seq<(SimulationTime, Seq<char>, Seq<char>)>)
    requires
        total_ordering(capture_order(e)),
    ensures
        forall|j: int| 0 <= j < positions(e.len()).sort_by(capture_order(e)).len()
            ==> positions(e.len()).sort_by(capture_order(e))[j] < e.len(),
{
    let ord = positions(e.len()).sort_by(capture_order(e));
    positions(e.len()).lemma_sort_by_ensures(capture_order(e));
    assert forall|j: int| 0 <= j < ord.len() implies ord[j] < e.len() by {
        assert(ord.to_multiset().count(ord[j]) > 0);
        assert(positions(e.len()).contains(ord[j]));
    }
}

/// A programmable backend: predictions, step verdicts (each with the
/// boundary it expects) and the transitions each step captures, all
/// consumed in order.
#[derive(Debug, Clone)]
pub struct ScriptedVerilatorBackend {
    predictions: VecDeque<SimulationTime>,
    steps: VecDeque<(SimulationTime, VerilatorStepOutcome)>,
    events_per_step: VecDeque<Vec<VerilatorEvent>>,
    pending_events: Vec<VerilatorEvent>,
}

fn to_queue<T>(v: Vec<T>) -> (q: VecDeque<T>)
    ensures
        q@ == v@,
{
    let ghost all = v@;
    let mut rest = v;
    let mut queue: VecDeque<T> = VecDeque::new();
    while rest.len() > 0
        invariant
            rest@ + queue@ == all,
        decreases rest@.len(),
    {
        let ghost r0 = rest@;
        let ghost q0 = queue@;
        match rest.pop() {
            Some(x) => {
                queue.push_front(x);
                assert(rest@ + queue@ =~= r0 + q0);
            },
            None => {},
        }
    }
    assert(queue@ =~= all);
    queue
}

/// Text of the error for a step to an unexpected boundary.
pub open spec fn unexpected_step_text(expected: SimulationTime, got: SimulationTime) -> Seq<char> {
    "scripted backend: expected step_to("@ + time_text(expected) + "), got step_to("@ + time_text(got) + ")"@
}

impl ScriptedVerilatorBackend {
    /// Predictions not yet handed out.
    pub closed spec fn remaining_predictions(&self) -> Seq<SimulationTime> {
        self.predictions@
    }

    /// Step verdicts not yet used.
    pub closed spec fn remaining_steps(&self) -> Seq<(SimulationTime, VerilatorStepOutcome)> {
        self.steps@
    }

    /// Per-step transitions not yet released.
    pub closed spec fn remaining_events(&self) -> Seq<Vec<VerilatorEvent>> {
        self.events_per_step@
    }

    /// Transitions released and not yet drained.
    pub closed spec fn undrained(&self) -> Seq<VerilatorEvent> {
        self.pending_events@
    }

    /// A backend with the given script.
    pub fn new(
        predictions: Vec<SimulationTime>,
        steps: Vec<(SimulationTime, VerilatorStepOutcome)>,
        events_per_step: Vec<Vec<VerilatorEvent>>,
    ) -> (b: ScriptedVerilatorBackend)
        ensures
            b.remaining_predictions() == predictions@,
            b.remaining_steps() == steps@,
            b.remaining_events() == events_per_step@,
            b.undrained().len() == 0,
    {
        ScriptedVerilatorBackend {
            predictions: to_queue(predictions),
            steps: to_queue(steps),
            events_per_step: to_queue(events_per_step),
            pending_events: Vec::new(),
        }
    }
}

/// The state of a [`ScriptedVerilatorBackend`] as plain values: the
/// predictions not yet handed out, the step verdicts not yet used, the
/// per-step transitions not yet released, and the transitions released and
/// not yet drained.
pub type ScriptedBackendState = (
    Seq<SimulationTime>,
    Seq<(SimulationTime, VerilatorStepOutcome)>,
    Seq<Vec<VerilatorEvent>>,
    Seq<VerilatorEvent>,
);

impl VerilatorBackend for ScriptedVerilatorBackend {
    type State = ScriptedBackendState;

    open spec fn state(&self) -> ScriptedBackendState {
        (self.remaining_predictions(), self.remaining_steps(), self.remaining_events(), self.undrained())
    }

    open spec fn next_result(s: ScriptedBackendState) -> Result<Option<SimulationTime>, Seq<char>> {
        if s.0.len() > 0 {
            Ok(Some(s.0[0]))
        } else {
            Ok(None)
        }
    }

    open spec fn after_next(s: ScriptedBackendState) -> ScriptedBackendState {
        (if s.0.len() > 0 { s.0.drop_first() } else { s.0 }, s.1, s.2, s.3)
    }

    open spec fn step_outcome(s: ScriptedBackendState, boundary: SimulationTime) -> Result<VerilatorStepOutcome, Seq<char>> {
        if s.1.len() == 0 {
            Err("scripted backend: step_to called after script exhausted"@)
        } else if s.1[0].0 == boundary {
            Ok(s.1[0].1)
        } else {
            Err(unexpected_step_text(s.1[0].0, boundary))
        }
    }

    open spec fn after_step(s: ScriptedBackendState, boundary: SimulationTime) -> ScriptedBackendState {
        (
            s.0,
            if s.1.len() > 0 { s.1.drop_first() } else { s.1 },
            if s.2.len() > 0 { s.2.drop_first() } else { s.2 },
            if s.2.len() > 0 { s.3 + s.2[0]@ } else { s.3 },
        )
    }

    open spec fn undrained_events(s: ScriptedBackendState) -> Seq<VerilatorEvent> {
        s.3
    }

    open spec fn after_drain(s: ScriptedBackendState) -> ScriptedBackendState {
        (s.0, s.1, s.2, Seq::empty())
    }

    fn next_event_time(&mut self) -> (r: Result<Option<SimulationTime>, String>) {
        let ghost p0 = self.predictions@;
        let next = self.predictions.pop_front();
        assert(self.remaining_predictions() =~= (if p0.len() > 0 { p0.drop_first() } else { p0 }));
        Ok(next)
    }

    fn step_to(&mut self, boundary: SimulationTime) -> (r: Result<VerilatorStepOutcome, String>) {
        let ghost s0 = self.steps@;
        let ghost e0 = self.events_per_step@;
        let head = self.steps.pop_front();
        assert(self.remaining_steps() =~= (if s0.len() > 0 { s0.drop_first() } else { s0 }));
        match self.events_per_step.pop_front() {
            Some(mut evs) => {
                self.pending_events.append(&mut evs);
            },
            None => {},
        }
        assert(self.remaining_events() =~= (if e0.len() > 0 { e0.drop_first() } else { e0 }));
        match head {
            Some((expected, outcome)) => {
                if expected == boundary {
                    Ok(outcome)
                } else {
                    let mut m = String::from_str("scripted backend: expected step_to(");
                    let et = expected.to_string();
                    push_str(&mut m, et.as_str());
                    push_str(&mut m, "), got step_to(");
                    let bt = boundary.to_string();
                    push_str(&mut m, bt.as_str());
                    push_str(&mut m, ")");
                    proof {
                        reveal_strlit("scripted backend: expected step_to(");
                    }
                    assert(m@ =~= unexpected_step_text(expected, boundary));
                    Err(m)
                }
            },
            None => Err(String::from_str("scripted backend: step_to called after script exhausted")),
        }
    }

    fn take_events(&mut self) -> (r: Vec<VerilatorEvent>) {
        let mut drained: Vec<VerilatorEvent> = Vec::new();
        std::mem::swap(&mut drained, &mut self.pending_events);
        assert(self.undrained() =~= Seq::empty());
        drained
    }
}

} // verus!
