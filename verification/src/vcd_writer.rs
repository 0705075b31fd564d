//! Value Change Dump (VCD) text for the digital half of a co-simulation
//! result.
//!
//! The output declares every boundary signal with a one-character
//! identifier (`!`, `"`, `#`, ... in declaration order), dumps all of them
//! as `0` at time zero, and then lists the captured events in time order
//! (picoseconds): one `#<time>` line per distinct time, followed by a
//! `1<id>` line per signal with an event at that time. Events at time zero
//! are covered by the initial dump.
use vstd::prelude::*;
use vstd::relations::sorted_by;
use crate::order::{lemma_pair_leq_total, pair_leq, sort_pairs};
use vstd::string::StringExecFns;
use crate::text::{int_decimal, push_char, push_int_decimal, push_str};
use crate::time::{SignalName, SimulationTime};

verus! {


/// Most signals one trace can declare with one-character identifiers.
pub const MAX_SINGLE_CHAR_SIGNALS: usize = 94;

/// What a VCD trace is built from.
#[derive(Debug, Clone)]
pub struct VcdTraceInput<'a> {
    /// Name of the top-level scope.
    pub scope_name: &'a str,
    /// Declared signals, in identifier order.
    pub signals: &'a [SignalName],
    /// Event times of each signal (parallel to `signals`).
    pub events_by_signal: &'a [Vec<SimulationTime>],
}

/// The identifier character of the `i`-th declared signal.
pub open spec fn id_char(i: int) -> char {
    (33 + i) as char
}

/// The fixed lines before the scope.
pub open spec fn header_text() -> Seq<char> {
    "$date\n    2026-05-21\n$end\n$version\n    circuit-solver mixed-signal-cosim\n$end\n$timescale 1ps $end\n"@
}

/// The `$var` declaration of each signal.
pub open spec fn declarations(names: Seq<Seq<char>>) -> Seq<char>
    decreases names.len(),
{
    if names.len() == 0 {
        Seq::empty()
    } else {
        declarations(names.drop_last()) + "$var wire 1 "@ + seq![id_char(names.len() - 1)] + " "@
            + names.last() + " $end\n"@
    }
}

/// The initial `0<id>` value of the first `n` signals.
pub open spec fn initial_values(n: nat) -> Seq<char>
    decreases n,
{
    if n == 0 {
        Seq::empty()
    } else {
        initial_values((n - 1) as nat) + seq!['0', id_char(n - 1), '\n']
    }
}

/// The events of signal `idx` other than those at time zero, as
/// (picoseconds, identifier byte) entries in the given order.
pub open spec fn signal_entries(times: Seq<SimulationTime>, idx: int) -> Seq<(i64, u64)>
    decreases times.len(),
{
    if times.len() == 0 {
        Seq::empty()
    } else {
        let rest = signal_entries(times.drop_last(), idx);
        if times.last().ps == 0 {
            rest
        } else {
            rest.push((times.last().ps, (33 + idx) as u64))
        }
    }
}

/// All nonzero-time events of all signals, signal by signal.
pub open spec fn raw_timeline(events: Seq<Seq<SimulationTime>>) -> Seq<(i64, u64)>
    decreases events.len(),
{
    if events.len() == 0 {
        Seq::empty()
    } else {
        raw_timeline(events.drop_last()) + signal_entries(events.last(), events.len() - 1)
    }
}

/// The text of entry `k` of a sorted timeline: a `#<time>` line when its
/// time differs from the previous entry's, then `1<id>`.
pub open spec fn entry_text(tl: Seq<(i64, u64)>, k: int) -> Seq<char> {
    let stamp = if k > 0 && tl[k - 1].0 == tl[k].0 {
        Seq::<char>::empty()
    } else {
        seq!['#'] + int_decimal(tl[k].0 as int) + seq!['\n']
    };
    stamp + seq!['1', (tl[k].1 as u8) as char, '\n']
}

/// The text of the first `k` entries of a timeline.
pub open spec fn timeline_text(tl: Seq<(i64, u64)>, k: nat) -> Seq<char>
    decreases k,
{
    if k == 0 {
        Seq::empty()
    } else {
        timeline_text(tl, (k - 1) as nat) + entry_text(tl, k - 1)
    }
}

/// The complete VCD text for the given scope, signal names and events.
pub open spec fn vcd_text(scope: Seq<char>, names: Seq<Seq<char>>, events: Seq<Seq<SimulationTime>>) -> Seq<char> {
    let tl = raw_timeline(events).sort_by(pair_leq());
    header_text() + "$scope module "@ + scope + " $end\n"@ + declarations(names)
        + "$upscope $end\n$enddefinitions $end\n#0\n$dumpvars\n"@ + initial_values(names.len())
        + "$end\n"@ + timeline_text(tl, tl.len())
}

proof fn lemma_signal_entries_nonzero(times: Seq<SimulationTime>, idx: int)
    ensures
        forall|k: int| 0 <= k < signal_entries(times, idx).len() ==> signal_entries(times, idx)[k].0 != 0,
    decreases times.len(),
{
    if times.len() > 0 {
        lemma_signal_entries_nonzero(times.drop_last(), idx);
        let rest = signal_entries(times.drop_last(), idx);
        if times.last().ps != 0 {
            assert forall|k: int| 0 <= k < signal_entries(times, idx).len() implies signal_entries(times, idx)[k].0 != 0 by {
                if k < rest.len() {
                    assert(signal_entries(times, idx)[k] == rest[k]);
                }
            }
        }
    }
}

proof fn lemma_raw_timeline_nonzero(events: Seq<Seq<SimulationTime>>)
    ensures
        forall|k: int| 0 <= k < raw_timeline(events).len() ==> raw_timeline(events)[k].0 != 0,
    decreases events.len(),
{
    if events.len() > 0 {
        lemma_raw_timeline_nonzero(events.drop_last());
        lemma_signal_entries_nonzero(events.last(), events.len() - 1);
        let a = raw_timeline(events.drop_last());
        let b = signal_entries(events.last(), events.len() - 1);
        assert forall|k: int| 0 <= k < raw_timeline(events).len() implies raw_timeline(events)[k].0 != 0 by {
            if k < a.len() {
                assert(raw_timeline(events)[k] == a[k]);
            } else {
                assert(raw_timeline(events)[k] == b[k - a.len()]);
            }
        }
    }
}

/// The events listed after the initial dump are all the captured events
/// not at time zero, in order of time (then identifier), whatever order
/// they were captured in; none is at time zero.
pub proof fn law_vcd_timeline_sorted_and_complete(events: Seq<Seq<SimulationTime>>)
    ensures
        sorted_by(raw_timeline(events).sort_by(pair_leq()), pair_leq()),
        raw_timeline(events).sort_by(pair_leq()).to_multiset() == raw_timeline(events).to_multiset(),
        forall|k: int| 0 <= k < raw_timeline(events).sort_by(pair_leq()).len()
            ==> raw_timeline(events).sort_by(pair_leq())[k].0 != 0,
{
    broadcast use vstd::seq_lib::group_to_multiset_ensures;

    let raw = raw_timeline(events);
    let tl = raw.sort_by(pair_leq());
    lemma_pair_leq_total();
    raw.lemma_sort_by_ensures(pair_leq());
    lemma_raw_timeline_nonzero(events);
    assert forall|k: int| 0 <= k < tl.len() implies tl[k].0 != 0 by {
        assert(tl.to_multiset().count(tl[k]) > 0);
        assert(raw.to_multiset().count(tl[k]) > 0);
        assert(raw.contains(tl[k]));
    }
}

proof fn lemma_signal_entries_count(times: Seq<SimulationTime>, idx: int, x: (i64, u64))
    requires
        0 <= idx < MAX_SINGLE_CHAR_SIGNALS,
    ensures
        signal_entries(times, idx).to_multiset().count(x) == (if x.0 != 0 && x.1 == 33 + idx {
            times.to_multiset().count(SimulationTime { ps: x.0 })
        } else {
            0
        }),
    decreases times.len(),
{
    broadcast use vstd::seq_lib::group_to_multiset_ensures;

    if times.len() > 0 {
        let rest = times.drop_last();
        let last = times.last();
        lemma_signal_entries_count(rest, idx, x);
        assert(times =~= rest.push(last));
        assert(times.to_multiset() =~= rest.to_multiset().insert(last));
        assert(last == SimulationTime { ps: last.ps });
        if last.ps != 0 {
            let e = (last.ps, (33 + idx) as u64);
            assert(signal_entries(times, idx).to_multiset() =~= signal_entries(rest, idx).to_multiset().insert(e));
        }
    }
}

proof fn lemma_raw_timeline_count(events: Seq<Seq<SimulationTime>>, x: (i64, u64))
    requires
        events.len() <= MAX_SINGLE_CHAR_SIGNALS,
    ensures
        raw_timeline(events).to_multiset().count(x) == (if x.0 != 0 && 33 <= x.1 < 33 + events.len() {
            events[x.1 - 33].to_multiset().count(SimulationTime { ps: x.0 })
        } else {
            0
        }),
    decreases events.len(),
{
    broadcast use vstd::seq_lib::group_to_multiset_ensures;

    if events.len() > 0 {
        let n = events.len() - 1;
        let front = events.drop_last();
        lemma_raw_timeline_count(front, x);
        lemma_signal_entries_count(events.last(), n, x);
        vstd::seq_lib::lemma_multiset_commutative(raw_timeline(front), signal_entries(events.last(), n));
        assert(raw_timeline(events) == raw_timeline(front) + signal_entries(events.last(), n));
        if x.0 != 0 && 33 <= x.1 < 33 + n {
            assert(front[x.1 - 33] == events[x.1 - 33]);
        }
        if x.1 == 33 + n {
            assert(events[x.1 - 33] == events.last());
        }
    } else {
        assert(raw_timeline(events).to_multiset() =~= vstd::multiset::Multiset::empty());
    }
}

/// The VCD text does not depend on the order in which each signal's events
/// are listed: reordering the events of any signals gives the same text.
pub proof fn law_vcd_ignores_event_order(
    scope: Seq<char>,
    names: Seq<Seq<char>>,
    events: Seq<Seq<SimulationTime>>,
    reordered: Seq<Seq<SimulationTime>>,
)
    requires
        events.len() <= MAX_SINGLE_CHAR_SIGNALS,
        reordered.len() == events.len(),
        forall|i: int| 0 <= i < events.len() ==> #[trigger] reordered[i].to_multiset() == events[i].to_multiset(),
    ensures
        vcd_text(scope, names, reordered) == vcd_text(scope, names, events),
{
    broadcast use vstd::seq_lib::group_to_multiset_ensures;

    let a = raw_timeline(events);
    let b = raw_timeline(reordered);
    assert forall|x: (i64, u64)| a.to_multiset().count(x) == b.to_multiset().count(x) by {
        lemma_raw_timeline_count(events, x);
        lemma_raw_timeline_count(reordered, x);
        if x.0 != 0 && 33 <= x.1 < 33 + events.len() {
            assert(reordered[x.1 - 33].to_multiset() == events[x.1 - 33].to_multiset());
        }
    }
    assert(a.to_multiset() =~= b.to_multiset());
    lemma_pair_leq_total();
    a.lemma_sort_by_ensures(pair_leq());
    b.lemma_sort_by_ensures(pair_leq());
    vstd::seq_lib::lemma_sorted_unique(a.sort_by(pair_leq()), b.sort_by(pair_leq()), pair_leq());
}

fn id_of(i: usize) -> (c: char)
    requires
        i < 94,
    ensures
        c == id_char(i as int),
{
    let b: u8 = 33u8 + (i as u8);
    b as char
}

/// Builds the VCD text of a captured boundary-event log.
pub fn build_vcd(input: &VcdTraceInput<'_>) -> (out: String)
    requires
        input.signals@.len() == input.events_by_signal@.len(),
        input.signals@.len() <= MAX_SINGLE_CHAR_SIGNALS,
    ensures
        out@ == vcd_text(
            input.scope_name@,
            input.signals@.map_values(|s: SignalName| s@),
            input.events_by_signal@.map_values(|v: Vec<SimulationTime>| v@),
        ),
{
    let ghost names = input.signals@.map_values(|s: SignalName| s@);
    let ghost events = input.events_by_signal@.map_values(|v: Vec<SimulationTime>| v@);
    let n = input.signals.len();
    let mut out = String::new();
    push_str(&mut out, "$date\n    2026-05-21\n$end\n$version\n    circuit-solver mixed-signal-cosim\n$end\n$timescale 1ps $end\n");
    push_str(&mut out, "$scope module ");
    push_str(&mut out, input.scope_name);
    push_str(&mut out, " $end\n");
    let ghost prefix = out@;
    let mut i: usize = 0;
    while i < n
        invariant
            i <= n,
            n == input.signals@.len(),
            n <= MAX_SINGLE_CHAR_SIGNALS,
            names == input.signals@.map_values(|s: SignalName| s@),
            out@ == prefix + declarations(names.subrange(0, i as int)),
        decreases n - i,
    {
        push_str(&mut out, "$var wire 1 ");
        push_char(&mut out, id_of(i));
        push_str(&mut out, " ");
        push_str(&mut out, input.signals[i].as_str());
        push_str(&mut out, " $end\n");
        assert(names.subrange(0, i + 1).drop_last() =~= names.subrange(0, i as int));
        assert(out@ =~= prefix + declarations(names.subrange(0, i + 1)));
        i += 1;
    }
    assert(names.subrange(0, n as int) =~= names);
    push_str(&mut out, "$upscope $end\n$enddefinitions $end\n#0\n$dumpvars\n");
    let ghost prefix2 = out@;
    let mut k: usize = 0;
    while k < n
        invariant
            k <= n,
            n <= MAX_SINGLE_CHAR_SIGNALS,
            out@ == prefix2 + initial_values(k as nat),
        decreases n - k,
    {
        push_char(&mut out, '0');
        push_char(&mut out, id_of(k));
        push_char(&mut out, '\n');
        assert(out@ =~= prefix2 + initial_values((k + 1) as nat));
        k += 1;
    }
    push_str(&mut out, "$end\n");
    let mut raw: Vec<(i64, u64)> = Vec::new();
    let mut si: usize = 0;
    while si < n
        invariant
            si <= n,
            n == input.events_by_signal@.len(),
            n <= MAX_SINGLE_CHAR_SIGNALS,
            events == input.events_by_signal@.map_values(|v: Vec<SimulationTime>| v@),
            raw@ == raw_timeline(events.subrange(0, si as int)),
        decreases n - si,
    {
        let times = &input.events_by_signal[si];
        let ghost base = raw@;
        let mut j: usize = 0;
        while j < times.len()
            invariant
                j <= times@.len(),
                si < n,
                n <= MAX_SINGLE_CHAR_SIGNALS,
                raw@ == base + signal_entries(times@.subrange(0, j as int), si as int),
            decreases times@.len() - j,
        {
            let ps = times[j].ps;
            if ps != 0 {
                raw.push((ps, 33u64 + (si as u64)));
            }
            assert(times@.subrange(0, j + 1).drop_last() =~= times@.subrange(0, j as int));
            assert(raw@ =~= base + signal_entries(times@.subrange(0, j + 1), si as int));
            j += 1;
        }
        assert(times@.subrange(0, times@.len() as int) =~= times@);
        assert(events.subrange(0, si + 1).drop_last() =~= events.subrange(0, si as int));
        assert(events[si as int] == times@);
        assert(raw@ =~= raw_timeline(events.subrange(0, si + 1)));
        si += 1;
    }
    assert(events.subrange(0, n as int) =~= events);
    let tl = sort_pairs(&raw);
    let ghost prefix3 = out@;
    let mut t: usize = 0;
    while t < tl.len()
        invariant
            t <= tl@.len(),
            out@ == prefix3 + timeline_text(tl@, t as nat),
        decreases tl@.len() - t,
    {
        let (ps, id) = tl[t];
        if t == 0 || tl[t - 1].0 != ps {
            push_char(&mut out, '#');
            push_int_decimal(&mut out, ps);
            push_char(&mut out, '\n');
        }
        push_char(&mut out, '1');
        push_char(&mut out, (id as u8) as char);
        push_char(&mut out, '\n');
        assert(out@ =~= prefix3 + timeline_text(tl@, (t + 1) as nat));
        t += 1;
    }
    assert(out@ =~= vcd_text(input.scope_name@, names, events));
    out
}

} // verus!
