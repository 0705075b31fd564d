//! Icarus Verilog adapter.
//!
//! [`IcarusVerilogAdapter`] is the digital simulator the scheduler sees; it
//! drives an Icarus VVP runtime through the narrow [`VvpTransport`]
//! interface (prediction query, advance-and-report, rollback) and records
//! every toggled boundary signal so it can hand back a VCD trace and a
//! per-signal event index at the end of the run. [`InMemoryVvp`] is a
//! scripted transport that replays a fixed sequence of events.
use vstd::prelude::*;
use std::collections::VecDeque;
use vstd::string::StringExecFns;
use crate::mixed_signal::{
    DigitalAdapterKind, DigitalEventTrace, DigitalSimulator, DigitalStepReport, NextEventReport,
    ErrorValue, SchedulerError, TraceView, digital_failure,
};
use crate::order::{key_before, pair_leq, sort_pairs};
use crate::text::{int_decimal, push_char, push_int_decimal, push_str};
use crate::time::{SignalName, SimulationTime, duplicate_names, find_position, names_view};

verus! {

/// What the VVP runtime reports after advancing to a boundary.
#[derive(Debug, Clone, PartialEq)]
pub enum VvpAdvanceReport {
    /// An event happened at `time`, toggling `toggled`.
    Confirmed {
        /// The event time.
        time: SimulationTime,
        /// Signals that changed.
        toggled: Vec<SignalName>,
    },
    /// No event at the boundary; the next one is predicted at `new_prediction`.
    Postponed {
        /// The revised prediction.
        new_prediction: SimulationTime,
    },
    /// An event happened earlier, at `actual_time`, toggling `toggled`.
    Mispredicted {
        /// The earlier event time.
        actual_time: SimulationTime,
        /// Signals that changed.
        toggled: Vec<SignalName>,
    },
}

/// The wire-level interface to a VVP runtime. The runtime's state is named
/// as a plain value; what each call answers, and the state it leaves, is a
/// function of that state and the call's argument, named by the spec
/// functions.
pub trait VvpTransport {
    /// The runtime's state as a plain value.
    type State;

    /// The present state.
    spec fn state(&self) -> Self::State;

    /// The next scheduled event time in state `s`, or the diagnostic the
    /// query fails with.
    spec fn prediction(s: Self::State) -> Result<SimulationTime, Seq<char>>;

    /// The state a query leaves from state `s`.
    spec fn after_query(s: Self::State) -> Self::State;

    /// What advancing to `boundary` from state `s` reports, as plain
    /// values, or the diagnostic it fails with.
    spec fn advance_view(s: Self::State, boundary: SimulationTime) -> Result<(DigitalStepReport, Seq<Seq<char>>), Seq<char>>;

    /// The state advancing to `boundary` leaves from state `s`.
    spec fn after_advance(s: Self::State, boundary: SimulationTime) -> Self::State;

    /// Whether restoring to `target` from state `s` succeeds, or the
    /// diagnostic it fails with.
    spec fn rollback_result(s: Self::State, target: SimulationTime) -> Result<(), Seq<char>>;

    /// The state restoring to `target` leaves from state `s`.
    spec fn after_rollback(s: Self::State, target: SimulationTime) -> Self::State;

    /// The names of the declared boundary signals in state `s`, in order.
    spec fn signal_names(s: Self::State) -> Seq<Seq<char>>;

    /// The runtime's next scheduled event time, or a diagnostic.
    fn query_next_event(&mut self) -> (r: Result<SimulationTime, String>)
        ensures
            r matches Ok(t) ==> Self::prediction(old(self).state()) == Ok::<SimulationTime, Seq<char>>(t),
            r matches Err(m) ==> Self::prediction(old(self).state()) == Err::<SimulationTime, Seq<char>>(m@),
            final(self).state() == Self::after_query(old(self).state()),
    ;

    /// Advance the runtime to `boundary` and report what happened.
    fn advance_and_report(&mut self, boundary: SimulationTime) -> (r: Result<VvpAdvanceReport, String>)
        ensures
            r matches Ok(rep) ==> Self::advance_view(old(self).state(), boundary)
                == Ok::<(DigitalStepReport, Seq<Seq<char>>), Seq<char>>(report_view(rep)),
            r matches Err(m) ==> Self::advance_view(old(self).state(), boundary)
                == Err::<(DigitalStepReport, Seq<Seq<char>>), Seq<char>>(m@),
            final(self).state() == Self::after_advance(old(self).state(), boundary),
    ;

    /// Restore the runtime to its latest checkpoint at or before `target`.
    fn rollback_to(&mut self, target: SimulationTime) -> (r: Result<(), String>)
        ensures
            r is Ok ==> Self::rollback_result(old(self).state(), target) is Ok,
            r matches Err(m) ==> Self::rollback_result(old(self).state(), target) == Err::<(), Seq<char>>(m@),
            final(self).state() == Self::after_rollback(old(self).state(), target),
    ;

    /// The declared boundary signals, in stable order.
    fn signals(&self) -> (s: &[SignalName])
        ensures
            names_view(s@) == Self::signal_names(self.state()),
    ;
}

/// A runtime report as plain values: the verdict it stands for and the
/// names of the signals it toggled (none for a postponement).
pub open spec fn report_view(rep: VvpAdvanceReport) -> (DigitalStepReport, Seq<Seq<char>>) {
    match rep {
        VvpAdvanceReport::Confirmed { time, toggled } => (DigitalStepReport::Confirmed { time }, names_view(toggled@)),
        VvpAdvanceReport::Postponed { new_prediction } => (DigitalStepReport::Postponed { new_prediction }, Seq::empty()),
        VvpAdvanceReport::Mispredicted { actual_time, toggled } =>
            (DigitalStepReport::Mispredicted { actual_time }, names_view(toggled@)),
    }
}

/// The (signal, time) events the adapter records for a report: one per
/// toggled signal, at the confirmed or actual time.
pub open spec fn recorded_for(v: (DigitalStepReport, Seq<Seq<char>>)) -> Seq<(Seq<char>, SimulationTime)> {
    match v.0 {
        DigitalStepReport::Confirmed { time } => v.1.map_values(|n: Seq<char>| (n, time)),
        DigitalStepReport::Mispredicted { actual_time } => v.1.map_values(|n: Seq<char>| (n, actual_time)),
        DigitalStepReport::Postponed { .. } => Seq::empty(),
    }
}

/// Recorded (signal, time) events as plain values.
pub open spec fn event_entries(e: Seq<(SignalName, SimulationTime)>) -> Seq<(Seq<char>, SimulationTime)> {
    e.map_values(|x: (SignalName, SimulationTime)| (x.0@, x.1))
}

/// The recorded events at or before `target`, in order.
pub open spec fn events_until(e: Seq<(Seq<char>, SimulationTime)>, target: SimulationTime) -> Seq<(Seq<char>, SimulationTime)>
    decreases e.len(),
{
    if e.len() == 0 {
        e
    } else if e.last().1.ps <= target.ps {
        events_until(e.drop_last(), target).push(e.last())
    } else {
        events_until(e.drop_last(), target)
    }
}

/// The identifier character of the `i`-th declared signal (the byte
/// `33 + i`, wrapping at 256).
pub open spec fn wrapped_id_char(i: int) -> char {
    (((33 + i) % 256) as u8) as char
}

/// The `$var` declarations of the adapter's VCD.
pub open spec fn adapter_declarations(names: Seq<Seq<char>>) -> Seq<char>
    decreases names.len(),
{
    if names.len() == 0 {
        Seq::empty()
    } else {
        adapter_declarations(names.drop_last()) + "$var wire 1 "@ + seq![wrapped_id_char(names.len() - 1)] + " "@
            + names.last() + " $end\n"@
    }
}

/// The recorded events keyed for a stable time order: (time, position).
pub open spec fn time_keys(e: Seq<(Seq<char>, SimulationTime)>) -> Seq<(i64, u64)> {
    Seq::new(e.len(), |k: int| (e[k].1.ps, k as u64))
}

/// The position of the first declared signal named `name`, if any.
pub open spec fn declared_position(signals: Seq<Seq<char>>, name: Seq<char>, i: int) -> bool {
    &&& 0 <= i < signals.len()
    &&& signals[i] == name
    &&& forall|j: int| 0 <= j < i ==> signals[j] != name
}

/// The line of one recorded event: `1<id>` for a declared signal, nothing
/// for an undeclared one.
pub open spec fn toggle_line(signals: Seq<Seq<char>>, name: Seq<char>) -> Seq<char> {
    if exists|i: int| declared_position(signals, name, i) {
        seq!['1', wrapped_id_char(choose|i: int| declared_position(signals, name, i)), '\n']
    } else {
        Seq::empty()
    }
}

/// The text of the first `k` entries of the time-ordered event list `tl`
/// (keys into `e`): a `#<time>` line whenever the time changes, then each
/// event's toggle line.
pub open spec fn adapter_timeline(signals: Seq<Seq<char>>, e: Seq<(Seq<char>, SimulationTime)>, tl: Seq<(i64, u64)>, k: nat) -> Seq<char>
    decreases k,
{
    if k == 0 {
        Seq::empty()
    } else {
        let j = k - 1;
        let stamp = if j > 0 && tl[j - 1].0 == tl[j].0 {
            Seq::<char>::empty()
        } else {
            seq!['#'] + int_decimal(tl[j].0 as int) + seq!['\n']
        };
        adapter_timeline(signals, e, tl, (k - 1) as nat) + stamp + toggle_line(signals, e[tl[j].1 as int].0)
    }
}

/// The complete VCD text of the adapter for declared `signals` and recorded
/// events `e`: events grouped by time in increasing order, each group in
/// recording order.
pub open spec fn icarus_vcd_text(signals: Seq<Seq<char>>, e: Seq<(Seq<char>, SimulationTime)>) -> Seq<char> {
    let tl = time_keys(e).sort_by(pair_leq());
    "$timescale 1ps $end\n$scope module icarus_verilog_adapter $end\n"@ + adapter_declarations(signals)
        + "$upscope $end\n$enddefinitions $end\n"@ + adapter_timeline(signals, e, tl, tl.len())
}

/// The recorded times of events named `name`, in order.
pub open spec fn times_of(e: Seq<(Seq<char>, SimulationTime)>, name: Seq<char>) -> Seq<SimulationTime>
    decreases e.len(),
{
    if e.len() == 0 {
        Seq::empty()
    } else if e.last().0 == name {
        times_of(e.drop_last(), name).push(e.last().1)
    } else {
        times_of(e.drop_last(), name)
    }
}

/// The per-signal event index: for each declared signal in order that has
/// events, its name and event times.
pub open spec fn event_index(signals: Seq<Seq<char>>, e: Seq<(Seq<char>, SimulationTime)>) -> Seq<(Seq<char>, Seq<SimulationTime>)>
    decreases signals.len(),
{
    if signals.len() == 0 {
        Seq::empty()
    } else {
        let rest = event_index(signals.drop_last(), e);
        let ts = times_of(e, signals.last());
        if ts.len() == 0 {
            rest
        } else {
            rest.push((signals.last(), ts))
        }
    }
}

/// A per-signal event index as plain values.
pub open spec fn index_view(ix: Seq<(SignalName, Vec<SimulationTime>)>) -> Seq<(Seq<char>, Seq<SimulationTime>)> {
    ix.map_values(|x: (SignalName, Vec<SimulationTime>)| (x.0@, x.1@))
}

/// The [`DigitalSimulator`] backed by an Icarus VVP runtime.
pub struct IcarusVerilogAdapter<T: VvpTransport> {
    transport: T,
    events: Vec<(SignalName, SimulationTime)>,
}

impl<T: VvpTransport> View for IcarusVerilogAdapter<T> {
    type V = Seq<(Seq<char>, SimulationTime)>;

    closed spec fn view(&self) -> Seq<(Seq<char>, SimulationTime)> {
        event_entries(self.events@)
    }
}

fn id_char_of(i: usize) -> (c: char)
    ensures
        c == wrapped_id_char(i as int),
{
    let b: u8 = ((33 + (i % 256)) % 256) as u8;
    b as char
}

/// The adapter's VCD lists the recorded events in time order, events at one
/// time in recording order, each recorded event exactly once.
pub proof fn law_icarus_timeline_chronological(e: Seq<(Seq<char>, SimulationTime)>)
    requires
        e.len() <= u64::MAX,
    ensures
        time_keys(e).sort_by(pair_leq()).to_multiset() == time_keys(e).to_multiset(),
        forall|a: int, b: int|
            0 <= a < b < time_keys(e).sort_by(pair_leq()).len() ==> #[trigger] key_before(
                time_keys(e).sort_by(pair_leq())[a],
                time_keys(e).sort_by(pair_leq())[b],
            ),
{
    broadcast use vstd::seq_lib::group_to_multiset_ensures;

    crate::order::lemma_pair_leq_total();
    time_keys(e).lemma_sort_by_ensures(pair_leq());
    let keys = time_keys(e);
    let tl = keys.sort_by(pair_leq());
    assert forall|a: int, b: int| 0 <= a < b < tl.len() implies #[trigger] key_before(tl[a], tl[b]) by {
        assert((pair_leq())(tl[a], tl[b]));
        assert(tl.to_multiset().count(tl[a]) > 0 && tl.to_multiset().count(tl[b]) > 0);
        assert(keys.contains(tl[a]) && keys.contains(tl[b]));
        let ia = choose|i: int| 0 <= i < keys.len() && keys[i] == tl[a];
        let ib = choose|i: int| 0 <= i < keys.len() && keys[i] == tl[b];
        if tl[a] == tl[b] {
            assert(tl.to_multiset().count(tl[a]) >= 2) by {
                assert(tl.subrange(a, a + 1).to_multiset().count(tl[a]) == 1) by {
                    assert(tl.subrange(a, a + 1) =~= seq![tl[a]]);
                }
                vstd::seq_lib::lemma_multiset_commutative(tl.subrange(0, b), tl.subrange(b, tl.len() as int));
                assert(tl =~= tl.subrange(0, b) + tl.subrange(b, tl.len() as int));
                assert(tl.subrange(0, b).contains(tl[a]));
                assert(tl.subrange(b, tl.len() as int).contains(tl[b]));
            }
            assert(keys.to_multiset().count(tl[a]) <= 1) by {
                lemma_time_keys_distinct(e, tl[a]);
            }
        }
    }
}

proof fn lemma_time_keys_distinct(e: Seq<(Seq<char>, SimulationTime)>, x: (i64, u64))
    requires
        e.len() <= u64::MAX,
    ensures
        time_keys(e).to_multiset().count(x) <= 1,
    decreases e.len(),
{
    broadcast use vstd::seq_lib::group_to_multiset_ensures;

    let keys = time_keys(e);
    if e.len() > 0 {
        let shorter = e.drop_last();
        lemma_time_keys_distinct(shorter, x);
        assert(time_keys(shorter) =~= keys.drop_last());
        assert(keys =~= keys.drop_last().push(keys.last()));
        if keys.last() == x {
            assert(!keys.drop_last().contains(x)) by {
                if keys.drop_last().contains(x) {
                    let i = choose|i: int| 0 <= i < keys.drop_last().len() && keys.drop_last()[i] == x;
                    assert(keys[i].1 == i as u64);
                    assert(keys.last().1 == (keys.len() - 1) as u64);
                }
            }
        }
    }
}

proof fn lemma_sorted_keys_in_range(e: Seq<(Seq<char>, SimulationTime)>)
    ensures
        forall|j: int| 0 <= j < time_keys(e).sort_by(pair_leq()).len() ==> time_keys(e).sort_by(pair_leq())[j].1 < e.len(),
{
    broadcast use vstd::seq_lib::group_to_multiset_ensures;

    crate::order::lemma_pair_leq_total();
    time_keys(e).lemma_sort_by_ensures(pair_leq());
    let tl = time_keys(e).sort_by(pair_leq());
    assert forall|j: int| 0 <= j < tl.len() implies tl[j].1 < e.len() by {
        assert(tl.to_multiset().count(tl[j]) > 0);
        assert(time_keys(e).contains(tl[j]));
    }
}

fn push_toggle_line(out: &mut String, signals: &[SignalName], name: &SignalName)
    ensures
        final(out)@ == old(out)@ + toggle_line(names_view(signals@), name@),
{
    let ghost names = names_view(signals@);
    assert(forall|i: int| 0 <= i < names.len() ==> names[i] == signals@[i]@);
    match find_position(signals, name) {
        Some(pos) => {
            push_char(out, '1');
            push_char(out, id_char_of(pos));
            push_char(out, '\n');
            proof {
                assert(declared_position(names, name@, pos as int));
                let c = choose|i: int| declared_position(names, name@, i);
                assert(c == pos as int) by {
                    if c < pos as int {
                        assert(names[c] == signals@[c]@);
                    }
                    if c > pos as int {
                        assert(names[pos as int] == signals@[pos as int]@);
                    }
                }
            }
            assert(out@ =~= old(out)@ + toggle_line(names, name@));
        },
        None => {
            proof {
                assert forall|i: int| !declared_position(names, name@, i) by {
                    if 0 <= i < names.len() {
                        assert(names[i] == signals@[i]@);
                    }
                }
            }
            assert(out@ =~= old(out)@ + toggle_line(names, name@));
        },
    }
}

fn times_named(events: &Vec<(SignalName, SimulationTime)>, name: &SignalName) -> (r: Vec<SimulationTime>)
    ensures
        r@ == times_of(event_entries(events@), name@),
{
    let mut r: Vec<SimulationTime> = Vec::new();
    let mut i: usize = 0;
    while i < events.len()
        invariant
            i <= events@.len(),
            r@ == times_of(event_entries(events@.subrange(0, i as int)), name@),
        decreases events@.len() - i,
    {
        if events[i].0.same_as(name) {
            r.push(events[i].1);
        }
        assert(event_entries(events@.subrange(0, i + 1)).drop_last() =~= event_entries(events@.subrange(0, i as int)));
        i += 1;
    }
    assert(events@.subrange(0, events@.len() as int) =~= events@);
    r
}

fn build_event_index(signals: &[SignalName], events: &Vec<(SignalName, SimulationTime)>) -> (r: Vec<(SignalName, Vec<SimulationTime>)>)
    ensures
        index_view(r@) == event_index(names_view(signals@), event_entries(events@)),
{
    let ghost names = names_view(signals@);
    let mut r: Vec<(SignalName, Vec<SimulationTime>)> = Vec::new();
    let mut i: usize = 0;
    while i < signals.len()
        invariant
            i <= signals@.len(),
            names == names_view(signals@),
            index_view(r@) == event_index(names.subrange(0, i as int), event_entries(events@)),
        decreases signals@.len() - i,
    {
        let ts = times_named(events, &signals[i]);
        assert(names.subrange(0, i + 1).drop_last() =~= names.subrange(0, i as int));
        if ts.len() > 0 {
            let ghost prev = r@;
            r.push((signals[i].duplicate(), ts));
            assert(index_view(r@) =~= index_view(prev).push((signals@[i as int]@, ts@)));
        }
        i += 1;
    }
    assert(names.subrange(0, signals@.len() as int) =~= names);
    r
}

impl<T: VvpTransport> IcarusVerilogAdapter<T> {
    /// The transport this adapter drives.
    pub closed spec fn held_transport(&self) -> T {
        self.transport
    }

    /// An adapter over `transport` with nothing recorded.
    pub fn new(transport: T) -> (a: IcarusVerilogAdapter<T>)
        ensures
            a@.len() == 0,
            a.held_transport() == transport,
    {
        IcarusVerilogAdapter { transport, events: Vec::new() }
    }

    /// The underlying transport.
    pub fn transport(&self) -> (t: &T)
        ensures
            *t == self.held_transport(),
    {
        &self.transport
    }

    /// Rolls the runtime back to `target` and forgets the recorded events
    /// after `target`. A transport failure is reported as
    /// `DigitalAdapterFailed` and leaves the record unchanged.
    pub fn rollback_to_checkpoint(&mut self, target: SimulationTime) -> (r: Result<(), SchedulerError>)
        ensures
            final(self).held_transport().state() == T::after_rollback(old(self).held_transport().state(), target),
            match T::rollback_result(old(self).held_transport().state(), target) {
                Ok(()) => r is Ok && final(self)@ == events_until(old(self)@, target),
                Err(m) => (r matches Err(SchedulerError::DigitalAdapterFailed(s)) && s@ == m) && final(self)@ == old(self)@,
            },
    {
        match self.transport.rollback_to(target) {
            Ok(()) => {},
            Err(msg) => {
                return Err(SchedulerError::DigitalAdapterFailed(msg));
            },
        }
        let mut kept: Vec<(SignalName, SimulationTime)> = Vec::new();
        let mut i: usize = 0;
        while i < self.events.len()
            invariant
                i <= self.events@.len(),
                event_entries(kept@) == events_until(event_entries(self.events@.subrange(0, i as int)), target),
            decreases self.events@.len() - i,
        {
            assert(event_entries(self.events@.subrange(0, i + 1)).drop_last() =~= event_entries(self.events@.subrange(0, i as int)));
            if self.events[i].1.ps <= target.ps {
                let ghost prev = kept@;
                let e = (self.events[i].0.duplicate(), self.events[i].1);
                kept.push(e);
                assert(event_entries(kept@) =~= event_entries(prev).push((self.events@[i as int].0@, self.events@[i as int].1)));
            }
            i += 1;
        }
        assert(self.events@.subrange(0, self.events@.len() as int) =~= self.events@);
        self.events = kept;
        Ok(())
    }

    fn record(&mut self, toggled: Vec<SignalName>, time: SimulationTime)
        ensures
            final(self)@ == old(self)@ + names_view(toggled@).map_values(|n: Seq<char>| (n, time)),
            final(self).held_transport() == old(self).held_transport(),
    {
        let ghost start = self@;
        let mut i: usize = 0;
        while i < toggled.len()
            invariant
                i <= toggled@.len(),
                self@ == start + names_view(toggled@.subrange(0, i as int)).map_values(|n: Seq<char>| (n, time)),
                self.held_transport() == old(self).held_transport(),
            decreases toggled@.len() - i,
        {
            let ghost prev = self.events@;
            self.events.push((toggled[i].duplicate(), time));
            assert(event_entries(self.events@) =~= event_entries(prev).push((toggled@[i as int]@, time)));
            assert(names_view(toggled@.subrange(0, i + 1)).map_values(|n: Seq<char>| (n, time))
                =~= names_view(toggled@.subrange(0, i as int)).map_values(|n: Seq<char>| (n, time)).push((toggled@[i as int]@, time)));
            i += 1;
        }
        assert(toggled@.subrange(0, toggled@.len() as int) =~= toggled@);
    }

    fn render_vcd(&self, signals: &[SignalName]) -> (out: String)
        ensures
            out@ == icarus_vcd_text(names_view(signals@), self@),
    {
        let ghost names = names_view(signals@);
        let ghost e = self@;
        let mut out = String::new();
        push_str(&mut out, "$timescale 1ps $end\n$scope module icarus_verilog_adapter $end\n");
        let ghost prefix = out@;
        let mut i: usize = 0;
        while i < signals.len()
            invariant
                i <= signals@.len(),
                names == names_view(signals@),
                out@ == prefix + adapter_declarations(names.subrange(0, i as int)),
            decreases signals@.len() - i,
        {
            push_str(&mut out, "$var wire 1 ");
            push_char(&mut out, id_char_of(i));
            push_str(&mut out, " ");
            push_str(&mut out, signals[i].as_str());
            push_str(&mut out, " $end\n");
            assert(names.subrange(0, i + 1).drop_last() =~= names.subrange(0, i as int));
            assert(out@ =~= prefix + adapter_declarations(names.subrange(0, i + 1)));
            i += 1;
        }
        assert(names.subrange(0, signals@.len() as int) =~= names);
        push_str(&mut out, "$upscope $end\n$enddefinitions $end\n");
        let mut keys: Vec<(i64, u64)> = Vec::new();
        let mut k: usize = 0;
        while k < self.events.len()
            invariant
                k <= self.events@.len(),
                e == event_entries(self.events@),
                keys@ == time_keys(e).subrange(0, k as int),
            decreases self.events@.len() - k,
        {
            keys.push((self.events[k].1.ps, k as u64));
            assert(keys@ =~= time_keys(e).subrange(0, k + 1));
            k += 1;
        }
        assert(keys@ =~= time_keys(e));
        let tl = sort_pairs(&keys);
        proof {
            lemma_sorted_keys_in_range(e);
        }
        let ghost prefix2 = out@;
        let mut t: usize = 0;
        while t < tl.len()
            invariant
                t <= tl@.len(),
                e == event_entries(self.events@),
                names == names_view(signals@),
                tl@ == time_keys(e).sort_by(pair_leq()),
                forall|j: int| 0 <= j < tl@.len() ==> tl@[j].1 < e.len(),
                out@ == prefix2 + adapter_timeline(names, e, tl@, t as nat),
            decreases tl@.len() - t,
        {
            let (ps, idx) = tl[t];
            if t == 0 || tl[t - 1].0 != ps {
                push_char(&mut out, '#');
                push_int_decimal(&mut out, ps);
                push_char(&mut out, '\n');
            }
            assert(tl@[t as int] == (ps, idx));
            let n_events: usize = self.events.len();
            assert(idx < n_events);
            let ix: usize = idx as usize;
            assert(ix as int == idx as int);
            push_toggle_line(&mut out, signals, &self.events[ix].0);
            assert(e[ix as int].0 == self.events@[ix as int].0@);
            assert(out@ =~= prefix2 + adapter_timeline(names, e, tl@, (t + 1) as nat));
            t += 1;
        }
        out
    }
}

impl<T: VvpTransport> DigitalSimulator for IcarusVerilogAdapter<T> {
    /// The runtime's state and the events recorded so far.
    type State = (T::State, Seq<(Seq<char>, SimulationTime)>);

    open spec fn state(&self) -> Self::State {
        (self.held_transport().state(), self@)
    }

    open spec fn prediction_outcome(s: Self::State) -> Result<NextEventReport, ErrorValue> {
        match T::prediction(s.0) {
            Ok(t) => Ok(NextEventReport { predicted_time: t }),
            Err(m) => Err(digital_failure(m)),
        }
    }

    open spec fn after_query(s: Self::State) -> Self::State {
        (T::after_query(s.0), s.1)
    }

    open spec fn confirm_outcome(s: Self::State, boundary: SimulationTime) -> Result<DigitalStepReport, ErrorValue> {
        match T::advance_view(s.0, boundary) {
            Ok(v) => Ok(v.0),
            Err(m) => Err(digital_failure(m)),
        }
    }

    open spec fn after_confirm(s: Self::State, boundary: SimulationTime) -> Self::State {
        (
            T::after_advance(s.0, boundary),
            match T::advance_view(s.0, boundary) {
                Ok(v) => s.1 + recorded_for(v),
                Err(_) => s.1,
            },
        )
    }

    open spec fn trace_view(s: Self::State) -> TraceView {
        (icarus_vcd_text(T::signal_names(s.0), s.1), event_index(T::signal_names(s.0), s.1))
    }

    open spec fn after_take(s: Self::State) -> Self::State {
        s
    }

    fn adapter_kind(&self) -> (k: DigitalAdapterKind)
        ensures
            k == DigitalAdapterKind::IcarusVerilog,
    {
        DigitalAdapterKind::IcarusVerilog
    }

    fn next_event_time(&mut self) -> (r: Result<NextEventReport, SchedulerError>) {
        match self.transport.query_next_event() {
            Ok(predicted) => Ok(NextEventReport { predicted_time: predicted }),
            Err(msg) => Err(SchedulerError::DigitalAdapterFailed(msg)),
        }
    }

    fn confirm_event(&mut self, boundary: SimulationTime) -> (r: Result<DigitalStepReport, SchedulerError>) {
        let report = match self.transport.advance_and_report(boundary) {
            Ok(rep) => rep,
            Err(msg) => {
                return Err(SchedulerError::DigitalAdapterFailed(msg));
            },
        };
        let ghost before = self@;
        let ghost v = report_view(report);
        let step = match report {
            VvpAdvanceReport::Confirmed { time, toggled } => {
                self.record(toggled, time);
                DigitalStepReport::Confirmed { time }
            },
            VvpAdvanceReport::Postponed { new_prediction } => DigitalStepReport::Postponed { new_prediction },
            VvpAdvanceReport::Mispredicted { actual_time, toggled } => {
                self.record(toggled, actual_time);
                DigitalStepReport::Mispredicted { actual_time }
            },
        };
        assert(self@ =~= before + recorded_for(v));
        Ok(step)
    }

    fn take_trace(&mut self) -> (t: DigitalEventTrace) {
        let signals = self.transport.signals();
        let vcd = self.render_vcd(signals);
        let events_by_signal = build_event_index(signals, &self.events);
        assert(vcd@ == icarus_vcd_text(names_view(signals@), self@));
        DigitalEventTrace { vcd, events_by_signal }
    }
}

proof fn lemma_events_until_keeps_earlier(e: Seq<(Seq<char>, SimulationTime)>, target: SimulationTime)
    requires
        forall|j: int| 0 <= j < e.len() ==> e[j].1.ps <= target.ps,
    ensures
        events_until(e, target) == e,
    decreases e.len(),
{
    if e.len() > 0 {
        lemma_events_until_keeps_earlier(e.drop_last(), target);
        assert(e.drop_last().push(e.last()) =~= e);
    }
}

proof fn lemma_events_until_drops_later(
    a: Seq<(Seq<char>, SimulationTime)>,
    b: Seq<(Seq<char>, SimulationTime)>,
    target: SimulationTime,
)
    requires
        forall|j: int| 0 <= j < b.len() ==> b[j].1.ps > target.ps,
    ensures
        events_until(a + b, target) == events_until(a, target),
    decreases b.len(),
{
    if b.len() == 0 {
        assert(a + b =~= a);
    } else {
        assert((a + b).drop_last() =~= a + b.drop_last());
        assert((a + b).last() == b.last());
        lemma_events_until_drops_later(a, b.drop_last(), target);
    }
}

/// Rolling the adapter back undoes a confirmation made after the target:
/// from a state whose recorded events all lie at or before `target`, when
/// every event a confirmation at `boundary` records lies after `target`,
/// the events kept by a rollback to `target` are the ones recorded before
/// the confirmation.
pub proof fn law_rollback_forgets_later_confirmation<T: VvpTransport>(
    s: (T::State, Seq<(Seq<char>, SimulationTime)>),
    boundary: SimulationTime,
    target: SimulationTime,
)
    requires
        forall|j: int| 0 <= j < s.1.len() ==> s.1[j].1.ps <= target.ps,
        T::advance_view(s.0, boundary) matches Ok(v) ==> forall|j: int|
            0 <= j < recorded_for(v).len() ==> recorded_for(v)[j].1.ps > target.ps,
    ensures
        events_until(IcarusVerilogAdapter::<T>::after_confirm(s, boundary).1, target) == s.1,
{
    lemma_events_until_keeps_earlier(s.1, target);
    match T::advance_view(s.0, boundary) {
        Ok(v) => {
            lemma_events_until_drops_later(s.1, recorded_for(v), target);
        },
        Err(_) => {},
    }
}

/// One entry of an [`InMemoryVvp`] script: an event time and the signals
/// that toggle then.
#[derive(Debug, Clone, PartialEq)]
pub struct ScriptedEvent {
    /// Event time.
    pub time: SimulationTime,
    /// Signals toggling at that time.
    pub signals: Vec<SignalName>,
}

/// One call made into an [`InMemoryVvp`].
#[derive(Debug, Clone, Copy, PartialEq, Eq, Structural)]
pub enum VvpCall {
    /// A prediction query, with the prediction it returned.
    QueryNextEvent(Option<SimulationTime>),
    /// An advance to this boundary.
    AdvanceAndReport(SimulationTime),
    /// A rollback to this target.
    RollbackTo(SimulationTime),
}

/// A scripted VVP transport that replays a fixed sequence of events and
/// logs every call.
#[derive(Debug, Clone)]
pub struct InMemoryVvp {
    script: VecDeque<ScriptedEvent>,
    confirmed: Vec<ScriptedEvent>,
    declared_signals: Vec<SignalName>,
    log: Vec<VvpCall>,
}

/// The state of an [`InMemoryVvp`] as plain values: the events not yet
/// confirmed (next first), the events confirmed so far, the declared
/// signals and the calls made.
pub type VvpScriptState = (Seq<ScriptedEvent>, Seq<ScriptedEvent>, Seq<SignalName>, Seq<VvpCall>);

/// How many confirmed events a rollback to `target` keeps: all up to the
/// last one at or before `target`; the trailing ones after it return to the
/// script.
pub open spec fn kept_count(confirmed: Seq<ScriptedEvent>, target: SimulationTime) -> nat
    decreases confirmed.len(),
{
    if confirmed.len() == 0 {
        0
    } else if confirmed.last().time.ps > target.ps {
        kept_count(confirmed.drop_last(), target)
    } else {
        confirmed.len()
    }
}

proof fn lemma_kept_count(confirmed: Seq<ScriptedEvent>, target: SimulationTime, n: int)
    requires
        0 <= n <= confirmed.len(),
        forall|j: int| n <= j < confirmed.len() ==> confirmed[j].time.ps > target.ps,
        n == 0 || confirmed[n - 1].time.ps <= target.ps,
    ensures
        kept_count(confirmed, target) == n,
    decreases confirmed.len(),
{
    if confirmed.len() > n {
        lemma_kept_count(confirmed.drop_last(), target, n);
    }
}

/// The prediction the script offers: the time of its next event.
pub open spec fn script_head_time(script: Seq<ScriptedEvent>) -> Option<SimulationTime> {
    if script.len() > 0 {
        Some(script[0].time)
    } else {
        None
    }
}

/// A rollback to a time before a confirmation undoes it: from a state whose
/// confirmed events all lie at or before `target` and whose next scripted
/// event lies after it, advancing to a boundary at or past that event and
/// then rolling back to `target` leaves the script, the confirmed events and
/// the declared signals as they were.
pub proof fn law_rewind_undoes_confirmation(s: VvpScriptState, boundary: SimulationTime, target: SimulationTime)
    requires
        s.0.len() > 0,
        forall|j: int| 0 <= j < s.1.len() ==> s.1[j].time.ps <= target.ps,
        target.ps < s.0[0].time.ps,
        s.0[0].time.ps <= boundary.ps,
    ensures
        InMemoryVvp::after_rollback(InMemoryVvp::after_advance(s, boundary), target).0 == s.0,
        InMemoryVvp::after_rollback(InMemoryVvp::after_advance(s, boundary), target).1 == s.1,
        InMemoryVvp::after_rollback(InMemoryVvp::after_advance(s, boundary), target).2 == s.2,
{
    let head = s.0[0];
    let full = s.1.push(head);
    let n = s.1.len() as int;
    assert(InMemoryVvp::after_advance(s, boundary).1 == full);
    assert(InMemoryVvp::after_advance(s, boundary).0 == s.0.drop_first());
    lemma_kept_count(full, target, n);
    assert(full.subrange(0, n) =~= s.1);
    assert(full.subrange(n, full.len() as int) + s.0.drop_first() =~= s.0);
}

/// The scripted runtime never loses nor invents an event: advancing,
/// querying and rolling back keep the confirmed events followed by the
/// pending ones exactly as they were, and a query moves nothing.
pub proof fn law_script_conserved(s: VvpScriptState, boundary: SimulationTime, target: SimulationTime)
    ensures
        InMemoryVvp::after_advance(s, boundary).1 + InMemoryVvp::after_advance(s, boundary).0 == s.1 + s.0,
        InMemoryVvp::after_rollback(s, target).1 + InMemoryVvp::after_rollback(s, target).0 == s.1 + s.0,
        InMemoryVvp::after_query(s).1 + InMemoryVvp::after_query(s).0 == s.1 + s.0,
        InMemoryVvp::after_query(s).0 == s.0,
        InMemoryVvp::after_query(s).1 == s.1,
{
    if s.0.len() > 0 && s.0[0].time.ps <= boundary.ps {
        assert(s.1.push(s.0[0]) + s.0.drop_first() =~= s.1 + s.0);
    }
    let k = kept_count(s.1, target) as int;
    lemma_kept_count_in_range(s.1, target);
    assert(s.1.subrange(0, k) + (s.1.subrange(k, s.1.len() as int) + s.0) =~= s.1 + s.0);
}

proof fn lemma_kept_count_in_range(confirmed: Seq<ScriptedEvent>, target: SimulationTime)
    ensures
        kept_count(confirmed, target) <= confirmed.len(),
    decreases confirmed.len(),
{
    if confirmed.len() > 0 {
        lemma_kept_count_in_range(confirmed.drop_last(), target);
    }
}

/// A postponed event stays next: an advance to a boundary before the next
/// scripted event reports a postponement to that event's time, leaves the
/// script and the confirmed events unchanged, and the next query predicts
/// that time again. Behind the adapter, the confirmation answers the
/// postponement and the following query answers the revised time.
pub proof fn law_postponed_event_stays_next(
    s: VvpScriptState,
    events: Seq<(Seq<char>, SimulationTime)>,
    boundary: SimulationTime,
)
    requires
        s.0.len() > 0,
        boundary.ps < s.0[0].time.ps,
    ensures
        InMemoryVvp::advance_view(s, boundary) == Ok::<(DigitalStepReport, Seq<Seq<char>>), Seq<char>>(
            (DigitalStepReport::Postponed { new_prediction: s.0[0].time }, Seq::empty()),
        ),
        InMemoryVvp::after_advance(s, boundary).0 == s.0,
        InMemoryVvp::after_advance(s, boundary).1 == s.1,
        InMemoryVvp::prediction(InMemoryVvp::after_advance(s, boundary)) == Ok::<SimulationTime, Seq<char>>(s.0[0].time),
        IcarusVerilogAdapter::<InMemoryVvp>::confirm_outcome((s, events), boundary) == Ok::<DigitalStepReport, ErrorValue>(
            DigitalStepReport::Postponed { new_prediction: s.0[0].time },
        ),
        IcarusVerilogAdapter::<InMemoryVvp>::prediction_outcome(
            IcarusVerilogAdapter::<InMemoryVvp>::after_confirm((s, events), boundary),
        ) == Ok::<NextEventReport, ErrorValue>(NextEventReport { predicted_time: s.0[0].time }),
        IcarusVerilogAdapter::<InMemoryVvp>::after_confirm((s, events), boundary).1 == events,
{
    assert(events + Seq::<(Seq<char>, SimulationTime)>::empty() =~= events);
}

/// A rollback keeps the events recorded at or before the target, in their
/// recording order, and forgets exactly the later ones.
pub proof fn law_rollback_keeps_events_until_target(e: Seq<(Seq<char>, SimulationTime)>, target: SimulationTime)
    ensures
        events_until(e, target) == e.filter(|x: (Seq<char>, SimulationTime)| x.1.ps <= target.ps),
        forall|i: int| 0 <= i < events_until(e, target).len() ==> #[trigger] events_until(e, target)[i].1.ps <= target.ps,
    decreases e.len(),
{
    let pred = |x: (Seq<char>, SimulationTime)| x.1.ps <= target.ps;
    reveal(Seq::filter);
    if e.len() > 0 {
        law_rollback_keeps_events_until_target(e.drop_last(), target);
    }
    let kept = events_until(e, target);
    assert(kept =~= e.filter(pred));
    assert forall|i: int| 0 <= i < kept.len() implies #[trigger] kept[i].1.ps <= target.ps by {
        e.lemma_filter_pred(pred, i);
    }
}

/// A confirmation records one event per signal the runtime reports
/// toggled, each at the time the event happened (the boundary when
/// confirmed, the earlier actual time when mispredicted), after the events
/// recorded before; a postponement or a failure records nothing.
pub proof fn law_confirmation_records_toggles<T: VvpTransport>(
    s: (T::State, Seq<(Seq<char>, SimulationTime)>),
    boundary: SimulationTime,
)
    ensures
        IcarusVerilogAdapter::<T>::after_confirm(s, boundary).1.subrange(0, s.1.len() as int) == s.1,
        match T::advance_view(s.0, boundary) {
            Ok(v) => match v.0 {
                DigitalStepReport::Confirmed { time } => {
                    &&& IcarusVerilogAdapter::<T>::after_confirm(s, boundary).1.len() == s.1.len() + v.1.len()
                    &&& forall|i: int| 0 <= i < v.1.len() ==> #[trigger] IcarusVerilogAdapter::<T>::after_confirm(
                        s,
                        boundary,
                    ).1[s.1.len() + i] == (v.1[i], time)
                },
                DigitalStepReport::Mispredicted { actual_time } => {
                    &&& IcarusVerilogAdapter::<T>::after_confirm(s, boundary).1.len() == s.1.len() + v.1.len()
                    &&& forall|i: int| 0 <= i < v.1.len() ==> #[trigger] IcarusVerilogAdapter::<T>::after_confirm(
                        s,
                        boundary,
                    ).1[s.1.len() + i] == (v.1[i], actual_time)
                },
                DigitalStepReport::Postponed { .. } => IcarusVerilogAdapter::<T>::after_confirm(s, boundary).1 == s.1,
            },
            Err(_) => IcarusVerilogAdapter::<T>::after_confirm(s, boundary).1 == s.1,
        },
{
    let r = IcarusVerilogAdapter::<T>::after_confirm(s, boundary).1;
    assert(r.subrange(0, s.1.len() as int) =~= s.1);
    match T::advance_view(s.0, boundary) {
        Ok(v) => {
            match v.0 {
                DigitalStepReport::Postponed { .. } => {
                    assert(r =~= s.1);
                },
                _ => {},
            }
        },
        Err(_) => {},
    }
}

/// An advance to a boundary at or after the next scripted event takes that
/// event: it moves from the front of the script to the end of the confirmed
/// events, and the report names its signals.
pub proof fn law_advance_takes_next_event(s: VvpScriptState, boundary: SimulationTime)
    requires
        s.0.len() > 0,
        s.0[0].time.ps <= boundary.ps,
    ensures
        InMemoryVvp::after_advance(s, boundary).1 == s.1.push(s.0[0]),
        InMemoryVvp::after_advance(s, boundary).0 == s.0.subrange(1, s.0.len() as int),
        InMemoryVvp::advance_view(s, boundary) matches Ok(v) && v.1 == names_view(s.0[0].signals@),
        s.0[0].time == boundary ==> (InMemoryVvp::advance_view(s, boundary) matches Ok(v)
            && v.0 == (DigitalStepReport::Confirmed { time: boundary })),
        s.0[0].time.ps < boundary.ps ==> (InMemoryVvp::advance_view(s, boundary) matches Ok(v)
            && v.0 == (DigitalStepReport::Mispredicted { actual_time: s.0[0].time })),
{
}

/// A rollback returns to the script exactly the trailing confirmed events
/// that lie after the target, in their order and ahead of the events still
/// pending; the confirmed events kept are a prefix whose last one lies at
/// or before the target.
pub proof fn law_rollback_returns_later_events(s: VvpScriptState, target: SimulationTime)
    ensures
        ({
            let r = InMemoryVvp::after_rollback(s, target);
            &&& r.1.len() <= s.1.len()
            &&& r.1 == s.1.subrange(0, r.1.len() as int)
            &&& r.1.len() > 0 ==> r.1.last().time.ps <= target.ps
            &&& forall|j: int| r.1.len() <= j < s.1.len() ==> #[trigger] s.1[j].time.ps > target.ps
            &&& r.0 == s.1.subrange(r.1.len() as int, s.1.len() as int) + s.0
            &&& r.2 == s.2
        }),
{
    lemma_kept_count_facts(s.1, target);
}

proof fn lemma_kept_count_facts(confirmed: Seq<ScriptedEvent>, target: SimulationTime)
    ensures
        kept_count(confirmed, target) <= confirmed.len(),
        kept_count(confirmed, target) > 0 ==> confirmed[kept_count(confirmed, target) - 1].time.ps <= target.ps,
        forall|j: int| kept_count(confirmed, target) <= j < confirmed.len() ==> #[trigger] confirmed[j].time.ps > target.ps,
    decreases confirmed.len(),
{
    if confirmed.len() > 0 {
        lemma_kept_count_facts(confirmed.drop_last(), target);
        let k = kept_count(confirmed.drop_last(), target);
        if confirmed.last().time.ps > target.ps {
            assert forall|j: int| k <= j < confirmed.len() implies #[trigger] confirmed[j].time.ps > target.ps by {
                if j < confirmed.len() - 1 {
                    assert(confirmed[j] == confirmed.drop_last()[j]);
                }
            }
            if k > 0 {
                assert(confirmed[k - 1] == confirmed.drop_last()[k - 1]);
            }
        }
    }
}

impl InMemoryVvp {
    /// Events not yet confirmed, next first.
    pub closed spec fn pending_events(&self) -> Seq<ScriptedEvent> {
        self.script@
    }

    /// Events confirmed so far, in order.
    pub closed spec fn confirmed_events(&self) -> Seq<ScriptedEvent> {
        self.confirmed@
    }

    /// The declared signal names.
    pub closed spec fn declared(&self) -> Seq<SignalName> {
        self.declared_signals@
    }

    /// The calls made so far.
    pub closed spec fn calls(&self) -> Seq<VvpCall> {
        self.log@
    }

    /// A transport replaying `script` (in order) over the declared signals.
    pub fn new(script: Vec<ScriptedEvent>, declared_signals: Vec<SignalName>) -> (t: InMemoryVvp)
        ensures
            t.pending_events() == script@,
            t.confirmed_events().len() == 0,
            t.declared() == declared_signals@,
            t.calls().len() == 0,
    {
        let ghost all = script@;
        let mut rest = script;
        let mut queue: VecDeque<ScriptedEvent> = VecDeque::new();
        while rest.len() > 0
            invariant
                rest@ + queue@ == all,
            decreases rest@.len(),
        {
            let ghost r0 = rest@;
            let ghost q0 = queue@;
            match rest.pop() {
                Some(x) => {
                    queue.push_front(x);
                    assert(rest@ + queue@ =~= r0 + q0);
                },
                None => {},
            }
        }
        assert(queue@ =~= all);
        InMemoryVvp { script: queue, confirmed: Vec::new(), declared_signals, log: Vec::new() }
    }

    /// The calls made so far, in order.
    pub fn log(&self) -> (l: &[VvpCall])
        ensures
            l@ == self.calls(),
    {
        self.log.as_slice()
    }

    /// How many events have been confirmed.
    pub fn confirmed_count(&self) -> (n: usize)
        ensures
            n == self.confirmed_events().len(),
    {
        self.confirmed.len()
    }
}

impl Default for InMemoryVvp {
    fn default() -> (t: Self)
        ensures
            t.pending_events().len() == 0,
            t.confirmed_events().len() == 0,
            t.declared().len() == 0,
            t.calls().len() == 0,
    {
        InMemoryVvp { script: VecDeque::new(), confirmed: Vec::new(), declared_signals: Vec::new(), log: Vec::new() }
    }
}

impl VvpTransport for InMemoryVvp {
    type State = VvpScriptState;

    open spec fn state(&self) -> VvpScriptState {
        (self.pending_events(), self.confirmed_events(), self.declared(), self.calls())
    }

    open spec fn prediction(s: VvpScriptState) -> Result<SimulationTime, Seq<char>> {
        match script_head_time(s.0) {
            Some(t) => Ok(t),
            None => Err("in-memory VVP transport exhausted"@),
        }
    }

    open spec fn after_query(s: VvpScriptState) -> VvpScriptState {
        (s.0, s.1, s.2, s.3.push(VvpCall::QueryNextEvent(script_head_time(s.0))))
    }

    open spec fn advance_view(s: VvpScriptState, boundary: SimulationTime) -> Result<(DigitalStepReport, Seq<Seq<char>>), Seq<char>> {
        if s.0.len() == 0 {
            Err("in-memory VVP transport script exhausted before advance_and_report"@)
        } else {
            let head = s.0[0];
            if head.time.ps == boundary.ps {
                Ok((DigitalStepReport::Confirmed { time: boundary }, names_view(head.signals@)))
            } else if head.time.ps < boundary.ps {
                Ok((DigitalStepReport::Mispredicted { actual_time: head.time }, names_view(head.signals@)))
            } else {
                Ok((DigitalStepReport::Postponed { new_prediction: head.time }, Seq::empty()))
            }
        }
    }

    open spec fn after_advance(s: VvpScriptState, boundary: SimulationTime) -> VvpScriptState {
        let calls = s.3.push(VvpCall::AdvanceAndReport(boundary));
        if s.0.len() > 0 && s.0[0].time.ps <= boundary.ps {
            (s.0.drop_first(), s.1.push(s.0[0]), s.2, calls)
        } else {
            (s.0, s.1, s.2, calls)
        }
    }

    open spec fn rollback_result(s: VvpScriptState, target: SimulationTime) -> Result<(), Seq<char>> {
        Ok(())
    }

    open spec fn after_rollback(s: VvpScriptState, target: SimulationTime) -> VvpScriptState {
        let k = kept_count(s.1, target) as int;
        (s.1.subrange(k, s.1.len() as int) + s.0, s.1.subrange(0, k), s.2, s.3.push(VvpCall::RollbackTo(target)))
    }

    open spec fn signal_names(s: VvpScriptState) -> Seq<Seq<char>> {
        names_view(s.2)
    }

    fn query_next_event(&mut self) -> (r: Result<SimulationTime, String>) {
        let head = if self.script.len() > 0 {
            Some(self.script[0].time)
        } else {
            None
        };
        self.log.push(VvpCall::QueryNextEvent(head));
        match head {
            Some(t) => Ok(t),
            None => Err(String::from_str("in-memory VVP transport exhausted")),
        }
    }

    fn advance_and_report(&mut self, boundary: SimulationTime) -> (r: Result<VvpAdvanceReport, String>) {
        self.log.push(VvpCall::AdvanceAndReport(boundary));
        let ghost q0 = self.script@;
        let head = match self.script.pop_front() {
            Some(h) => h,
            None => {
                return Err(String::from_str("in-memory VVP transport script exhausted before advance_and_report"));
            },
        };
        assert(self.script@ =~= q0.drop_first());
        if head.time.ps == boundary.ps {
            let toggled = duplicate_names(&head.signals);
            self.confirmed.push(head);
            Ok(VvpAdvanceReport::Confirmed { time: boundary, toggled })
        } else if head.time.ps < boundary.ps {
            let actual_time = head.time;
            let toggled = duplicate_names(&head.signals);
            self.confirmed.push(head);
            Ok(VvpAdvanceReport::Mispredicted { actual_time, toggled })
        } else {
            let new_prediction = head.time;
            self.script.push_front(head);
            assert(self.script@ =~= q0);
            Ok(VvpAdvanceReport::Postponed { new_prediction })
        }
    }

    fn rollback_to(&mut self, target: SimulationTime) -> (r: Result<(), String>) {
        self.log.push(VvpCall::RollbackTo(target));
        let ghost c0 = self.confirmed@;
        let ghost q0 = self.script@;
        let ghost l1 = self.log@;
        let ghost d1 = self.declared_signals@;
        while self.confirmed.len() > 0 && self.confirmed[self.confirmed.len() - 1].time.ps > target.ps
            invariant
                self.log@ == l1,
                self.declared_signals@ == d1,
                self.confirmed@.len() <= c0.len(),
                self.confirmed@ == c0.subrange(0, self.confirmed@.len() as int),
                self.script@ == c0.subrange(self.confirmed@.len() as int, c0.len() as int) + q0,
                forall|j: int| self.confirmed@.len() <= j < c0.len() ==> c0[j].time.ps > target.ps,
            decreases self.confirmed@.len(),
        {
            match self.confirmed.pop() {
                Some(ev) => {
                    self.script.push_front(ev);
                    assert(self.confirmed@ =~= c0.subrange(0, self.confirmed@.len() as int));
                    assert(self.script@ =~= c0.subrange(self.confirmed@.len() as int, c0.len() as int) + q0);
                },
                None => {},
            }
        }
        proof {
            let k = self.confirmed@.len() as int;
            if k > 0 {
                assert(c0[k - 1] == self.confirmed@[k - 1]);
            }
            lemma_kept_count(c0, target, k);
        }
        Ok(())
    }

    fn signals(&self) -> (s: &[SignalName]) {
        self.declared_signals.as_slice()
    }
}

} // verus!
