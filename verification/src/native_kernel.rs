//! The decisions of the adapter over the in-process native digital kernel.
//!
//! The kernel itself is driven by the caller; what the adapter decides from
//! the kernel's answers stands here: how a run to a boundary is read as a
//! confirmation, postponement or misprediction, which saved kernel
//! checkpoint a rollback restores and which it discards, and how the
//! processed events become a digital trace.
use vstd::prelude::*;
use crate::checkpoint::copy_vec;
use crate::icarus::index_view;
use crate::mixed_signal::{DigitalEventTrace, DigitalStepReport, NextEventReport, SchedulerError};
use crate::text::push_str;
use crate::time::{SignalName, SimulationTime, names_view, time_text};
use crate::vcd_writer::{MAX_SINGLE_CHAR_SIGNALS, VcdTraceInput, build_vcd, vcd_text};
use vstd::string::StringExecFns;

verus! {

/// What the kernel reported after running towards a boundary, as plain
/// values.
#[derive(Debug, Clone, Copy, PartialEq, Eq, Structural)]
pub struct KernelRunSummary {
    /// Where the kernel stopped.
    pub time_reached: SimulationTime,
    /// Whether it processed any event on the way.
    pub processed_any: bool,
    /// Whether one of its settle passes happened at the boundary.
    pub settled_at_boundary: bool,
    /// Its next scheduled event, if any.
    pub next_event_time: Option<SimulationTime>,
}

/// Text of the error for a kernel that ran past the boundary.
pub open spec fn overshoot_text(reached: SimulationTime, boundary: SimulationTime) -> Seq<char> {
    "native kernel overshot boundary: reached "@ + time_text(reached) + " > requested "@ + time_text(boundary)
}

/// Text of the error for a kernel with no further events.
pub open spec fn exhausted_text() -> Seq<char> {
    "native kernel: no further events"@
}

/// The verdict on a run to `boundary`, when the kernel did not run past it.
pub open spec fn step_verdict(boundary: SimulationTime, s: KernelRunSummary) -> DigitalStepReport {
    if s.time_reached.ps < boundary.ps {
        DigitalStepReport::Mispredicted { actual_time: s.time_reached }
    } else if s.processed_any || s.settled_at_boundary {
        DigitalStepReport::Confirmed { time: boundary }
    } else {
        match s.next_event_time {
            Some(next) => DigitalStepReport::Postponed { new_prediction: next },
            None => DigitalStepReport::Confirmed { time: boundary },
        }
    }
}

/// Reads the kernel's run to `boundary`: stopping short is a misprediction
/// at the time reached; reaching it with activity there (an event processed
/// or a settle pass at the boundary), or with nothing scheduled after, is a
/// confirmation; reaching it idle with a later event scheduled is a
/// postponement to that event; running past it is an error.
pub fn classify_kernel_step(boundary: SimulationTime, s: KernelRunSummary) -> (r: Result<DigitalStepReport, SchedulerError>)
    ensures
        s.time_reached.ps <= boundary.ps ==> r == Ok::<DigitalStepReport, SchedulerError>(step_verdict(boundary, s)),
        s.time_reached.ps > boundary.ps ==> (r matches Err(SchedulerError::DigitalAdapterFailed(m))
            && m@ == overshoot_text(s.time_reached, boundary)),
{
    if s.time_reached.ps == boundary.ps {
        if s.processed_any || s.settled_at_boundary {
            Ok(DigitalStepReport::Confirmed { time: boundary })
        } else {
            match s.next_event_time {
                Some(next) => Ok(DigitalStepReport::Postponed { new_prediction: next }),
                None => Ok(DigitalStepReport::Confirmed { time: boundary }),
            }
        }
    } else if s.time_reached.ps < boundary.ps {
        Ok(DigitalStepReport::Mispredicted { actual_time: s.time_reached })
    } else {
        let mut m = String::from_str("native kernel overshot boundary: reached ");
        let rt = s.time_reached.to_string();
        push_str(&mut m, rt.as_str());
        push_str(&mut m, " > requested ");
        let bt = boundary.to_string();
        push_str(&mut m, bt.as_str());
        proof {
            reveal_strlit("native kernel overshot boundary: reached ");
        }
        assert(m@ =~= overshoot_text(s.time_reached, boundary));
        Err(SchedulerError::DigitalAdapterFailed(m))
    }
}

/// The prediction reported for the kernel's next scheduled event, or the
/// failure that ends the run when it has none.
pub fn kernel_prediction(next: Option<SimulationTime>) -> (r: Result<NextEventReport, SchedulerError>)
    ensures
        next matches Some(t) ==> r == Ok::<NextEventReport, SchedulerError>(NextEventReport { predicted_time: t }),
        next is None ==> (r matches Err(SchedulerError::DigitalAdapterFailed(m)) && m@ == exhausted_text()),
{
    match next {
        Some(t) => Ok(NextEventReport { predicted_time: t }),
        None => {
            let m = String::from_str("native kernel: no further events");
            proof {
                reveal_strlit("native kernel: no further events");
            }
            Err(SchedulerError::DigitalAdapterFailed(m))
        },
    }
}

/// Every signal paired with the same event times.
pub open spec fn shared_index(names: Seq<Seq<char>>, times: Seq<SimulationTime>) -> Seq<(Seq<char>, Seq<SimulationTime>)> {
    names.map_values(|n: Seq<char>| (n, times))
}

/// The digital trace of the native kernel: every registered signal is
/// listed with all processed event times, in the VCD (scope
/// `native_kernel`) and in the per-signal index.
pub fn native_kernel_trace(signals: &Vec<SignalName>, times: &Vec<SimulationTime>) -> (t: DigitalEventTrace)
    requires
        signals@.len() <= MAX_SINGLE_CHAR_SIGNALS,
    ensures
        t.vcd@ == vcd_text("native_kernel"@, names_view(signals@), Seq::new(signals@.len(), |i: int| times@)),
        index_view(t.events_by_signal@) == shared_index(names_view(signals@), times@),
{
    let n = signals.len();
    let mut per_signal: Vec<Vec<SimulationTime>> = Vec::new();
    let mut index: Vec<(SignalName, Vec<SimulationTime>)> = Vec::new();
    let mut i: usize = 0;
    while i < n
        invariant
            i <= n,
            n == signals@.len(),
            per_signal@.len() == i,
            forall|k: int| 0 <= k < i ==> (#[trigger] per_signal@[k])@ == times@,
            index_view(index@) == shared_index(names_view(signals@), times@).subrange(0, i as int),
        decreases n - i,
    {
        per_signal.push(copy_vec(times));
        let ghost prev = index@;
        index.push((signals[i].duplicate(), copy_vec(times)));
        assert(index_view(index@) =~= index_view(prev).push((signals@[i as int]@, times@)));
        assert(index_view(index@) =~= shared_index(names_view(signals@), times@).subrange(0, i + 1));
        i += 1;
    }
    assert(shared_index(names_view(signals@), times@).subrange(0, n as int) =~= shared_index(names_view(signals@), times@));
    assert(per_signal@.map_values(|v: Vec<SimulationTime>| v@) =~= Seq::new(n as nat, |k: int| times@));
    assert(signals@.map_values(|s: SignalName| s@) =~= names_view(signals@));
    let vcd = build_vcd(&VcdTraceInput { scope_name: "native_kernel", signals: signals.as_slice(), events_by_signal: per_signal.as_slice() });
    DigitalEventTrace { vcd, events_by_signal: index }
}

/// The times at which kernel checkpoints are held: the key set of the
/// adapter's checkpoint map. They are kept as strictly increasing times, so
/// that the latest one at or before a rollback target is found by a scan
/// from the end and the later ones are dropped by truncation.
#[derive(Debug)]
pub struct KernelCheckpointTimes {
    times: Vec<SimulationTime>,
}

/// Strictly increasing times.
pub open spec fn strictly_increasing(s: Seq<SimulationTime>) -> bool {
    forall|i: int, j: int| 0 <= i < j < s.len() ==> s[i].ps < s[j].ps
}

/// The times as a set of picosecond values.
pub open spec fn time_set(s: Seq<SimulationTime>) -> Set<i64> {
    Set::new(|p: i64| exists|i: int| 0 <= i < s.len() && s[i].ps == p)
}

proof fn lemma_time_set_len(s: Seq<SimulationTime>)
    requires
        strictly_increasing(s),
    ensures
        time_set(s).finite(),
        time_set(s).len() == s.len(),
{
    let ps = s.map_values(|t: SimulationTime| t.ps);
    assert forall|i: int, j: int| 0 <= i < ps.len() && 0 <= j < ps.len() && i != j implies ps[i] != ps[j] by {
        if i < j {
            assert(s[i].ps < s[j].ps);
        } else {
            assert(s[j].ps < s[i].ps);
        }
    }
    assert(ps.no_duplicates());
    ps.unique_seq_to_set();
    assert forall|p: i64| ps.to_set().contains(p) <==> time_set(s).contains(p) by {
        if ps.contains(p) {
            let i = choose|i: int| 0 <= i < ps.len() && ps[i] == p;
            assert(s[i].ps == p);
        }
        if time_set(s).contains(p) {
            let i = choose|i: int| 0 <= i < s.len() && s[i].ps == p;
            assert(ps[i] == p);
        }
    }
    assert(ps.to_set() =~= time_set(s));
}

impl View for KernelCheckpointTimes {
    type V = Set<i64>;

    /// The held times, in picoseconds.
    closed spec fn view(&self) -> Set<i64> {
        time_set(self.times@)
    }
}

impl KernelCheckpointTimes {
    #[verifier::type_invariant]
    spec fn increasing(&self) -> bool {
        strictly_increasing(self.times@)
    }

    /// No checkpoint held.
    pub fn new() -> (c: KernelCheckpointTimes)
        ensures
            c@ == Set::<i64>::empty(),
    {
        let c = KernelCheckpointTimes { times: Vec::new() };
        assert(c@ =~= Set::<i64>::empty());
        c
    }

    /// How many checkpoints are held.
    pub fn len(&self) -> (n: usize)
        ensures
            self@.finite(),
            n == self@.len(),
    {
        proof {
            use_type_invariant(self);
            lemma_time_set_len(self.times@);
        }
        self.times.len()
    }

    /// Notes a checkpoint taken at `t`; one already held at `t` is
    /// replaced, so the set of times gains `t` and nothing else.
    pub fn record(&mut self, t: SimulationTime)
        ensures
            final(self)@ == old(self)@.insert(t.ps),
    {
        proof {
            use_type_invariant(&*self);
        }
        let ghost s = self.times@;
        let n = self.times.len();
        let mut pos: usize = 0;
        while pos < n && self.times[pos].ps < t.ps
            invariant
                pos <= n,
                n == self.times@.len(),
                self.times@ == s,
                forall|k: int| 0 <= k < pos ==> s[k].ps < t.ps,
            decreases n - pos,
        {
            pos += 1;
        }
        if pos < n && self.times[pos].ps == t.ps {
            assert(time_set(s).insert(t.ps) =~= time_set(s));
            return;
        }
        let mut times: Vec<SimulationTime> = Vec::new();
        std::mem::swap(&mut times, &mut self.times);
        times.insert(pos, t);
        proof {
            let u = times@;
            assert(u == s.insert(pos as int, t));
            assert forall|i: int, j: int| 0 <= i < j < u.len() implies u[i].ps < u[j].ps by {
                if j < pos {
                    assert(u[i] == s[i] && u[j] == s[j]);
                } else if j == pos {
                    assert(u[i] == s[i]);
                } else if i == pos {
                    assert(u[j] == s[j - 1]);
                    assert(s[pos as int].ps > t.ps);
                    if j - 1 > pos {
                        assert(s[pos as int].ps < s[j - 1].ps);
                    }
                } else if i < pos {
                    assert(u[i] == s[i] && u[j] == s[j - 1]);
                } else {
                    assert(u[i] == s[i - 1] && u[j] == s[j - 1]);
                }
            }
            assert forall|p: i64| time_set(u).contains(p) <==> time_set(s).insert(t.ps).contains(p) by {
                if time_set(u).contains(p) {
                    let k = choose|k: int| 0 <= k < u.len() && u[k].ps == p;
                    if k < pos {
                        assert(u[k] == s[k]);
                    } else if k > pos {
                        assert(u[k] == s[k - 1]);
                    }
                }
                if time_set(s).contains(p) {
                    let k = choose|k: int| 0 <= k < s.len() && s[k].ps == p;
                    if k < pos {
                        assert(u[k] == s[k]);
                    } else {
                        assert(u[k + 1] == s[k]);
                    }
                }
                if p == t.ps {
                    assert(u[pos as int] == t);
                }
            }
            assert(time_set(u) =~= time_set(s).insert(t.ps));
        }
        self.times = times;
    }

    /// Chooses the checkpoint a rollback to `target` restores, the latest
    /// held at or before `target`, and forgets every later one. Without
    /// one at or before `target` nothing changes and the error is
    /// `NoCheckpoint(target)`.
    pub fn rollback(&mut self, target: SimulationTime) -> (r: Result<SimulationTime, SchedulerError>)
        ensures
            r is Err <==> (forall|p: i64| old(self)@.contains(p) ==> p > target.ps),
            r is Err ==> r == Err::<SimulationTime, SchedulerError>(SchedulerError::NoCheckpoint(target))
                && final(self)@ == old(self)@,
            r matches Ok(t) ==> {
                &&& old(self)@.contains(t.ps)
                &&& t.ps <= target.ps
                &&& (forall|p: i64| old(self)@.contains(p) && p <= target.ps ==> p <= t.ps)
                &&& final(self)@ == old(self)@.filter(|p: i64| p <= t.ps)
            },
    {
        proof {
            use_type_invariant(&*self);
        }
        let ghost s = self.times@;
        let n = self.times.len();
        let mut k = n;
        while k > 0 && self.times[k - 1].ps > target.ps
            invariant
                k <= n,
                n == self.times@.len(),
                self.times@ == s,
                forall|j: int| k <= j < n ==> s[j].ps > target.ps,
            decreases k,
        {
            k -= 1;
        }
        if k == 0 {
            assert forall|p: i64| old(self)@.contains(p) implies p > target.ps by {
                let j = choose|j: int| 0 <= j < s.len() && s[j].ps == p;
            }
            return Err(SchedulerError::NoCheckpoint(target));
        }
        let t = self.times[k - 1];
        let mut times: Vec<SimulationTime> = Vec::new();
        std::mem::swap(&mut times, &mut self.times);
        times.truncate(k);
        assert(times@ =~= s.subrange(0, k as int));
        self.times = times;
        proof {
            let i = k - 1;
            assert(s[i] == t);
            assert(old(self)@.contains(t.ps));
            assert forall|p: i64| old(self)@.contains(p) && p <= target.ps implies p <= t.ps by {
                let j = choose|j: int| 0 <= j < s.len() && s[j].ps == p;
                if j > i {
                    assert(s[j].ps > target.ps);
                } else if j < i {
                    assert(s[j].ps < s[i].ps);
                }
            }
            assert forall|p: i64| self@.contains(p) <==> old(self)@.filter(|q: i64| q <= t.ps).contains(p) by {
                if self@.contains(p) {
                    let j = choose|j: int| 0 <= j < k && self.times@[j].ps == p;
                    assert(s[j] == self.times@[j]);
                    if j < i {
                        assert(s[j].ps < s[i].ps);
                    }
                }
                if old(self)@.contains(p) && p <= t.ps {
                    let j = choose|j: int| 0 <= j < s.len() && s[j].ps == p;
                    if j > i {
                        assert(s[j].ps > target.ps);
                    }
                    assert(self.times@[j] == s[j]);
                }
            }
            assert(self@ =~= old(self)@.filter(|q: i64| q <= t.ps));
            assert(!(forall|p: i64| old(self)@.contains(p) ==> p > target.ps));
        }
        Ok(t)
    }
}

impl Default for KernelCheckpointTimes {
    fn default() -> (c: Self)
        ensures
            c@ == Set::<i64>::empty(),
    {
        KernelCheckpointTimes::new()
    }
}

} // verus!
