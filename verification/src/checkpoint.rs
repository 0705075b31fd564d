//! Sparse checkpoint store.
//!
//! A [`SparseCheckpoint`] is a snapshot of analog state (node voltages and
//! the companion history of every capacitor and inductor) taken at one
//! simulation time. The [`SparseCheckpointManager`] keeps such snapshots in
//! an ordered list whose times never decrease, so that a rollback can find
//! the latest snapshot at or before any requested time.
//!
//! The numeric payload is carried, never inspected: its scalar type is the
//! parameter `S` (the analog solver uses `f64`).
use vstd::prelude::*;
use crate::text::{push_str};
use crate::time::{ElementId, NodeId, SimulationTime, time_text};

verus! {

/// Companion-model history of one capacitor: its terminal voltage at the
/// checkpointed step.
#[derive(Debug, Clone, Copy, PartialEq)]
pub struct CapacitorHistory<S> {
    /// Terminal voltage at the previous accepted step.
    pub v_prev: S,
}

impl<S> CapacitorHistory<S> {
    /// A history holding `v_prev`.
    pub fn new(v_prev: S) -> (h: CapacitorHistory<S>)
        ensures
            h.v_prev == v_prev,
    {
        CapacitorHistory { v_prev }
    }
}

/// Companion-model history of one inductor: its branch current at the
/// checkpointed step.
#[derive(Debug, Clone, Copy, PartialEq)]
pub struct InductorHistory<S> {
    /// Branch current at the previous accepted step.
    pub i_prev: S,
}

impl<S> InductorHistory<S> {
    /// A history holding `i_prev`.
    pub fn new(i_prev: S) -> (h: InductorHistory<S>)
        ensures
            h.i_prev == i_prev,
    {
        InductorHistory { i_prev }
    }
}

/// A copy of a vector of copyable items.
pub fn copy_vec<T: Copy>(v: &Vec<T>) -> (r: Vec<T>)
    ensures
        r@ == v@,
{
    let mut r: Vec<T> = Vec::new();
    let mut i: usize = 0;
    while i < v.len()
        invariant
            i <= v.len(),
            r@ == v@.subrange(0, i as int),
        decreases v.len() - i,
    {
        r.push(v[i]);
        i += 1;
        assert(r@ =~= v@.subrange(0, i as int));
    }
    assert(r@ =~= v@);
    r
}

/// A snapshot of analog state at one simulation time.
///
/// Ground is never stored among the node voltages. All three vectors keep
/// the order in which they were supplied.
#[derive(Debug, Clone, PartialEq)]
pub struct SparseCheckpoint<S> {
    /// The simulation time of the snapshot.
    pub time: SimulationTime,
    /// Voltage of each non-ground node.
    pub node_voltages: Vec<(NodeId, S)>,
    /// History of each capacitor.
    pub capacitor_states: Vec<(ElementId, CapacitorHistory<S>)>,
    /// History of each inductor.
    pub inductor_states: Vec<(ElementId, InductorHistory<S>)>,
}

impl<S> SparseCheckpoint<S> {
    /// A checkpoint at `time` holding no state.
    pub fn empty(time: SimulationTime) -> (c: SparseCheckpoint<S>)
        ensures
            c.time == time,
            c.node_voltages@.len() == 0,
            c.capacitor_states@.len() == 0,
            c.inductor_states@.len() == 0,
    {
        SparseCheckpoint {
            time,
            node_voltages: Vec::new(),
            capacitor_states: Vec::new(),
            inductor_states: Vec::new(),
        }
    }

    /// This checkpoint with its node voltages replaced by `voltages`.
    pub fn with_node_voltages(self, voltages: Vec<(NodeId, S)>) -> (c: SparseCheckpoint<S>)
        ensures
            c.time == self.time,
            c.node_voltages@ == voltages@,
            c.capacitor_states@ == self.capacitor_states@,
            c.inductor_states@ == self.inductor_states@,
    {
        SparseCheckpoint {
            time: self.time,
            node_voltages: voltages,
            capacitor_states: self.capacitor_states,
            inductor_states: self.inductor_states,
        }
    }

    /// This checkpoint with its capacitor histories replaced by `states`.
    pub fn with_capacitor_states(self, states: Vec<(ElementId, CapacitorHistory<S>)>) -> (c:
        SparseCheckpoint<S>)
        ensures
            c.time == self.time,
            c.node_voltages@ == self.node_voltages@,
            c.capacitor_states@ == states@,
            c.inductor_states@ == self.inductor_states@,
    {
        SparseCheckpoint {
            time: self.time,
            node_voltages: self.node_voltages,
            capacitor_states: states,
            inductor_states: self.inductor_states,
        }
    }

    /// This checkpoint with its inductor histories replaced by `states`.
    pub fn with_inductor_states(self, states: Vec<(ElementId, InductorHistory<S>)>) -> (c:
        SparseCheckpoint<S>)
        ensures
            c.time == self.time,
            c.node_voltages@ == self.node_voltages@,
            c.capacitor_states@ == self.capacitor_states@,
            c.inductor_states@ == states@,
    {
        SparseCheckpoint {
            time: self.time,
            node_voltages: self.node_voltages,
            capacitor_states: self.capacitor_states,
            inductor_states: states,
        }
    }

    /// The simulation time of the snapshot.
    pub fn time(&self) -> (t: SimulationTime)
        ensures
            t == self.time,
    {
        self.time
    }

    /// Number of node voltages held.
    pub fn node_count(&self) -> (n: usize)
        ensures
            n == self.node_voltages@.len(),
    {
        self.node_voltages.len()
    }

    /// Number of capacitor histories held.
    pub fn capacitor_count(&self) -> (n: usize)
        ensures
            n == self.capacitor_states@.len(),
    {
        self.capacitor_states.len()
    }

    /// Number of inductor histories held.
    pub fn inductor_count(&self) -> (n: usize)
        ensures
            n == self.inductor_states@.len(),
    {
        self.inductor_states.len()
    }

    /// Whether the checkpoint holds no node voltage and no reactive state.
    pub fn is_empty(&self) -> (b: bool)
        ensures
            b == (self.node_voltages@.len() == 0 && self.capacitor_states@.len() == 0
                && self.inductor_states@.len() == 0),
    {
        self.node_voltages.len() == 0 && self.capacitor_states.len() == 0
            && self.inductor_states.len() == 0
    }
}

/// Whether two checkpoints hold the same time and the same state.
pub open spec fn same_checkpoint<S>(a: SparseCheckpoint<S>, b: SparseCheckpoint<S>) -> bool {
    &&& a.time == b.time
    &&& a.node_voltages@ == b.node_voltages@
    &&& a.capacitor_states@ == b.capacitor_states@
    &&& a.inductor_states@ == b.inductor_states@
}

impl<S: Copy> SparseCheckpoint<S> {
    /// A copy holding the same time and state.
    pub fn duplicate(&self) -> (c: SparseCheckpoint<S>)
        ensures
            same_checkpoint(c, *self),
    {
        SparseCheckpoint {
            time: self.time,
            node_voltages: copy_vec(&self.node_voltages),
            capacitor_states: copy_vec(&self.capacitor_states),
            inductor_states: copy_vec(&self.inductor_states),
        }
    }
}

/// Failures of the checkpoint store.
#[derive(Debug, Clone, Copy, PartialEq, Eq, Structural)]
pub enum CheckpointError {
    /// No stored checkpoint lies at or before the requested time (which is
    /// carried).
    NoCheckpointAtOrBefore(SimulationTime),
    /// A save was attempted earlier than the latest stored checkpoint.
    NonMonotonicSave {
        /// Time of the latest stored checkpoint.
        latest: SimulationTime,
        /// Time of the refused checkpoint.
        attempted: SimulationTime,
    },
}

/// The human-readable text of a checkpoint error.
pub open spec fn checkpoint_error_text(e: CheckpointError) -> Seq<char> {
    match e {
        CheckpointError::NoCheckpointAtOrBefore(t) => "no checkpoint at or before "@ + time_text(t),
        CheckpointError::NonMonotonicSave { latest, attempted } =>
            "non-monotonic save: latest checkpoint at "@ + time_text(latest)
                + ", attempted save at "@ + time_text(attempted),
    }
}

impl CheckpointError {
    /// The human-readable message for this error.
    pub fn to_string(&self) -> (s: String)
        ensures
            s@ == checkpoint_error_text(*self),
    {
        match self {
            CheckpointError::NoCheckpointAtOrBefore(t) => {
                let mut s = String::new();
                push_str(&mut s, "no checkpoint at or before ");
                let ts = t.to_string();
                push_str(&mut s, ts.as_str());
                assert(s@ =~= checkpoint_error_text(*self));
                s
            },
            CheckpointError::NonMonotonicSave { latest, attempted } => {
                let mut s = String::new();
                push_str(&mut s, "non-monotonic save: latest checkpoint at ");
                let ls = latest.to_string();
                push_str(&mut s, ls.as_str());
                push_str(&mut s, ", attempted save at ");
                let a_s = attempted.to_string();
                push_str(&mut s, a_s.as_str());
                assert(s@ =~= checkpoint_error_text(*self));
                s
            },
        }
    }
}

/// The stored times never decrease along the sequence.
pub open spec fn times_non_decreasing<S>(s: Seq<SparseCheckpoint<S>>) -> bool {
    forall|i: int, j: int| 0 <= i <= j < s.len() ==> s[i].time.ps <= s[j].time.ps
}

/// Whether a checkpoint at `time` may be appended to `s`: `s` is empty or
/// its latest time is not after `time`.
pub open spec fn save_accepts<S>(s: Seq<SparseCheckpoint<S>>, time: SimulationTime) -> bool {
    s.len() == 0 || s.last().time.ps <= time.ps
}

/// Index `i` is the answer to "latest checkpoint at or before `target`":
/// its time is at or before `target` and every later entry is after it.
pub open spec fn is_restore_index<S>(s: Seq<SparseCheckpoint<S>>, target: SimulationTime, i: int) -> bool {
    &&& 0 <= i < s.len()
    &&& s[i].time.ps <= target.ps
    &&& forall|j: int| i < j < s.len() ==> s[j].time.ps > target.ps
}

/// Some stored checkpoint lies at or before `target`.
pub open spec fn has_at_or_before<S>(s: Seq<SparseCheckpoint<S>>, target: SimulationTime) -> bool {
    exists|i: int| 0 <= i < s.len() && s[i].time.ps <= target.ps
}

/// `after` is `before` without the entries strictly later than `target`.
pub open spec fn is_drop_after<S>(
    before: Seq<SparseCheckpoint<S>>,
    after: Seq<SparseCheckpoint<S>>,
    target: SimulationTime,
) -> bool {
    &&& after.len() <= before.len()
    &&& after == before.subrange(0, after.len() as int)
    &&& forall|i: int| 0 <= i < after.len() ==> before[i].time.ps <= target.ps
    &&& forall|i: int| after.len() <= i < before.len() ==> before[i].time.ps > target.ps
}

/// `after` is `before` without the entries strictly earlier than `target`.
pub open spec fn is_drop_before<S>(
    before: Seq<SparseCheckpoint<S>>,
    after: Seq<SparseCheckpoint<S>>,
    target: SimulationTime,
) -> bool {
    &&& after.len() <= before.len()
    &&& after == before.subrange(before.len() - after.len(), before.len() as int)
    &&& forall|i: int| 0 <= i < before.len() - after.len() ==> before[i].time.ps < target.ps
    &&& forall|i: int| before.len() - after.len() <= i < before.len() ==> before[i].time.ps
        >= target.ps
}

/// Restoring answers with the largest stored time at or before the target:
/// every stored checkpoint at or before `target` is no later than the
/// answer, and none after it qualifies.
pub proof fn law_restore_is_latest_at_or_before<S>(
    s: Seq<SparseCheckpoint<S>>,
    target: SimulationTime,
    i: int,
)
    requires
        times_non_decreasing(s),
        is_restore_index(s, target, i),
    ensures
        forall|j: int| 0 <= j < s.len() && s[j].time.ps <= target.ps ==> j <= i && s[j].time.ps <= s[i].time.ps,
{
}

/// A checkpoint that was just saved is what a restore at its own time gives
/// back, and the store stays ordered.
pub proof fn law_restore_after_save<S>(s: Seq<SparseCheckpoint<S>>, c: SparseCheckpoint<S>)
    requires
        times_non_decreasing(s),
        save_accepts(s, c.time),
    ensures
        times_non_decreasing(s.push(c)),
        is_restore_index(s.push(c), c.time, s.len() as int),
        s.push(c)[s.len() as int] == c,
{
    assert forall|i: int, j: int| 0 <= i <= j < s.push(c).len() implies s.push(c)[i].time.ps
        <= s.push(c)[j].time.ps by {
        if j == s.len() && i < j {
            assert(s[i].time.ps <= s.last().time.ps);
        }
    }
}

/// After dropping everything later than `t`, a save at any time not before
/// `t` is accepted.
pub proof fn law_save_after_drop_after<S>(
    before: Seq<SparseCheckpoint<S>>,
    after: Seq<SparseCheckpoint<S>>,
    t: SimulationTime,
    time: SimulationTime,
)
    requires
        is_drop_after(before, after, t),
        t.ps <= time.ps,
    ensures
        save_accepts(after, time),
{
    if after.len() > 0 {
        assert(after.last() == before[after.len() - 1]);
    }
}

/// Dropping everything later than `t` does not change what a restore at `t`
/// answers: the checkpoint at `t` is kept.
pub proof fn law_drop_after_keeps_restore_target<S>(
    before: Seq<SparseCheckpoint<S>>,
    after: Seq<SparseCheckpoint<S>>,
    t: SimulationTime,
    i: int,
)
    requires
        is_drop_after(before, after, t),
        is_restore_index(before, t, i),
    ensures
        is_restore_index(after, t, i),
        after[i] == before[i],
{
}

/// Dropping everything later than `t` undoes the save of a checkpoint later
/// than `t` into a store whose checkpoints are all at or before `t`.
pub proof fn law_drop_after_undoes_later_save<S>(
    s: Seq<SparseCheckpoint<S>>,
    c: SparseCheckpoint<S>,
    t: SimulationTime,
    after: Seq<SparseCheckpoint<S>>,
)
    requires
        forall|i: int| 0 <= i < s.len() ==> s[i].time.ps <= t.ps,
        c.time.ps > t.ps,
        is_drop_after(s.push(c), after, t),
    ensures
        after == s,
{
    let full = s.push(c);
    if after.len() > s.len() {
        assert(full[s.len() as int].time.ps <= t.ps);
    }
    if after.len() < s.len() {
        assert(full[after.len() as int] == s[after.len() as int]);
    }
    assert(after =~= s);
}

/// After dropping everything earlier than `t`, every remaining checkpoint
/// is at or after `t`.
pub proof fn law_drop_before_leaves_nothing_earlier<S>(
    before: Seq<SparseCheckpoint<S>>,
    after: Seq<SparseCheckpoint<S>>,
    t: SimulationTime,
)
    requires
        is_drop_before(before, after, t),
    ensures
        forall|i: int| 0 <= i < after.len() ==> after[i].time.ps >= t.ps,
{
    assert forall|i: int| 0 <= i < after.len() implies after[i].time.ps >= t.ps by {
        assert(after[i] == before[before.len() - after.len() + i]);
    }
}

/// Ordered, time-keyed store of checkpoints whose times never decrease.
#[derive(Debug)]
pub struct SparseCheckpointManager<S> {
    checkpoints: Vec<SparseCheckpoint<S>>,
}

impl<S> View for SparseCheckpointManager<S> {
    type V = Seq<SparseCheckpoint<S>>;

    closed spec fn view(&self) -> Seq<SparseCheckpoint<S>> {
        self.checkpoints@
    }
}

impl<S> SparseCheckpointManager<S> {
    #[verifier::type_invariant]
    spec fn ordered(self) -> bool {
        times_non_decreasing(self.checkpoints@)
    }

    /// An empty store.
    pub fn new() -> (m: SparseCheckpointManager<S>)
        ensures
            m@ == Seq::<SparseCheckpoint<S>>::empty(),
            times_non_decreasing(m@),
    {
        SparseCheckpointManager { checkpoints: Vec::new() }
    }

    /// Appends `checkpoint`, unless it is earlier than the latest stored
    /// checkpoint, in which case the store is unchanged and the error names
    /// both times.
    pub fn save(&mut self, checkpoint: SparseCheckpoint<S>) -> (r: Result<(), CheckpointError>)
        ensures
            times_non_decreasing(final(self)@),
            r is Ok <==> save_accepts(old(self)@, checkpoint.time),
            r is Ok ==> final(self)@ == old(self)@.push(checkpoint),
            r matches Err(e) ==> final(self)@ == old(self)@ && e == (CheckpointError::NonMonotonicSave {
                latest: old(self)@.last().time,
                attempted: checkpoint.time,
            }),
    {
        proof {
            use_type_invariant(&*self);
        }
        let n = self.checkpoints.len();
        if n > 0 {
            let latest = self.checkpoints[n - 1].time;
            if checkpoint.time.ps < latest.ps {
                return Err(CheckpointError::NonMonotonicSave { latest, attempted: checkpoint.time });
            }
        }
        let mut stored: Vec<SparseCheckpoint<S>> = Vec::new();
        std::mem::swap(&mut stored, &mut self.checkpoints);
        stored.push(checkpoint);
        self.checkpoints = stored;
        Ok(())
    }

    /// The latest stored checkpoint whose time is at or before `target`.
    pub fn restore_at_or_before(&self, target: SimulationTime) -> (r: Result<
        &SparseCheckpoint<S>,
        CheckpointError,
    >)
        ensures
            times_non_decreasing(self@),
            r is Ok <==> has_at_or_before(self@, target),
            r matches Ok(c) ==> exists|i: int| is_restore_index(self@, target, i) && *c == self@[i],
            r matches Err(e) ==> e == CheckpointError::NoCheckpointAtOrBefore(target),
    {
        proof {
            use_type_invariant(self);
        }
        let n = self.checkpoints.len();
        let mut i = n;
        while i > 0
            invariant
                i <= n,
                n == self.checkpoints@.len(),
                times_non_decreasing(self.checkpoints@),
                forall|j: int| i <= j < n ==> self.checkpoints@[j].time.ps > target.ps,
            decreases i,
        {
            if self.checkpoints[i - 1].time.ps <= target.ps {
                assert(is_restore_index(self@, target, i - 1));
                return Ok(&self.checkpoints[i - 1]);
            }
            i -= 1;
        }
        Err(CheckpointError::NoCheckpointAtOrBefore(target))
    }

    /// Removes every checkpoint strictly later than `target`; the one at
    /// `target`, if any, stays. Returns how many were removed.
    pub fn drop_after(&mut self, target: SimulationTime) -> (removed: usize)
        ensures
            times_non_decreasing(final(self)@),
            is_drop_after(old(self)@, final(self)@, target),
            removed == old(self)@.len() - final(self)@.len(),
    {
        proof {
            use_type_invariant(&*self);
        }
        let n = self.checkpoints.len();
        let mut i = n;
        while i > 0 && self.checkpoints[i - 1].time.ps > target.ps
            invariant
                i <= n,
                n == self.checkpoints@.len(),
                times_non_decreasing(self.checkpoints@),
                forall|j: int| i <= j < n ==> self.checkpoints@[j].time.ps > target.ps,
            decreases i,
        {
            i -= 1;
        }
        let ghost before = self.checkpoints@;
        let mut stored: Vec<SparseCheckpoint<S>> = Vec::new();
        std::mem::swap(&mut stored, &mut self.checkpoints);
        stored.truncate(i);
        assert(stored@ =~= before.subrange(0, i as int));
        self.checkpoints = stored;
        n - i
    }

    /// Removes every checkpoint strictly earlier than `target`. Returns how
    /// many were removed.
    pub fn drop_before(&mut self, target: SimulationTime) -> (removed: usize)
        ensures
            times_non_decreasing(final(self)@),
            is_drop_before(old(self)@, final(self)@, target),
            removed == old(self)@.len() - final(self)@.len(),
    {
        proof {
            use_type_invariant(&*self);
        }
        let n = self.checkpoints.len();
        let mut i: usize = 0;
        while i < n && self.checkpoints[i].time.ps < target.ps
            invariant
                i <= n,
                n == self.checkpoints@.len(),
                times_non_decreasing(self.checkpoints@),
                forall|j: int| 0 <= j < i ==> self.checkpoints@[j].time.ps < target.ps,
            decreases n - i,
        {
            i += 1;
        }
        let ghost before = self.checkpoints@;
        let mut stored: Vec<SparseCheckpoint<S>> = Vec::new();
        std::mem::swap(&mut stored, &mut self.checkpoints);
        let rest = stored.split_off(i);
        assert(rest@ =~= before.subrange(i as int, n as int));
        self.checkpoints = rest;
        i
    }

    /// Number of stored checkpoints.
    pub fn len(&self) -> (n: usize)
        ensures
            n == self@.len(),
    {
        self.checkpoints.len()
    }

    /// Whether no checkpoint is stored.
    pub fn is_empty(&self) -> (b: bool)
        ensures
            b == (self@.len() == 0),
    {
        self.checkpoints.len() == 0
    }

    /// Time of the latest stored checkpoint.
    pub fn latest_time(&self) -> (t: Option<SimulationTime>)
        ensures
            t == (if self@.len() == 0 {
                None
            } else {
                Some(self@.last().time)
            }),
    {
        let n = self.checkpoints.len();
        if n == 0 {
            None
        } else {
            Some(self.checkpoints[n - 1].time)
        }
    }

    /// Time of the earliest stored checkpoint.
    pub fn earliest_time(&self) -> (t: Option<SimulationTime>)
        ensures
            t == (if self@.len() == 0 {
                None
            } else {
                Some(self@[0].time)
            }),
    {
        if self.checkpoints.len() == 0 {
            None
        } else {
            Some(self.checkpoints[0].time)
        }
    }

    /// All stored checkpoints, oldest first.
    pub fn as_slice(&self) -> (s: &[SparseCheckpoint<S>])
        ensures
            s@ == self@,
            times_non_decreasing(self@),
    {
        proof {
            use_type_invariant(self);
        }
        self.checkpoints.as_slice()
    }
}

impl<S> Default for SparseCheckpointManager<S> {
    fn default() -> (m: Self)
        ensures
            m@ == Seq::<SparseCheckpoint<S>>::empty(),
    {
        SparseCheckpointManager::new()
    }
}

} // verus!
