//! Identifiers and the simulation clock shared by the mixed-signal
//! components: [`SimulationTime`] (integer picoseconds), [`NodeId`],
//! [`ElementId`] and [`SignalName`].
use vstd::prelude::*;
use vstd::string::StringExecFns;
use crate::text::{int_decimal, push_int_decimal, push_str};

verus! {

/// A point on the simulation timeline, counted in whole picoseconds.
///
/// Times compare by their picosecond count; the mixed-signal components
/// never use floating point for time.
#[derive(Debug, Clone, Copy, PartialEq, Eq, Hash, PartialOrd, Ord, Structural)]
pub struct SimulationTime {
    /// Picoseconds since the start of the simulation.
    pub ps: i64,
}

/// Rust's truncating integer division (rounds toward zero).
pub open spec fn trunc_div(a: int, b: int) -> int {
    if a >= 0 {
        a / b
    } else {
        -((-a) / b)
    }
}

impl SimulationTime {
    /// The start of the timeline (0 ps).
    pub fn zero() -> (t: SimulationTime)
        ensures
            t.ps == 0,
    {
        SimulationTime { ps: 0 }
    }

    /// The time `ps` picoseconds after the origin.
    pub fn from_picoseconds(ps: i64) -> (t: SimulationTime)
        ensures
            t.ps == ps,
    {
        SimulationTime { ps }
    }

    /// The time `ns` nanoseconds after the origin.
    pub fn from_nanoseconds(ns: i64) -> (t: SimulationTime)
        requires
            i64::MIN <= ns * 1000 <= i64::MAX,
        ensures
            t.ps == ns * 1000,
    {
        SimulationTime { ps: ns * 1000 }
    }

    /// The picosecond count.
    pub fn as_picoseconds(self) -> (ps: i64)
        ensures
            ps == self.ps,
    {
        self.ps
    }

    /// Whole nanoseconds, truncated toward zero.
    pub fn as_nanoseconds(self) -> (ns: i64)
        ensures
            ns == trunc_div(self.ps as int, 1000),
    {
        if self.ps >= 0 {
            self.ps / 1000
        } else {
            let m: u64 = ((-(self.ps + 1)) as u64) + 1;
            let q: i64 = (m / 1000) as i64;
            assert(q == (-(self.ps as int)) / 1000);
            -q
        }
    }

    /// Text form: the picosecond count followed by ` ps`.
    pub fn to_string(self) -> (s: String)
        ensures
            s@ == time_text(self),
    {
        let mut s = String::new();
        push_int_decimal(&mut s, self.ps);
        push_str(&mut s, " ps");
        proof {
            reveal_strlit(" ps");
        }
        assert(s@ =~= time_text(self));
        s
    }
}

/// The text form of a time: its picosecond numeral and ` ps`.
pub open spec fn time_text(t: SimulationTime) -> Seq<char> {
    int_decimal(t.ps as int) + seq![' ', 'p', 's']
}

/// Index of a circuit node. Node `0` is ground.
#[derive(Debug, Clone, Copy, PartialEq, Eq, Hash, PartialOrd, Ord, Structural)]
pub struct NodeId {
    /// Position of the node in the flattened circuit.
    pub index: u32,
}

impl NodeId {
    /// The node with the given index.
    pub fn new(index: u32) -> (n: NodeId)
        ensures
            n.index == index,
    {
        NodeId { index }
    }

    /// The node's index.
    pub fn index(self) -> (i: u32)
        ensures
            i == self.index,
    {
        self.index
    }
}

/// Index of a circuit element (resistor, capacitor, inductor, source).
#[derive(Debug, Clone, Copy, PartialEq, Eq, Hash, PartialOrd, Ord, Structural)]
pub struct ElementId {
    /// Position of the element in the flattened circuit.
    pub index: u32,
}

impl ElementId {
    /// The element with the given index.
    pub fn new(index: u32) -> (e: ElementId)
        ensures
            e.index == index,
    {
        ElementId { index }
    }

    /// The element's index.
    pub fn index(self) -> (i: u32)
        ensures
            i == self.index,
    {
        self.index
    }
}

/// The name of a signal on the analog/digital boundary.
#[derive(Debug, Clone, Hash)]
pub struct SignalName {
    name: String,
}

impl View for SignalName {
    type V = Seq<char>;

    closed spec fn view(&self) -> Seq<char> {
        self.name@
    }
}

impl SignalName {
    /// A signal with the given name.
    pub fn new(name: &str) -> (s: SignalName)
        ensures
            s@ == name@,
    {
        SignalName { name: String::from_str(name) }
    }

    /// The name as a string slice.
    pub fn as_str(&self) -> (r: &str)
        ensures
            r@ == self@,
    {
        self.name.as_str()
    }

    /// An equal copy of this name.
    pub fn duplicate(&self) -> (r: SignalName)
        ensures
            r@ == self@,
    {
        SignalName { name: self.name.clone() }
    }

    /// Whether two names are the same text.
    pub fn same_as(&self, other: &SignalName) -> (b: bool)
        ensures
            b == (self@ == other@),
    {
        self.name == other.name
    }

    /// The name as an owned `String`.
    pub fn to_string(&self) -> (r: String)
        ensures
            r@ == self@,
    {
        self.name.clone()
    }
}

/// Names as plain values.
pub open spec fn names_view(s: Seq<SignalName>) -> Seq<Seq<char>> {
    s.map_values(|n: SignalName| n@)
}

/// A copy of a list of names.
pub fn duplicate_names(v: &Vec<SignalName>) -> (r: Vec<SignalName>)
    ensures
        names_view(r@) == names_view(v@),
{
    let mut r: Vec<SignalName> = Vec::new();
    let mut i: usize = 0;
    while i < v.len()
        invariant
            i <= v@.len(),
            names_view(r@) == names_view(v@.subrange(0, i as int)),
        decreases v@.len() - i,
    {
        let ghost prev = r@;
        let d = v[i].duplicate();
        r.push(d);
        assert(v@.subrange(0, i + 1) =~= v@.subrange(0, i as int).push(v@[i as int]));
        assert(names_view(r@) =~= names_view(prev).push(d@));
        assert(names_view(v@.subrange(0, i + 1)) =~= names_view(v@.subrange(0, i as int)).push(v@[i as int]@));
        i += 1;
    }
    assert(v@.subrange(0, v@.len() as int) =~= v@);
    r
}

/// The position of the first entry of `names` equal to `name`, if any.
pub open spec fn first_position_in(names: Seq<Seq<char>>, name: Seq<char>) -> Option<int> {
    if exists|i: int| 0 <= i < names.len() && names[i] == name {
        Some(choose|i: int| 0 <= i < names.len() && names[i] == name && forall|j: int| 0 <= j < i ==> names[j] != name)
    } else {
        None
    }
}

/// Finds the first position of `name` in `names`.
pub fn find_position(names: &[SignalName], name: &SignalName) -> (r: Option<usize>)
    ensures
        r matches Some(i) ==> 0 <= i < names@.len() && names@[i as int]@ == name@
            && forall|j: int| 0 <= j < i ==> names@[j]@ != name@,
        r is None ==> forall|j: int| 0 <= j < names@.len() ==> names@[j]@ != name@,
{
    let mut i: usize = 0;
    while i < names.len()
        invariant
            i <= names@.len(),
            forall|j: int| 0 <= j < i ==> names@[j]@ != name@,
        decreases names@.len() - i,
    {
        if names[i].same_as(name) {
            return Some(i);
        }
        i += 1;
    }
    None
}

impl PartialEq for SignalName {
    fn eq(&self, other: &Self) -> (r: bool) {
        self.name == other.name
    }
}

impl vstd::std_specs::cmp::PartialEqSpecImpl for SignalName {
    open spec fn obeys_eq_spec() -> bool {
        true
    }

    open spec fn eq_spec(&self, other: &Self) -> bool {
        self@ == other@
    }
}

impl Eq for SignalName {
}

} // verus!
