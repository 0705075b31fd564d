//! Analog/digital boundary signal exchange with zero-order hold.
//!
//! At every synchronization point each boundary signal's most recent value
//! is read from its providing side and delivered, unchanged, under the
//! destination name the configuration pairs it with. No interpolation takes
//! place: the last accepted sample is held until the synchronization point.
//! A source with no value yet is reported as missing rather than defaulted.
//!
//! The value type is the parameter `V` (the kernels exchange `f64` levels).
use vstd::prelude::*;
use vstd::string::StringExecFns;
use crate::mixed_signal::BoundarySignals;
use crate::text::push_str;
use crate::time::{SignalName, names_view};

verus! {

/// How boundary values are formed at a synchronization point.
#[derive(Debug, Clone, Copy, PartialEq, Eq, Hash, Structural)]
pub enum BoundaryInterpolationMode {
    /// Hold the last accepted value until the synchronization point (the
    /// default).
    ZeroOrderHold,
    /// Interpolate linearly between the two latest samples (not offered by
    /// this exchanger).
    Linear,
}

impl Default for BoundaryInterpolationMode {
    fn default() -> (m: Self)
        ensures
            m == BoundaryInterpolationMode::ZeroOrderHold,
    {
        BoundaryInterpolationMode::ZeroOrderHold
    }
}

/// The stable text name of a mode.
pub open spec fn mode_text(m: BoundaryInterpolationMode) -> Seq<char> {
    match m {
        BoundaryInterpolationMode::ZeroOrderHold => "zero_order_hold"@,
        BoundaryInterpolationMode::Linear => "linear"@,
    }
}

impl BoundaryInterpolationMode {
    /// The stable text name of this mode.
    pub fn to_string(&self) -> (s: String)
        ensures
            s@ == mode_text(*self),
    {
        match self {
            BoundaryInterpolationMode::ZeroOrderHold => String::from_str("zero_order_hold"),
            BoundaryInterpolationMode::Linear => String::from_str("linear"),
        }
    }
}

/// Supplies the last accepted analog value of a boundary signal. The value
/// reported is a function of the provider's state and the signal, named by
/// `analog_value`.
pub trait AnalogValueProvider<V> {
    /// The value this provider holds for `signal`.
    spec fn analog_value(&self, signal: SignalName) -> Option<V>;

    /// The most recent accepted value of `signal`, or `None` before any.
    fn last_analog_value(&self, signal: &SignalName) -> (r: Option<V>)
        ensures
            r == self.analog_value(*signal),
    ;
}

/// Supplies the last digital output value of a boundary signal. The value
/// reported is a function of the provider's state and the signal, named by
/// `digital_value`.
pub trait DigitalValueProvider<V> {
    /// The value this provider holds for `signal`.
    spec fn digital_value(&self, signal: SignalName) -> Option<V>;

    /// The most recent value of `signal`, or `None` before any.
    fn last_digital_value(&self, signal: &SignalName) -> (r: Option<V>)
        ensures
            r == self.digital_value(*signal),
    ;
}

/// What the analog provider holds for each configured source, in order.
pub open spec fn analog_answers<V, A: AnalogValueProvider<V>>(analog: A, pairs: Seq<(SignalName, SignalName)>) -> Seq<Option<V>> {
    pairs.map_values(|pr: (SignalName, SignalName)| analog.analog_value(pr.0))
}

/// What the digital provider holds for each configured source, in order.
pub open spec fn digital_answers<V, D: DigitalValueProvider<V>>(digital: D, pairs: Seq<(SignalName, SignalName)>) -> Seq<Option<V>> {
    pairs.map_values(|pr: (SignalName, SignalName)| digital.digital_value(pr.0))
}

/// The values exchanged at one synchronization point.
#[derive(Debug, Clone, PartialEq)]
pub struct BoundaryExchangePacket<V> {
    /// Values delivered to the digital side, keyed by destination name.
    pub analog_to_digital: Vec<(SignalName, V)>,
    /// Values delivered to the analog side, keyed by destination name.
    pub digital_to_analog: Vec<(SignalName, V)>,
    /// Source signals that had no value.
    pub missing_sources: Vec<SignalName>,
}

/// Name-and-value entries as plain values.
pub open spec fn entries_view<V>(s: Seq<(SignalName, V)>) -> Seq<(Seq<char>, V)> {
    s.map_values(|e: (SignalName, V)| (e.0@, e.1))
}

/// The entries delivered for the configured `pairs` (source, destination)
/// when the sources answered `got` (parallel to `pairs`): one
/// (destination, value) per source that had a value, in order.
pub open spec fn routed<V>(pairs: Seq<(SignalName, SignalName)>, got: Seq<Option<V>>) -> Seq<(Seq<char>, V)>
    decreases pairs.len(),
{
    if pairs.len() == 0 || got.len() == 0 {
        Seq::empty()
    } else {
        let rest = routed(pairs.drop_last(), got.drop_last());
        match got.last() {
            Some(v) => rest.push((pairs.last().1@, v)),
            None => rest,
        }
    }
}

/// The sources among `pairs` that had no value, in order.
pub open spec fn unanswered<V>(pairs: Seq<(SignalName, SignalName)>, got: Seq<Option<V>>) -> Seq<Seq<char>>
    decreases pairs.len(),
{
    if pairs.len() == 0 || got.len() == 0 {
        Seq::empty()
    } else {
        let rest = unanswered(pairs.drop_last(), got.drop_last());
        match got.last() {
            Some(v) => rest,
            None => rest.push(pairs.last().0@),
        }
    }
}

/// The index of the first entry named `dest`, if any.
pub open spec fn first_named<V>(s: Seq<(SignalName, V)>, dest: Seq<char>, i: int) -> bool {
    &&& 0 <= i < s.len()
    &&& s[i].0@ == dest
    &&& forall|j: int| 0 <= j < i ==> s[j].0@ != dest
}

fn lookup<V: Copy>(entries: &Vec<(SignalName, V)>, dest: &SignalName) -> (r: Option<V>)
    ensures
        r is Some <==> exists|i: int| 0 <= i < entries@.len() && entries@[i].0@ == dest@,
        r matches Some(v) ==> exists|i: int| first_named(entries@, dest@, i) && entries@[i].1 == v,
{
    let mut i: usize = 0;
    while i < entries.len()
        invariant
            i <= entries@.len(),
            forall|j: int| 0 <= j < i ==> entries@[j].0@ != dest@,
        decreases entries@.len() - i,
    {
        if entries[i].0.same_as(dest) {
            assert(first_named(entries@, dest@, i as int));
            return Some(entries[i].1);
        }
        i += 1;
    }
    None
}

impl<V> BoundaryExchangePacket<V> {
    /// Whether every configured pair produced a value.
    pub fn is_complete(&self) -> (b: bool)
        ensures
            b == (self.missing_sources@.len() == 0),
    {
        self.missing_sources.len() == 0
    }
}

impl<V: Copy> BoundaryExchangePacket<V> {
    /// The value delivered to the digital input `dest` (the first entry of
    /// that name).
    pub fn analog_to_digital_value(&self, dest: &SignalName) -> (r: Option<V>)
        ensures
            r is Some <==> exists|i: int| 0 <= i < self.analog_to_digital@.len() && self.analog_to_digital@[i].0@ == dest@,
            r matches Some(v) ==> exists|i: int| first_named(self.analog_to_digital@, dest@, i) && self.analog_to_digital@[i].1 == v,
    {
        lookup(&self.analog_to_digital, dest)
    }

    /// The value delivered to the analog input `dest` (the first entry of
    /// that name).
    pub fn digital_to_analog_value(&self, dest: &SignalName) -> (r: Option<V>)
        ensures
            r is Some <==> exists|i: int| 0 <= i < self.digital_to_analog@.len() && self.digital_to_analog@[i].0@ == dest@,
            r matches Some(v) ==> exists|i: int| first_named(self.digital_to_analog@, dest@, i) && self.digital_to_analog@[i].1 == v,
    {
        lookup(&self.digital_to_analog, dest)
    }
}

/// Every configured pair is accounted for exactly once: either its value is
/// delivered or its source is reported missing.
pub proof fn law_every_pair_accounted<V>(pairs: Seq<(SignalName, SignalName)>, got: Seq<Option<V>>)
    requires
        got.len() == pairs.len(),
    ensures
        routed(pairs, got).len() + unanswered(pairs, got).len() == pairs.len(),
    decreases pairs.len(),
{
    if pairs.len() > 0 {
        law_every_pair_accounted(pairs.drop_last(), got.drop_last());
    }
}

/// A source's value reaches its configured destination unchanged; a source
/// without a value is reported missing, never given a default.
pub proof fn law_values_reach_destinations<V>(pairs: Seq<(SignalName, SignalName)>, got: Seq<Option<V>>, k: int)
    requires
        got.len() == pairs.len(),
        0 <= k < pairs.len(),
    ensures
        got[k] matches Some(v) ==> routed(pairs, got).contains((pairs[k].1@, v)),
        got[k] is None ==> unanswered(pairs, got).contains(pairs[k].0@),
    decreases pairs.len(),
{
    let n = pairs.len() - 1;
    if k < n {
        law_values_reach_destinations(pairs.drop_last(), got.drop_last(), k);
        let r0 = routed(pairs.drop_last(), got.drop_last());
        let u0 = unanswered(pairs.drop_last(), got.drop_last());
        assert(pairs.drop_last()[k] == pairs[k]);
        assert(got.drop_last()[k] == got[k]);
        match got.last() {
            Some(w) => {
                if let Some(v) = got[k] {
                    let idx = choose|i: int| 0 <= i < r0.len() && r0[i] == (pairs[k].1@, v);
                    assert(r0.push((pairs.last().1@, w))[idx] == (pairs[k].1@, v));
                }
            },
            None => {
                if got[k] is None {
                    let idx = choose|i: int| 0 <= i < u0.len() && u0[i] == pairs[k].0@;
                    assert(u0.push(pairs.last().0@)[idx] == pairs[k].0@);
                }
            },
        }
    } else {
        let r0 = routed(pairs.drop_last(), got.drop_last());
        let u0 = unanswered(pairs.drop_last(), got.drop_last());
        match got.last() {
            Some(w) => {
                assert(r0.push((pairs.last().1@, w))[r0.len() as int] == (pairs.last().1@, w));
            },
            None => {
                assert(u0.push(pairs.last().0@)[u0.len() as int] == pairs.last().0@);
            },
        }
    }
}

/// Why an exchanger could not be built.
#[derive(Debug, Clone, Copy, PartialEq, Eq, Structural)]
pub enum BoundaryExchangerError {
    /// The requested mode is not offered (linear interpolation).
    UnsupportedMode(BoundaryInterpolationMode),
}

/// The human-readable text of an exchanger error.
pub open spec fn exchanger_error_text(e: BoundaryExchangerError) -> Seq<char> {
    match e {
        BoundaryExchangerError::UnsupportedMode(m) =>
            "boundary interpolation mode "@ + mode_text(m)
                + " is not supported by the zero-order-hold exchanger (tasks.md item #45); linear interpolation is implemented by item #46"@,
    }
}

impl BoundaryExchangerError {
    /// The human-readable message for this error.
    pub fn to_string(&self) -> (s: String)
        ensures
            s@ == exchanger_error_text(*self),
    {
        match self {
            BoundaryExchangerError::UnsupportedMode(m) => {
                let mut s = String::from_str("boundary interpolation mode ");
                let ms = m.to_string();
                push_str(&mut s, ms.as_str());
                push_str(
                    &mut s,
                    " is not supported by the zero-order-hold exchanger (tasks.md item #45); linear interpolation is implemented by item #46",
                );
                proof {
                    reveal_strlit("boundary interpolation mode ");
                }
                assert(s@ =~= exchanger_error_text(*self));
                s
            },
        }
    }
}

/// Exchanges boundary values between the kernels with zero-order hold.
#[derive(Debug, PartialEq)]
pub struct BoundarySignalExchanger {
    boundaries: BoundarySignals,
    mode: BoundaryInterpolationMode,
}

impl View for BoundarySignalExchanger {
    type V = BoundarySignals;

    closed spec fn view(&self) -> BoundarySignals {
        self.boundaries
    }
}

impl BoundarySignalExchanger {
    #[verifier::type_invariant]
    spec fn holds_zero_order(self) -> bool {
        self.mode == BoundaryInterpolationMode::ZeroOrderHold
    }

    /// A zero-order-hold exchanger over `boundaries`.
    pub fn zero_order_hold(boundaries: BoundarySignals) -> (e: BoundarySignalExchanger)
        ensures
            e@ == boundaries,
    {
        BoundarySignalExchanger { boundaries, mode: BoundaryInterpolationMode::ZeroOrderHold }
    }

    /// An exchanger in `mode`; linear interpolation is refused.
    pub fn with_mode(boundaries: BoundarySignals, mode: BoundaryInterpolationMode) -> (r: Result<
        BoundarySignalExchanger,
        BoundaryExchangerError,
    >)
        ensures
            r is Ok <==> mode == BoundaryInterpolationMode::ZeroOrderHold,
            r matches Ok(e) ==> e@ == boundaries,
            r matches Err(err) ==> err == BoundaryExchangerError::UnsupportedMode(mode),
    {
        match mode {
            BoundaryInterpolationMode::ZeroOrderHold => Ok(
                BoundarySignalExchanger { boundaries, mode: BoundaryInterpolationMode::ZeroOrderHold },
            ),
            BoundaryInterpolationMode::Linear => Err(BoundaryExchangerError::UnsupportedMode(mode)),
        }
    }

    /// The configured boundary pairs.
    pub fn boundaries(&self) -> (b: &BoundarySignals)
        ensures
            *b == self@,
    {
        &self.boundaries
    }

    /// The mode: always zero-order hold.
    pub fn mode(&self) -> (m: BoundaryInterpolationMode)
        ensures
            m == BoundaryInterpolationMode::ZeroOrderHold,
    {
        proof {
            use_type_invariant(self);
        }
        self.mode
    }

    /// Exchanges values at a synchronization point: asks the analog side for
    /// the latest value of each analog source and the digital side for that
    /// of each digital source, in configuration order, and routes the
    /// answers with [`assemble_packet`].
    pub fn exchange<V, A: AnalogValueProvider<V>, D: DigitalValueProvider<V>>(
        &self,
        analog: &A,
        digital: &D,
    ) -> (p: BoundaryExchangePacket<V>)
        ensures
            packet_routes(
                p,
                self@,
                analog_answers(*analog, self@.analog_to_digital@),
                digital_answers(*digital, self@.digital_to_analog@),
            ),
    {
        let a2d = &self.boundaries.analog_to_digital;
        let d2a = &self.boundaries.digital_to_analog;
        let mut ga: Vec<Option<V>> = Vec::new();
        let mut i: usize = 0;
        while i < a2d.len()
            invariant
                i <= a2d@.len(),
                ga@.len() == i,
                forall|j: int| 0 <= j < i ==> ga@[j] == analog.analog_value(a2d@[j].0),
            decreases a2d@.len() - i,
        {
            ga.push(analog.last_analog_value(&a2d[i].0));
            i += 1;
        }
        let mut gd: Vec<Option<V>> = Vec::new();
        let mut k: usize = 0;
        while k < d2a.len()
            invariant
                k <= d2a@.len(),
                gd@.len() == k,
                forall|j: int| 0 <= j < k ==> gd@[j] == digital.digital_value(d2a@[j].0),
            decreases d2a@.len() - k,
        {
            gd.push(digital.last_digital_value(&d2a[k].0));
            k += 1;
        }
        assert(ga@ =~= analog_answers(*analog, a2d@));
        assert(gd@ =~= digital_answers(*digital, d2a@));
        assemble_packet(&self.boundaries, ga, gd)
    }
}

/// `p` delivers what the sources answered: `ga` for the analog sources and
/// `gd` for the digital ones (parallel to the configured pairs).
pub open spec fn packet_routes<V>(p: BoundaryExchangePacket<V>, b: BoundarySignals, ga: Seq<Option<V>>, gd: Seq<Option<V>>) -> bool {
    &&& entries_view(p.analog_to_digital@) == routed(b.analog_to_digital@, ga)
    &&& entries_view(p.digital_to_analog@) == routed(b.digital_to_analog@, gd)
    &&& names_view(p.missing_sources@) == unanswered(b.analog_to_digital@, ga) + unanswered(b.digital_to_analog@, gd)
}

/// Routes the sources' answers: each analog source's value goes to its
/// digital destination and each digital source's value to its analog
/// destination, in configuration order; sources that answered `None` are
/// listed as missing (analog sources first), never given a default.
pub fn assemble_packet<V>(boundaries: &BoundarySignals, ga: Vec<Option<V>>, gd: Vec<Option<V>>) -> (p: BoundaryExchangePacket<V>)
    requires
        ga@.len() == boundaries.analog_to_digital@.len(),
        gd@.len() == boundaries.digital_to_analog@.len(),
    ensures
        packet_routes(p, *boundaries, ga@, gd@),
{
    let a2d = &boundaries.analog_to_digital;
    let d2a = &boundaries.digital_to_analog;
    let ghost sa = ga@;
    let ghost sd = gd@;
    let mut analog_to_digital: Vec<(SignalName, V)> = Vec::new();
    let mut digital_to_analog: Vec<(SignalName, V)> = Vec::new();
    let mut missing_sources: Vec<SignalName> = Vec::new();
    let mut answers_a = ga;
    let mut answers_d = gd;
    assert(answers_a@ =~= sa.subrange(0, sa.len() as int));
    assert(answers_d@ =~= sd.subrange(0, sd.len() as int));
    let mut i: usize = 0;
    while i < a2d.len()
        invariant
            i <= a2d@.len(),
            sa.len() == a2d@.len(),
            answers_a@.len() == a2d@.len() - i,
            answers_a@ == sa.subrange(i as int, sa.len() as int),
            entries_view(analog_to_digital@) == routed(a2d@.subrange(0, i as int), sa.subrange(0, i as int)),
            names_view(missing_sources@) == unanswered(a2d@.subrange(0, i as int), sa.subrange(0, i as int)),
        decreases a2d@.len() - i,
    {
        let got = answers_a.remove(0);
        assert(got == sa[i as int]);
        assert(answers_a@ =~= sa.subrange(i + 1, sa.len() as int));
        assert(a2d@.subrange(0, i + 1).drop_last() =~= a2d@.subrange(0, i as int));
        assert(sa.subrange(0, i + 1).drop_last() =~= sa.subrange(0, i as int));
        match got {
            Some(v) => {
                let dest = a2d[i].1.duplicate();
                analog_to_digital.push((dest, v));
                assert(entries_view(analog_to_digital@) =~= routed(a2d@.subrange(0, i as int), sa.subrange(0, i as int)).push((a2d@[i as int].1@, v)));
            },
            None => {
                let src = a2d[i].0.duplicate();
                missing_sources.push(src);
                assert(names_view(missing_sources@) =~= unanswered(a2d@.subrange(0, i as int), sa.subrange(0, i as int)).push(a2d@[i as int].0@));
            },
        }
        i += 1;
    }
    assert(a2d@.subrange(0, a2d@.len() as int) =~= a2d@);
    assert(sa.subrange(0, sa.len() as int) =~= sa);
    let ghost missing_a = missing_sources@;
    let mut k: usize = 0;
    while k < d2a.len()
        invariant
            k <= d2a@.len(),
            sd.len() == d2a@.len(),
            answers_d@.len() == d2a@.len() - k,
            answers_d@ == sd.subrange(k as int, sd.len() as int),
            entries_view(digital_to_analog@) == routed(d2a@.subrange(0, k as int), sd.subrange(0, k as int)),
            missing_sources@.len() >= missing_a.len(),
            missing_sources@.subrange(0, missing_a.len() as int) == missing_a,
            names_view(missing_sources@.subrange(missing_a.len() as int, missing_sources@.len() as int))
                == unanswered(d2a@.subrange(0, k as int), sd.subrange(0, k as int)),
        decreases d2a@.len() - k,
    {
        let got = answers_d.remove(0);
        assert(got == sd[k as int]);
        assert(answers_d@ =~= sd.subrange(k + 1, sd.len() as int));
        let ghost prev_missing = missing_sources@;
        assert(d2a@.subrange(0, k + 1).drop_last() =~= d2a@.subrange(0, k as int));
        assert(sd.subrange(0, k + 1).drop_last() =~= sd.subrange(0, k as int));
        match got {
            Some(v) => {
                let dest = d2a[k].1.duplicate();
                digital_to_analog.push((dest, v));
                assert(entries_view(digital_to_analog@) =~= routed(d2a@.subrange(0, k as int), sd.subrange(0, k as int)).push((d2a@[k as int].1@, v)));
            },
            None => {
                let src = d2a[k].0.duplicate();
                missing_sources.push(src);
                assert(missing_sources@.subrange(0, missing_a.len() as int) =~= prev_missing.subrange(0, missing_a.len() as int));
                assert(missing_sources@.subrange(missing_a.len() as int, missing_sources@.len() as int)
                    =~= prev_missing.subrange(missing_a.len() as int, prev_missing.len() as int).push(src));
                assert(names_view(missing_sources@.subrange(missing_a.len() as int, missing_sources@.len() as int))
                    =~= unanswered(d2a@.subrange(0, k as int), sd.subrange(0, k as int)).push(d2a@[k as int].0@));
            },
        }
        k += 1;
    }
    assert(d2a@.subrange(0, d2a@.len() as int) =~= d2a@);
    assert(sd.subrange(0, sd.len() as int) =~= sd);
    assert(missing_sources@ =~= missing_a + missing_sources@.subrange(missing_a.len() as int, missing_sources@.len() as int));
    assert(names_view(missing_sources@) =~= names_view(missing_a) + names_view(missing_sources@.subrange(missing_a.len() as int, missing_sources@.len() as int)));
    BoundaryExchangePacket { analog_to_digital, digital_to_analog, missing_sources }
}

} // verus!
