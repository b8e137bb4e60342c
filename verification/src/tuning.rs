//! Tunings: what every tuning can be asked, three tunings held by their
//! parameters, and the table of pitches by MIDI note.

use vstd::prelude::*;
use vstd::slice::{slice_subrange, slice_to_vec};
use crate::cycle::{locate, CyclePosition};
use crate::{Cents, Hz, A440};

verus! {

/// How many notes a MIDI tuning holds: the notes 0 to 126.
pub const MIDI_NOTES: usize = 127;

/// A tuning gives a pitch to steps, which are counted from a reference.
///
/// `pitch(0)` should be the same as `Some(reference_pitch())`.
///
/// An implementation that is verified says so in `obeys_pitch_spec` and
/// gives its pitches in `pitch_at`; its methods are then held to that. One
/// written outside verified code keeps both defaults, and nothing is
/// claimed of it but what its `pitch` answers.
pub trait Tuning {
    /// Whether `reference_pitch` and `pitch` are known to follow `pitch_at`.
    open spec fn obeys_pitch_spec() -> bool {
        false
    }

    /// The pitch of each step, absent where the tuning has none. It says
    /// nothing unless `obeys_pitch_spec` holds.
    open spec fn pitch_at(&self, step: int) -> Option<Hz> {
        None
    }

    /// Returns the reference pitch of the tuning, the pitch of step 0.
    fn reference_pitch(&self) -> (hz: Hz)
        ensures
            Self::obeys_pitch_spec() ==> self.pitch_at(0) == Some(hz),
    ;

    /// Returns the pitch of a step.
    fn pitch(&self, step: i32) -> (hz: Option<Hz>)
        ensures
            Self::obeys_pitch_spec() ==> hz == self.pitch_at(step as int),
    ;

    /// Returns the pitches at the two ends of the interval from one step to
    /// another, the pitch of `from` first. They are absent if either step
    /// has no pitch.
    fn interval_ends(&self, from: i32, to: i32) -> (ends: Option<(Hz, Hz)>)
        ensures
            Self::obeys_pitch_spec() ==> ends == ends_of(
                self.pitch_at(from as int),
                self.pitch_at(to as int),
            ),
            ends matches Some((low, high)) ==> {
                &&& call_ensures(Self::pitch, (self, from), Some(low))
                &&& call_ensures(Self::pitch, (self, to), Some(high))
            },
            ends is None ==> {
                ||| call_ensures(Self::pitch, (self, from), None)
                ||| call_ensures(Self::pitch, (self, to), None)
            },
    {
        match (self.pitch(from), self.pitch(to)) {
            (Some(low), Some(high)) => Some((low, high)),
            _ => None,
        }
    }
}

/// Two pitches as a pair, absent if either is.
pub open spec fn ends_of(low: Option<Hz>, high: Option<Hz>) -> Option<(Hz, Hz)> {
    match (low, high) {
        (Some(low), Some(high)) => Some((low, high)),
        _ => None,
    }
}

/// Equal division of 2:1.
///
/// Step `n` lies `n` times the `cardinality`-th part of 1200 cents above
/// the reference. A cardinality of 0 divides nothing and should not be
/// used.
#[derive(Debug, Clone, Copy)]
pub struct Edo {
    cardinality: u16,
    reference: Hz,
}

impl Edo {
    /// The number of steps in 2:1.
    pub closed spec fn spec_cardinality(&self) -> u16 {
        self.cardinality
    }

    /// The pitch of step 0.
    pub closed spec fn spec_reference_pitch(&self) -> Hz {
        self.reference
    }

    /// Creates a new EDO with given cardinality and reference pitch.
    pub fn new(cardinality: u16, reference: Hz) -> (edo: Self)
        ensures
            edo.cardinality() == cardinality,
            edo.reference_pitch() == reference,
    {
        Edo { cardinality, reference }
    }

    /// Creates a new EDO with given cardinality and 440 Hz as reference
    /// pitch.
    pub fn new_a440(cardinality: u16) -> (edo: Self)
        ensures
            edo.cardinality() == cardinality,
            edo.reference_pitch() == Hz(A440),
    {
        Self::new(cardinality, Hz(A440))
    }

    /// Returns the number of steps in 2:1.
    #[verifier::when_used_as_spec(spec_cardinality)]
    pub fn cardinality(&self) -> (cardinality: u16)
        ensures
            cardinality == self.cardinality(),
    {
        self.cardinality
    }

    /// Returns the reference pitch of the tuning.
    #[verifier::when_used_as_spec(spec_reference_pitch)]
    pub fn reference_pitch(&self) -> (hz: Hz)
        ensures
            hz == self.reference_pitch(),
    {
        self.reference
    }

    /// Returns how many steps the interval from one step to another spans,
    /// negative where it falls. The interval is that many times the
    /// `cardinality`-th part of 1200 cents.
    pub fn interval_steps(&self, from: i32, to: i32) -> (steps: i64)
        ensures
            steps == to - from,
    {
        to as i64 - from as i64
    }
}

/// Tuning with equal steps.
///
/// Step `n` lies `n` times the step above the reference.
#[derive(Debug, Clone, Copy)]
pub struct EqualSteps {
    step: Cents,
    reference: Hz,
}

impl EqualSteps {
    /// The size of one step.
    pub closed spec fn spec_step(&self) -> Cents {
        self.step
    }

    /// The pitch of step 0.
    pub closed spec fn spec_reference_pitch(&self) -> Hz {
        self.reference
    }

    /// Creates a new tuning with step size `step` and given reference pitch.
    pub fn new(step: Cents, reference: Hz) -> (tuning: Self)
        ensures
            tuning.step() == step,
            tuning.reference_pitch() == reference,
    {
        EqualSteps { step, reference }
    }

    /// Creates a new tuning with given step size and 440 Hz as reference
    /// pitch.
    pub fn new_a440(step: Cents) -> (tuning: Self)
        ensures
            tuning.step() == step,
            tuning.reference_pitch() == Hz(A440),
    {
        Self::new(step, Hz(A440))
    }

    /// Returns the size of one step.
    #[verifier::when_used_as_spec(spec_step)]
    pub fn step(&self) -> (step: Cents)
        ensures
            step == self.step(),
    {
        self.step
    }

    /// Returns the reference pitch of the tuning.
    #[verifier::when_used_as_spec(spec_reference_pitch)]
    pub fn reference_pitch(&self) -> (hz: Hz)
        ensures
            hz == self.reference_pitch(),
    {
        self.reference
    }
}

/// What the pitch of a step of a cyclic tuning is made of: the reference
/// pitch is to be raised by these.
#[derive(Clone, Copy, Debug, PartialEq, Eq, Structural)]
pub enum PitchTerms {
    /// The reference pitch itself.
    Reference,
    /// `periods` times `period`.
    Periods { period: Cents, periods: i32 },
    /// `periods` times `period`, and `interval`.
    Above { period: Cents, periods: i32, interval: Cents },
    /// `periods` times `period`, and `interval` less `period`.
    Below { period: Cents, periods: i32, interval: Cents },
}

impl PitchTerms {
    /// By how much the terms raise the reference, where `size` gives the
    /// exact size of each interval.
    pub open spec fn offset(self, size: spec_fn(Cents) -> int) -> int {
        match self {
            PitchTerms::Reference => 0,
            PitchTerms::Periods { period, periods } => periods * size(period),
            PitchTerms::Above { period, periods, interval } => periods * size(period) + size(
                interval,
            ),
            PitchTerms::Below { period, periods, interval } => periods * size(period) + (size(
                interval,
            ) - size(period)),
        }
    }
}

/// The terms of the pitch of `step` in a cycle that stores `steps`: the
/// stored intervals that the position of the step names.
pub open spec fn terms_of(steps: Seq<Cents>, step: int) -> PitchTerms {
    match crate::cycle::position_of(steps.len(), step) {
        CyclePosition::Origin => PitchTerms::Reference,
        CyclePosition::Boundary { periods } => PitchTerms::Periods {
            period: steps.last(),
            periods,
        },
        CyclePosition::Above { periods, degree } => PitchTerms::Above {
            period: steps.last(),
            periods,
            interval: steps[degree as int],
        },
        CyclePosition::Below { periods, degree } => PitchTerms::Below {
            period: steps.last(),
            periods,
            interval: steps[degree as int],
        },
    }
}

/// The terms of a step raise the reference by as much as the step lies from
/// it in the cycle walked through step by step, whatever the exact sizes of
/// the stored intervals are.
pub proof fn lemma_terms_follow_layout(steps: Seq<Cents>, step: int, size: spec_fn(Cents) -> int)
    requires
        steps.len() <= usize::MAX,
        i32::MIN <= step <= i32::MAX,
    ensures
        terms_of(steps, step).offset(size) == crate::cycle::walked_offset(
            steps.map_values(size),
            step,
        ),
{
    let cents = steps.map_values(size);
    crate::cycle::lemma_position_in_cycle(steps.len(), step);
    crate::cycle::lemma_position_follows_layout(cents, step);
}

/// Periodicity: the pitch of the step one cycle length after `step` is the
/// pitch of `step` raised by one period, for negative steps as for positive
/// ones and whatever the exact sizes of the stored intervals are.
pub proof fn lemma_terms_periodic(steps: Seq<Cents>, step: int, size: spec_fn(Cents) -> int)
    requires
        0 < steps.len() <= usize::MAX,
        i32::MIN <= step,
        step + steps.len() <= i32::MAX,
    ensures
        terms_of(steps, step + steps.len()).offset(size) == terms_of(steps, step).offset(size)
            + size(steps.last()),
{
    let cents = steps.map_values(size);
    crate::cycle::lemma_position_in_cycle(steps.len(), step);
    crate::cycle::lemma_position_in_cycle(steps.len(), step + steps.len());
    crate::cycle::lemma_position_periodic(cents, step);
}

/// The pitch of step 0 is the reference pitch, raised by nothing.
pub proof fn lemma_terms_of_reference(steps: Seq<Cents>, size: spec_fn(Cents) -> int)
    requires
        steps.len() <= usize::MAX,
    ensures
        terms_of(steps, 0).offset(size) == 0,
{
    let cents = steps.map_values(size);
    crate::cycle::lemma_position_in_cycle(steps.len(), 0);
    crate::cycle::lemma_position_of_reference(cents);
}

/// A cyclic tuning is like a spiral: repeats while growing.
///
/// It holds the intervals from the start of the cycle to each later step
/// of it. The start itself, an interval of nothing, is left out, and the
/// last interval is the period by which the cycle repeats.
#[derive(Debug)]
pub struct CyclicTuning {
    steps: Vec<Cents>,
    reference: Hz,
}

impl View for CyclicTuning {
    type V = Seq<Cents>;

    /// The stored intervals, in their order.
    closed spec fn view(&self) -> Seq<Cents> {
        self.steps@
    }
}

impl Clone for CyclicTuning {
    /// Returns a tuning with the same intervals and reference pitch.
    fn clone(&self) -> (tuning: Self)
        ensures
            tuning@ == self@,
            tuning.reference_pitch() == self.reference_pitch(),
    {
        CyclicTuning { steps: slice_to_vec(self.steps.as_slice()), reference: self.reference }
    }
}

impl CyclicTuning {
    /// The pitch of step 0.
    pub closed spec fn spec_reference_pitch(&self) -> Hz {
        self.reference
    }

    /// Creates a cyclic tuning from cents.
    ///
    /// The interval of 0 cents should be excluded and the last interval is
    /// the period.
    pub fn from_cents(steps: &[Cents], reference: Hz) -> (tuning: Self)
        ensures
            tuning@ == steps@,
            tuning.reference_pitch() == reference,
    {
        CyclicTuning { steps: slice_to_vec(steps), reference }
    }

    /// Returns the reference pitch of the tuning.
    #[verifier::when_used_as_spec(spec_reference_pitch)]
    pub fn reference_pitch(&self) -> (hz: Hz)
        ensures
            hz == self.reference_pitch(),
    {
        self.reference
    }

    /// Returns the stored intervals.
    pub fn steps(&self) -> (steps: &[Cents])
        ensures
            steps@ == self@,
    {
        self.steps.as_slice()
    }

    /// Returns the period, the last of the stored intervals. An empty cycle
    /// has none.
    pub fn period(&self) -> (period: Option<Cents>)
        ensures
            period == if self@.len() == 0 {
                None
            } else {
                Some(self@.last())
            },
    {
        let len = self.steps.len();
        if len == 0 {
            None
        } else {
            Some(self.steps[len - 1])
        }
    }

    /// Finds where a step lies: how many periods from the reference, and
    /// at which stored interval further.
    pub fn position(&self, step: i32) -> (pos: CyclePosition)
        ensures
            pos == crate::cycle::position_of(self@.len(), step as int),
            crate::cycle::in_cycle(pos, self@.len()),
    {
        locate(self.steps.len(), step)
    }

    /// Returns what the pitch of a step is made of. The pitch is the
    /// reference pitch raised by these terms; every step has one.
    pub fn pitch_terms(&self, step: i32) -> (terms: PitchTerms)
        ensures
            terms == terms_of(self@, step as int),
    {
        let len = self.steps.len();
        match locate(len, step) {
            CyclePosition::Origin => PitchTerms::Reference,
            CyclePosition::Boundary { periods } => PitchTerms::Periods {
                period: self.steps[len - 1],
                periods,
            },
            CyclePosition::Above { periods, degree } => PitchTerms::Above {
                period: self.steps[len - 1],
                periods,
                interval: self.steps[degree],
            },
            CyclePosition::Below { periods, degree } => PitchTerms::Below {
                period: self.steps[len - 1],
                periods,
                interval: self.steps[degree],
            },
        }
    }
}

/// A map from MIDI notes to pitches.
///
/// This is what your synth should actually use.
#[derive(Debug)]
pub struct MidiTuning {
    pitches: Vec<Hz>,
}

impl View for MidiTuning {
    type V = Seq<Hz>;

    /// The pitches, by note.
    closed spec fn view(&self) -> Seq<Hz> {
        self.pitches@
    }
}

/// The pitches of a tuning at the steps of the MIDI notes, where the note
/// `refkey` is step 0. They are absent if any of those steps has no pitch.
pub open spec fn sampled<T: Tuning>(tuning: &T, refkey: int) -> Option<Seq<Hz>> {
    if forall|step: int|
        -refkey <= step < MIDI_NOTES - refkey ==> (#[trigger] tuning.pitch_at(step)) is Some {
        Some(Seq::new(MIDI_NOTES as nat, |note: int| tuning.pitch_at(note - refkey).unwrap()))
    } else {
        None
    }
}

impl MidiTuning {
    #[verifier::type_invariant]
    spec fn holds_every_note(&self) -> bool {
        self.pitches@.len() == MIDI_NOTES
    }

    /// Linearly maps the tuning to MIDI steps. `refkey` is the MIDI note of
    /// the reference pitch.
    ///
    /// If the tuning has no pitch for one of the steps there is no table.
    pub fn from_tuning<T: Tuning>(tuning: T, refkey: u8) -> (table: Option<Self>)
        requires
            refkey < MIDI_NOTES,
        ensures
            table matches Some(t) ==> {
                &&& t@.len() == MIDI_NOTES
                &&& forall|note: int|
                    0 <= note < MIDI_NOTES ==> call_ensures(
                        T::pitch,
                        (&tuning, (note - refkey) as i32),
                        Some(#[trigger] t@[note]),
                    )
            },
            table is None ==> exists|note: int|
                0 <= note < MIDI_NOTES && #[trigger] call_ensures(
                    T::pitch,
                    (&tuning, (note - refkey) as i32),
                    None,
                ),
            T::obeys_pitch_spec() ==> match table {
                Some(t) => sampled(&tuning, refkey as int) == Some(t@),
                None => sampled(&tuning, refkey as int) is None,
            },
    {
        let mut pitches: Vec<Hz> = Vec::with_capacity(MIDI_NOTES);
        let mut note: usize = 0;
        while note < MIDI_NOTES
            invariant
                refkey < MIDI_NOTES,
                note <= MIDI_NOTES,
                pitches@.len() == note,
                forall|k: int|
                    0 <= k < note ==> call_ensures(
                        T::pitch,
                        (&tuning, (k - refkey) as i32),
                        Some(#[trigger] pitches@[k]),
                    ),
            decreases MIDI_NOTES - note,
        {
            let step: i32 = note as i32 - refkey as i32;
            match tuning.pitch(step) {
                Some(hz) => pitches.push(hz),
                None => {
                    return None;
                },
            }
            note += 1;
        }
        proof {
            if T::obeys_pitch_spec() {
                assert(sampled(&tuning, refkey as int) == Some(pitches@)) by {
                    assert forall|step: int| -refkey <= step < MIDI_NOTES - refkey implies (
                    #[trigger] tuning.pitch_at(step)) is Some by {
                        assert(tuning.pitch_at(step) == Some(pitches@[step + refkey]));
                    }
                    assert(pitches@ =~= Seq::new(
                        MIDI_NOTES as nat,
                        |k: int| tuning.pitch_at(k - refkey).unwrap(),
                    ));
                }
            }
        }
        Some(MidiTuning { pitches })
    }

    /// Returns what the usual table is made from: 12 EDO over 440 Hz, and
    /// the MIDI note 69 for its reference pitch.
    pub fn default_source() -> (source: (Edo, u8))
        ensures
            source.0.cardinality() == 12,
            source.0.reference_pitch() == Hz(A440),
            source.1 == 69,
    {
        (Edo::new_a440(12), 69)
    }

    /// Creates `MidiTuning` from a slice of pitches: from the first 127 of
    /// them. With fewer there is no table.
    pub fn from_pitches(hzs: &[Hz]) -> (table: Option<Self>)
        ensures
            table is Some <==> hzs@.len() >= MIDI_NOTES,
            table matches Some(t) ==> {
                &&& t@.len() == MIDI_NOTES
                &&& t@ == hzs@.subrange(0, MIDI_NOTES as int)
            },
    {
        if hzs.len() < MIDI_NOTES {
            return None;
        }
        let pitches = slice_to_vec(slice_subrange(hzs, 0, MIDI_NOTES));
        Some(MidiTuning { pitches })
    }
}

impl Clone for MidiTuning {
    /// Returns a table with the same pitches.
    fn clone(&self) -> (table: Self)
        ensures
            table@ == self@,
    {
        proof {
            use_type_invariant(self);
        }
        MidiTuning { pitches: slice_to_vec(self.pitches.as_slice()) }
    }
}

impl Tuning for MidiTuning {
    open spec fn obeys_pitch_spec() -> bool {
        true
    }

    /// The notes 0 to 126 have the pitches of the table, other steps none.
    open spec fn pitch_at(&self, step: int) -> Option<Hz> {
        if 0 <= step < MIDI_NOTES {
            Some(self@[step])
        } else {
            None
        }
    }

    /// Returns the pitch of note 0.
    fn reference_pitch(&self) -> (hz: Hz)
        ensures
            hz == self@[0],
    {
        proof {
            use_type_invariant(self);
        }
        self.pitches[0]
    }

    /// Returns the pitch of a note, and none for a step that is no note.
    fn pitch(&self, step: i32) -> (hz: Option<Hz>)
        ensures
            hz is Some <==> 0 <= step < MIDI_NOTES,
            hz matches Some(pitch) ==> pitch == self@[step as int],
    {
        proof {
            use_type_invariant(self);
        }
        if step < 0 || step >= MIDI_NOTES as i32 {
            return None;
        }
        Some(self.pitches[step as usize])
    }
}

impl std::ops::Index<usize> for MidiTuning {
    type Output = Hz;

    /// Returns the pitch of a note, which must be one of the notes 0 to 126.
    fn index(&self, index: usize) -> (hz: &Hz)
        ensures
            *hz == self@[index as int],
    {
        proof {
            use_type_invariant(self);
        }
        &self.pitches[index]
    }
}

impl vstd::std_specs::core::IndexSpecImpl<usize> for MidiTuning {
    open spec fn index_req(&self, index: &usize) -> bool {
        *index < MIDI_NOTES
    }
}

} // verus!
