//! The named continuous control values of the synthesizer.
//!
//! Each value is a fixed-point number in thousandths: `0` is the floor,
//! `PARAM_MAX` (one thousand) is the ceiling. Time parameters read as
//! milliseconds, level parameters as parts per thousand of full scale.
use vstd::prelude::*;

verus! {

/// Ceiling of every parameter.
pub const PARAM_MAX: u16 = 1000;

/// Amount by which one increment or decrement moves a parameter.
pub const PARAM_STEP: u16 = 10;

/// Number of parameters in the store.
pub const NUM_PARAMS: usize = 16;

/// The parameters, in the order the control pages list them.
#[derive(Clone, Copy, Debug, PartialEq, Eq, Structural)]
pub enum Parameter {
    Attack,
    Decay,
    Sustain,
    Release,
    Control1,
    Control2,
    Control3,
    Control4,
    FilterCutoff,
    FilterType,
    VibratoRate,
    VibratoDepth,
    Reverb,
    Delay,
    Chorus,
    Level,
}

/// Which way a parameter moves.
#[derive(Clone, Copy, Debug, PartialEq, Eq, Structural)]
pub enum Direction {
    Increment,
    Decrement,
}

impl Parameter {
    /// The position of the parameter in the store.
    pub open spec fn spec_index(self) -> int {
        match self {
            Parameter::Attack => 0,
            Parameter::Decay => 1,
            Parameter::Sustain => 2,
            Parameter::Release => 3,
            Parameter::Control1 => 4,
            Parameter::Control2 => 5,
            Parameter::Control3 => 6,
            Parameter::Control4 => 7,
            Parameter::FilterCutoff => 8,
            Parameter::FilterType => 9,
            Parameter::VibratoRate => 10,
            Parameter::VibratoDepth => 11,
            Parameter::Reverb => 12,
            Parameter::Delay => 13,
            Parameter::Chorus => 14,
            Parameter::Level => 15,
        }
    }

    /// The value the store starts with.
    pub open spec fn spec_default(self) -> u16 {
        match self {
            Parameter::Attack => 200,
            Parameter::Decay => 200,
            Parameter::Sustain => 900,
            Parameter::Release => 700,
            Parameter::Control1 => 500,
            Parameter::Control2 => 500,
            Parameter::Control3 => 500,
            Parameter::Control4 => 500,
            Parameter::FilterCutoff => 100,
            Parameter::FilterType => 100,
            Parameter::Level => 1000,
            _ => 0,
        }
    }

    /// The position of the parameter in the store.
    pub fn index(self) -> (r: usize)
        ensures
            r == self.spec_index(),
            r < NUM_PARAMS,
    {
        match self {
            Parameter::Attack => 0,
            Parameter::Decay => 1,
            Parameter::Sustain => 2,
            Parameter::Release => 3,
            Parameter::Control1 => 4,
            Parameter::Control2 => 5,
            Parameter::Control3 => 6,
            Parameter::Control4 => 7,
            Parameter::FilterCutoff => 8,
            Parameter::FilterType => 9,
            Parameter::VibratoRate => 10,
            Parameter::VibratoDepth => 11,
            Parameter::Reverb => 12,
            Parameter::Delay => 13,
            Parameter::Chorus => 14,
            Parameter::Level => 15,
        }
    }

    /// The parameter at position `i`, if there is one.
    pub fn from_index(i: u8) -> (r: Option<Parameter>)
        ensures
            r is Some <==> i < NUM_PARAMS,
            r matches Some(p) ==> p.spec_index() == i,
    {
        if i == 0 {
            Some(Parameter::Attack)
        } else if i == 1 {
            Some(Parameter::Decay)
        } else if i == 2 {
            Some(Parameter::Sustain)
        } else if i == 3 {
            Some(Parameter::Release)
        } else if i == 4 {
            Some(Parameter::Control1)
        } else if i == 5 {
            Some(Parameter::Control2)
        } else if i == 6 {
            Some(Parameter::Control3)
        } else if i == 7 {
            Some(Parameter::Control4)
        } else if i == 8 {
            Some(Parameter::FilterCutoff)
        } else if i == 9 {
            Some(Parameter::FilterType)
        } else if i == 10 {
            Some(Parameter::VibratoRate)
        } else if i == 11 {
            Some(Parameter::VibratoDepth)
        } else if i == 12 {
            Some(Parameter::Reverb)
        } else if i == 13 {
            Some(Parameter::Delay)
        } else if i == 14 {
            Some(Parameter::Chorus)
        } else if i == 15 {
            Some(Parameter::Level)
        } else {
            None
        }
    }

    /// The value the store starts with.
    pub fn default_value(self) -> (r: u16)
        ensures
            r == self.spec_default(),
    {
        match self {
            Parameter::Attack => 200,
            Parameter::Decay => 200,
            Parameter::Sustain => 900,
            Parameter::Release => 700,
            Parameter::Control1 => 500,
            Parameter::Control2 => 500,
            Parameter::Control3 => 500,
            Parameter::Control4 => 500,
            Parameter::FilterCutoff => 100,
            Parameter::FilterType => 100,
            Parameter::Level => 1000,
            _ => 0,
        }
    }
}

/// A value moved one step in direction `d`, held within `[0, PARAM_MAX]`.
pub open spec fn adjust_spec(v: int, d: Direction) -> int {
    match d {
        Direction::Increment => if v + PARAM_STEP > PARAM_MAX {
            PARAM_MAX as int
        } else {
            v + PARAM_STEP
        },
        Direction::Decrement => if v - PARAM_STEP < 0 {
            0
        } else {
            v - PARAM_STEP
        },
    }
}

/// A value moved `n` steps in direction `d`.
pub open spec fn adjust_times(v: int, d: Direction, n: nat) -> int
    decreases n,
{
    if n == 0 {
        v
    } else {
        adjust_spec(adjust_times(v, d, (n - 1) as nat), d)
    }
}

/// A value within the range of a parameter.
pub open spec fn in_range(v: int) -> bool {
    0 <= v <= PARAM_MAX
}

/// The named parameters and their current values.
pub struct ParameterStore {
    values: Vec<u16>,
}

impl View for ParameterStore {
    type V = Seq<u16>;

    closed spec fn view(&self) -> Seq<u16> {
        self.values@
    }
}

impl ParameterStore {
    /// One value per parameter, each within range.
    pub open spec fn wf(&self) -> bool {
        &&& self@.len() == NUM_PARAMS
        &&& forall|i: int| 0 <= i < NUM_PARAMS ==> in_range(#[trigger] self@[i] as int)
    }

    /// The current value of `p`.
    pub open spec fn spec_get(&self, p: Parameter) -> u16 {
        self@[p.spec_index()]
    }

    /// A store holding every parameter's default value.
    pub fn new() -> (r: ParameterStore)
        ensures
            r.wf(),
            forall|p: Parameter| #[trigger] r.spec_get(p) == p.spec_default(),
    {
        let mut values: Vec<u16> = Vec::new();
        let mut i: u8 = 0;
        while i < 16
            invariant
                i <= NUM_PARAMS,
                values@.len() == i,
                forall|j: int|
                    0 <= j < i ==> forall|p: Parameter|
                        p.spec_index() == j ==> #[trigger] values@[j] == p.spec_default(),
                forall|j: int| 0 <= j < i ==> in_range(#[trigger] values@[j] as int),
            decreases NUM_PARAMS - i,
        {
            let p = Parameter::from_index(i);
            match p {
                Some(p) => values.push(p.default_value()),
                None => {},
            }
            i = i + 1;
        }
        let r = ParameterStore { values };
        assert forall|p: Parameter| #[trigger] r.spec_get(p) == p.spec_default() by {
            let j = p.spec_index();
            assert(values@[j] == p.spec_default());
        }
        r
    }

    /// The current value of `p`.
    pub fn get(&self, p: Parameter) -> (r: u16)
        requires
            self.wf(),
        ensures
            r == self.spec_get(p),
            in_range(r as int),
    {
        self.values[p.index()]
    }

    /// Sets `p` to `v`, held at the ceiling if `v` is above it.
    pub fn set(&mut self, p: Parameter, v: u16)
        requires
            old(self).wf(),
        ensures
            final(self).wf(),
            final(self)@ == old(self)@.update(
                p.spec_index(),
                if v > PARAM_MAX {
                    PARAM_MAX
                } else {
                    v
                },
            ),
    {
        let v = if v > PARAM_MAX {
            PARAM_MAX
        } else {
            v
        };
        let i = p.index();
        self.values.set(i, v);
    }

    /// Moves `p` one step in direction `d`, held within range, and returns
    /// the new value.
    pub fn adjust(&mut self, p: Parameter, d: Direction) -> (r: u16)
        requires
            old(self).wf(),
        ensures
            final(self).wf(),
            r == adjust_spec(old(self).spec_get(p) as int, d),
            final(self)@ == old(self)@.update(p.spec_index(), r),
    {
        let i = p.index();
        let v = self.values[i];
        let r = match d {
            Direction::Increment => if v > PARAM_MAX - PARAM_STEP {
                PARAM_MAX
            } else {
                v + PARAM_STEP
            },
            Direction::Decrement => if v < PARAM_STEP {
                0
            } else {
                v - PARAM_STEP
            },
        };
        self.values.set(i, r);
        r
    }

    /// A copy of every value, in parameter order.
    pub fn snapshot(&self) -> (r: Vec<u16>)
        requires
            self.wf(),
        ensures
            r@ == self@,
    {
        self.values.clone()
    }
}

/// Moving a parameter keeps it within its range however many times it is
/// moved: repeated decrements from the floor stay at the floor, repeated
/// increments from the ceiling stay at the ceiling.
pub proof fn lemma_adjust_clamped(v: int, d: Direction, n: nat)
    requires
        in_range(v),
    ensures
        in_range(adjust_times(v, d, n)),
        v == 0 && d == Direction::Decrement ==> adjust_times(v, d, n) == 0,
        v == PARAM_MAX && d == Direction::Increment ==> adjust_times(v, d, n) == PARAM_MAX,
    decreases n,
{
    if n > 0 {
        lemma_adjust_clamped(v, d, (n - 1) as nat);
    }
}

} // verus!
