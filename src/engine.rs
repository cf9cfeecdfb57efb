//! The control plane of the audio engine: one slot per note, each idle,
//! sounding or releasing, and the commands that start and fade voices.
use vstd::prelude::*;
use crate::params::{adjust_spec, Parameter, ParameterStore};
use crate::router::EngineEvent;

verus! {

/// Number of MIDI notes, and of voice slots.
pub const NUM_NOTES: usize = 128;

/// Why a voice could not be built.
#[derive(Clone, Copy, Debug, PartialEq, Eq, Structural)]
pub enum VoiceError {
    /// The note lies outside the MIDI range.
    InvalidNote,
}

/// The settings a voice is built with, read from the parameter store when
/// its note starts.
#[derive(Clone, Copy, Debug, PartialEq, Eq, Structural)]
pub struct VoicePatch {
    pub note: u8,
    pub attack: u16,
    pub decay: u16,
    pub sustain: u16,
    pub vibrato_depth: u16,
    pub filter_cutoff: u16,
    pub filter_type: u16,
}

/// Where a voice is in its life.
#[derive(Clone, Copy, Debug, PartialEq, Eq, Structural)]
pub enum VoiceState {
    Sounding,
    /// Fading out; silent from time `until` on.
    Releasing { until: u64 },
}

/// An active voice: the identifier its graph was scheduled under, and its
/// state.
#[derive(Clone, Copy, Debug, PartialEq, Eq, Structural)]
pub struct Voice {
    pub id: u64,
    pub state: VoiceState,
}

/// What the render graph must do after an event.
#[derive(Clone, Copy, Debug, PartialEq, Eq, Structural)]
pub enum Command {
    /// Build a voice from `patch` and schedule it, with no end and a smooth
    /// fade-in, under identifier `voice`.
    Spawn { voice: u64, patch: VoicePatch },
    /// Make voice `voice` fade out over `release` milliseconds from now.
    Fade { voice: u64, release: u16 },
    /// Nothing changes in the render graph.
    Nothing,
}

/// The mathematical model of an `Engine`.
pub struct EngineModel {
    pub voices: Seq<Option<Voice>>,
    pub next_id: u64,
    pub params: Seq<u16>,
}

impl EngineModel {
    pub open spec fn get(self, p: Parameter) -> u16 {
        self.params[p.spec_index()]
    }
}

/// The patch for `note` under parameter values `params`.
pub open spec fn patch_spec(note: u8, params: Seq<u16>) -> VoicePatch {
    VoicePatch {
        note,
        attack: params[Parameter::Attack.spec_index()],
        decay: params[Parameter::Decay.spec_index()],
        sustain: params[Parameter::Sustain.spec_index()],
        vibrato_depth: params[Parameter::VibratoDepth.spec_index()],
        filter_cutoff: params[Parameter::FilterCutoff.spec_index()],
        filter_type: params[Parameter::FilterType.spec_index()],
    }
}

/// `a + b`, held at the largest `u64`.
pub open spec fn saturating_add(a: u64, b: u64) -> u64 {
    if a + b > u64::MAX {
        u64::MAX
    } else {
        (a + b) as u64
    }
}

/// A slot that holds a sounding voice.
pub open spec fn is_sounding(slot: Option<Voice>) -> bool {
    slot is Some && slot.unwrap().state == VoiceState::Sounding
}

/// The engine after event `ev` at time `now`, and what it answers.
///
/// A note-on for an idle or releasing note starts a new voice; for a
/// sounding note it does nothing, so a note never sounds twice. A note-off
/// for a sounding note starts its release; for any other note it does
/// nothing. A parameter change moves one parameter and touches no voice.
pub open spec fn apply_spec(m: EngineModel, ev: EngineEvent, now: u64) -> (
    EngineModel,
    Result<Command, VoiceError>,
) {
    match ev {
        EngineEvent::NoteOn(n) => {
            if n >= NUM_NOTES {
                (m, Err(VoiceError::InvalidNote))
            } else if is_sounding(m.voices[n as int]) {
                (m, Ok(Command::Nothing))
            } else {
                let voice = Voice { id: m.next_id, state: VoiceState::Sounding };
                (
                    EngineModel {
                        voices: m.voices.update(n as int, Some(voice)),
                        next_id: (if m.next_id == u64::MAX {
                            0
                        } else {
                            m.next_id + 1
                        }) as u64,
                        params: m.params,
                    },
                    Ok(Command::Spawn { voice: m.next_id, patch: patch_spec(n, m.params) }),
                )
            }
        },
        EngineEvent::NoteOff(n) => {
            if n < NUM_NOTES && is_sounding(m.voices[n as int]) {
                let v = m.voices[n as int].unwrap();
                let release = m.get(Parameter::Release);
                let voice = Voice {
                    id: v.id,
                    state: VoiceState::Releasing { until: saturating_add(now, release as u64) },
                };
                (
                    EngineModel { voices: m.voices.update(n as int, Some(voice)), ..m },
                    Ok(Command::Fade { voice: v.id, release }),
                )
            } else {
                (m, Ok(Command::Nothing))
            }
        },
        EngineEvent::ParameterChange(p, d) => {
            let v = adjust_spec(m.get(p) as int, d) as u16;
            (EngineModel { params: m.params.update(p.spec_index(), v), ..m }, Ok(Command::Nothing))
        },
    }
}

/// A slot after reclamation at time `now`: a voice whose release has ended
/// is gone.
pub open spec fn reclaim_slot(slot: Option<Voice>, now: u64) -> Option<Voice> {
    match slot {
        Some(v) => match v.state {
            VoiceState::Releasing { until } => if until <= now {
                None
            } else {
                slot
            },
            VoiceState::Sounding => slot,
        },
        None => None,
    }
}

/// The active voices, one slot per note, and the parameters new voices are
/// built from.
pub struct Engine {
    voices: Vec<Option<Voice>>,
    next_id: u64,
    params: ParameterStore,
}

impl View for Engine {
    type V = EngineModel;

    closed spec fn view(&self) -> EngineModel {
        EngineModel { voices: self.voices@, next_id: self.next_id, params: self.params@ }
    }
}

impl Engine {
    /// One slot per note, and a well-formed parameter store.
    pub closed spec fn wf(&self) -> bool {
        self.voices@.len() == NUM_NOTES && self.params.wf()
    }

    /// An engine with every note idle and every parameter at its default.
    pub fn new() -> (r: Engine)
        ensures
            r.wf(),
            r@.voices == Seq::new(NUM_NOTES as nat, |i: int| None::<Voice>),
            forall|p: Parameter| #[trigger] r@.get(p) == p.spec_default(),
            r@.params.len() == crate::params::NUM_PARAMS,
    {
        let mut voices: Vec<Option<Voice>> = Vec::new();
        let mut i: usize = 0;
        while i < NUM_NOTES
            invariant
                i <= NUM_NOTES,
                voices@ == Seq::new(i as nat, |j: int| None::<Voice>),
            decreases NUM_NOTES - i,
        {
            voices.push(None);
            i = i + 1;
            assert(voices@ =~= Seq::new(i as nat, |j: int| None::<Voice>));
        }
        let params = ParameterStore::new();
        let r = Engine { voices, next_id: 0, params };
        assert forall|p: Parameter| #[trigger] r@.get(p) == p.spec_default() by {
            assert(params.spec_get(p) == p.spec_default());
        }
        r
    }

    /// The voice slot of `note`.
    pub fn voice(&self, note: u8) -> (r: Option<Voice>)
        requires
            self.wf(),
        ensures
            note < NUM_NOTES ==> r == self@.voices[note as int],
            note >= NUM_NOTES ==> r is None,
    {
        if (note as usize) < NUM_NOTES {
            self.voices[note as usize]
        } else {
            None
        }
    }

    /// Number of notes that have a voice, sounding or releasing.
    pub fn active_count(&self) -> (r: usize)
        requires
            self.wf(),
        ensures
            r == self@.voices.filter(|s: Option<Voice>| s is Some).len(),
    {
        let mut count: usize = 0;
        let mut i: usize = 0;
        while i < NUM_NOTES
            invariant
                self.wf(),
                i <= NUM_NOTES,
                count == self@.voices.subrange(0, i as int).filter(
                    |s: Option<Voice>| s is Some,
                ).len(),
                count <= i,
            decreases NUM_NOTES - i,
        {
            let ghost s = self@.voices;
            proof {
                assert(s.subrange(0, i + 1) == s.subrange(0, i as int).push(s[i as int]));
                s.subrange(0, i as int).lemma_filter_push(s[i as int], |s: Option<Voice>| s is Some);
            }
            if self.voices[i].is_some() {
                count = count + 1;
            }
            i = i + 1;
        }
        assert(self@.voices.subrange(0, NUM_NOTES as int) == self@.voices);
        count
    }

    /// The current value of parameter `p`.
    pub fn parameter(&self, p: Parameter) -> (r: u16)
        requires
            self.wf(),
        ensures
            r == self@.get(p),
    {
        self.params.get(p)
    }

    /// The current value of every parameter, in parameter order.
    pub fn parameters(&self) -> (r: Vec<u16>)
        requires
            self.wf(),
        ensures
            r@ == self@.params,
    {
        self.params.snapshot()
    }

    /// Applies event `ev` at time `now` (in milliseconds) and says what the
    /// render graph must do; a note-on outside the MIDI range is refused and
    /// changes nothing.
    pub fn apply(&mut self, ev: EngineEvent, now: u64) -> (r: Result<Command, VoiceError>)
        requires
            old(self).wf(),
        ensures
            final(self).wf(),
            (final(self)@, r) == apply_spec(old(self)@, ev, now),
    {
        match ev {
            EngineEvent::NoteOn(n) => {
                if n as usize >= NUM_NOTES {
                    return Err(VoiceError::InvalidNote);
                }
                let i = n as usize;
                match self.voices[i] {
                    Some(v) => {
                        if v.state == VoiceState::Sounding {
                            return Ok(Command::Nothing);
                        }
                    },
                    None => {},
                }
                let patch = build_patch(n, &self.params);
                let id = self.next_id;
                self.voices.set(i, Some(Voice { id, state: VoiceState::Sounding }));
                self.next_id = if id == u64::MAX {
                    0
                } else {
                    id + 1
                };
                match patch {
                    Ok(patch) => Ok(Command::Spawn { voice: id, patch }),
                    Err(e) => Err(e),
                }
            },
            EngineEvent::NoteOff(n) => {
                if n as usize >= NUM_NOTES {
                    return Ok(Command::Nothing);
                }
                let i = n as usize;
                match self.voices[i] {
                    Some(v) => {
                        if v.state == VoiceState::Sounding {
                            let release = self.params.get(Parameter::Release);
                            let until = now.saturating_add(release as u64);
                            self.voices.set(
                                i,
                                Some(Voice { id: v.id, state: VoiceState::Releasing { until } }),
                            );
                            Ok(Command::Fade { voice: v.id, release })
                        } else {
                            Ok(Command::Nothing)
                        }
                    },
                    None => Ok(Command::Nothing),
                }
            },
            EngineEvent::ParameterChange(p, d) => {
                self.params.adjust(p, d);
                Ok(Command::Nothing)
            },
        }
    }

    /// Frees the slot of every voice whose release has ended by time `now`.
    pub fn reclaim(&mut self, now: u64)
        requires
            old(self).wf(),
        ensures
            final(self).wf(),
            final(self)@.next_id == old(self)@.next_id,
            final(self)@.params == old(self)@.params,
            final(self)@.voices == old(self)@.voices.map_values(
                |s: Option<Voice>| reclaim_slot(s, now),
            ),
    {
        let ghost start = self.voices@;
        let mut i: usize = 0;
        while i < NUM_NOTES
            invariant
                self.params.wf(),
                i <= NUM_NOTES,
                self.voices@.len() == NUM_NOTES,
                start.len() == NUM_NOTES,
                self.next_id == old(self).next_id,
                self.params == old(self).params,
                start == old(self).voices@,
                forall|j: int|
                    0 <= j < i ==> #[trigger] self.voices@[j] == reclaim_slot(start[j], now),
                forall|j: int| i <= j < NUM_NOTES ==> #[trigger] self.voices@[j] == start[j],
            decreases NUM_NOTES - i,
        {
            let slot = self.voices[i];
            let expired = match slot {
                Some(v) => match v.state {
                    VoiceState::Releasing { until } => until <= now,
                    VoiceState::Sounding => false,
                },
                None => false,
            };
            if expired {
                self.voices.set(i, None);
            }
            assert(self.voices@[i as int] == reclaim_slot(start[i as int], now));
            i = i + 1;
        }
        assert(self@.voices =~= start.map_values(|s: Option<Voice>| reclaim_slot(s, now)));
    }
}

/// The patch a voice for `note` is built with: the note and the current
/// envelope, vibrato and filter settings. A note outside the MIDI range has
/// no frequency and is refused.
pub fn build_patch(note: u8, params: &ParameterStore) -> (r: Result<VoicePatch, VoiceError>)
    requires
        params.wf(),
    ensures
        note >= NUM_NOTES ==> r == Err::<VoicePatch, VoiceError>(VoiceError::InvalidNote),
        note < NUM_NOTES ==> r == Ok::<VoicePatch, VoiceError>(patch_spec(note, params@)),
{
    if note as usize >= NUM_NOTES {
        return Err(VoiceError::InvalidNote);
    }
    Ok(
        VoicePatch {
            note,
            attack: params.get(Parameter::Attack),
            decay: params.get(Parameter::Decay),
            sustain: params.get(Parameter::Sustain),
            vibrato_depth: params.get(Parameter::VibratoDepth),
            filter_cutoff: params.get(Parameter::FilterCutoff),
            filter_type: params.get(Parameter::FilterType),
        },
    )
}

/// A second note-on for a note that is already sounding leaves exactly one
/// voice for that note, the one the first started, and asks for no new voice.
pub proof fn lemma_note_on_twice(m: EngineModel, n: u8, t1: u64, t2: u64)
    requires
        m.voices.len() == NUM_NOTES,
        n < NUM_NOTES,
    ensures
        ({
            let (m1, c1) = apply_spec(m, EngineEvent::NoteOn(n), t1);
            let (m2, c2) = apply_spec(m1, EngineEvent::NoteOn(n), t2);
            &&& c1 is Ok
            &&& is_sounding(m1.voices[n as int])
            &&& c2 == Ok::<Command, VoiceError>(Command::Nothing)
            &&& m2 == m1
        }),
{
}

/// A note-off for a note with no voice, or a second note-off in a row, is
/// no error and changes nothing: no voice appears.
pub proof fn lemma_note_off_idempotent(m: EngineModel, n: u8, t1: u64, t2: u64)
    requires
        m.voices.len() == NUM_NOTES,
    ensures
        n < NUM_NOTES && m.voices[n as int] is None ==> apply_spec(
            m,
            EngineEvent::NoteOff(n),
            t1,
        ) == (m, Ok::<Command, VoiceError>(Command::Nothing)),
        ({
            let (m1, c1) = apply_spec(m, EngineEvent::NoteOff(n), t1);
            let (m2, c2) = apply_spec(m1, EngineEvent::NoteOff(n), t2);
            &&& c1 is Ok
            &&& m2 == m1
            &&& c2 == Ok::<Command, VoiceError>(Command::Nothing)
            &&& forall|k: int|
                0 <= k < NUM_NOTES ==> (#[trigger] m2.voices[k] is Some <==> m.voices[k] is Some)
        }),
{
    let (m1, c1) = apply_spec(m, EngineEvent::NoteOff(n), t1);
    assert forall|k: int| 0 <= k < NUM_NOTES implies (#[trigger] m1.voices[k] is Some
        <==> m.voices[k] is Some) by {
        if n < NUM_NOTES && k == n as int {
        }
    }
}

} // verus!
