use synth::engine::{build_patch, Command, Engine, VoiceError, VoicePatch, VoiceState};
use synth::params::{Direction, Parameter, ParameterStore};
use synth::router::EngineEvent;

#[test]
fn note_on_twice_keeps_one_voice() {
    let mut e = Engine::new();
    let first = e.apply(EngineEvent::NoteOn(60), 0).unwrap();
    assert!(matches!(first, Command::Spawn { voice: 0, .. }));
    assert_eq!(e.apply(EngineEvent::NoteOn(60), 5), Ok(Command::Nothing));
    assert_eq!(e.active_count(), 1);
    let v = e.voice(60).unwrap();
    assert_eq!(v.id, 0);
    assert_eq!(v.state, VoiceState::Sounding);
}

#[test]
fn note_off_without_note_on_is_harmless() {
    let mut e = Engine::new();
    assert_eq!(e.apply(EngineEvent::NoteOff(60), 0), Ok(Command::Nothing));
    assert_eq!(e.apply(EngineEvent::NoteOff(60), 1), Ok(Command::Nothing));
    assert_eq!(e.active_count(), 0);
    assert_eq!(e.voice(60), None);
}

#[test]
fn note_off_twice_fades_once() {
    let mut e = Engine::new();
    e.apply(EngineEvent::NoteOn(60), 0).unwrap();
    assert_eq!(
        e.apply(EngineEvent::NoteOff(60), 100),
        Ok(Command::Fade { voice: 0, release: 700 })
    );
    assert_eq!(e.apply(EngineEvent::NoteOff(60), 200), Ok(Command::Nothing));
    assert_eq!(e.voice(60).unwrap().state, VoiceState::Releasing { until: 800 });
    assert_eq!(e.active_count(), 1);
}

#[test]
fn released_voice_is_reclaimed_after_release() {
    let mut e = Engine::new();
    e.apply(EngineEvent::NoteOn(69), 0).unwrap();
    e.apply(EngineEvent::NoteOff(69), 1000).unwrap();
    e.reclaim(1699);
    assert_eq!(e.active_count(), 1);
    e.reclaim(1700);
    assert_eq!(e.active_count(), 0);
}

#[test]
fn sounding_voice_is_never_reclaimed() {
    let mut e = Engine::new();
    e.apply(EngineEvent::NoteOn(1), 0).unwrap();
    e.reclaim(u64::MAX);
    assert_eq!(e.active_count(), 1);
}

#[test]
fn note_on_while_releasing_starts_a_new_voice() {
    let mut e = Engine::new();
    e.apply(EngineEvent::NoteOn(60), 0).unwrap();
    e.apply(EngineEvent::NoteOff(60), 10).unwrap();
    let c = e.apply(EngineEvent::NoteOn(60), 20).unwrap();
    assert!(matches!(c, Command::Spawn { voice: 1, .. }));
    assert_eq!(e.voice(60).unwrap().state, VoiceState::Sounding);
    assert_eq!(e.active_count(), 1);
}

#[test]
fn invalid_note_is_refused() {
    let mut e = Engine::new();
    assert_eq!(e.apply(EngineEvent::NoteOn(128), 0), Err(VoiceError::InvalidNote));
    assert_eq!(e.active_count(), 0);
    assert_eq!(e.apply(EngineEvent::NoteOff(200), 0), Ok(Command::Nothing));
}

#[test]
fn spawn_carries_the_current_patch() {
    let mut e = Engine::new();
    e.apply(EngineEvent::ParameterChange(Parameter::Attack, Direction::Increment), 0)
        .unwrap();
    let c = e.apply(EngineEvent::NoteOn(69), 0).unwrap();
    assert_eq!(
        c,
        Command::Spawn {
            voice: 0,
            patch: VoicePatch {
                note: 69,
                attack: 210,
                decay: 200,
                sustain: 900,
                vibrato_depth: 0,
                filter_cutoff: 100,
                filter_type: 100,
            },
        }
    );
}

#[test]
fn parameter_change_touches_no_voice() {
    let mut e = Engine::new();
    e.apply(EngineEvent::NoteOn(40), 0).unwrap();
    let c = e.apply(EngineEvent::ParameterChange(Parameter::Release, Direction::Decrement), 0);
    assert_eq!(c, Ok(Command::Nothing));
    assert_eq!(e.parameter(Parameter::Release), 690);
    assert_eq!(e.voice(40).unwrap().state, VoiceState::Sounding);
}

#[test]
fn build_patch_refuses_out_of_range_note() {
    let p = ParameterStore::new();
    assert_eq!(build_patch(128, &p), Err(VoiceError::InvalidNote));
    assert_eq!(build_patch(127, &p).unwrap().note, 127);
}

#[test]
fn a4_note_on_then_off_control_plane() {
    let mut e = Engine::new();
    let on = e.apply(EngineEvent::NoteOn(69), 0).unwrap();
    match on {
        Command::Spawn { voice, patch } => {
            assert_eq!(voice, 0);
            assert_eq!(patch.note, 69);
            assert_eq!(patch.sustain, 900);
        }
        other => panic!("expected a new voice, got {:?}", other),
    }
    let off = e.apply(EngineEvent::NoteOff(69), 2000).unwrap();
    assert_eq!(off, Command::Fade { voice: 0, release: 700 });
    e.reclaim(2700);
    assert_eq!(e.voice(69), None);
}
