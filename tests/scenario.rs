use fundsp::hacker::{lfo, midi_hz, pass, saw, AudioUnit64, Fade, Sequencer64};
use synth::engine::{Command, Engine, VoicePatch};
use synth::envelope::{envelope_level, LEVEL_MAX};
use synth::router::EngineEvent;

const RATE: f64 = 44100.0;

fn voice_graph(patch: VoicePatch) -> Box<dyn AudioUnit64> {
    let pitch_hz = midi_hz(patch.note as f64);
    let attack_us = patch.attack as u64 * 1000;
    let decay_us = patch.decay as u64 * 1000;
    let sustain = patch.sustain.min(LEVEL_MAX);
    let pitch = lfo(move |_t: f64| pitch_hz);
    let envelope = lfo(move |t: f64| {
        envelope_level((t * 1e6) as u64, attack_us, decay_us, sustain) as f64 / LEVEL_MAX as f64
    });
    Box::new((pitch >> saw() * 0.5) * envelope >> pass())
}

fn render(seq: &mut Sequencer64, seconds: f64) -> Vec<f64> {
    (0..(seconds * RATE) as usize).map(|_| seq.get_mono()).collect()
}

fn peak(block: &[f64]) -> f64 {
    block.iter().fold(0.0, |m, x| m.max(x.abs()))
}

#[test]
fn a4_sounds_at_440_hz_then_fades_to_silence() {
    let mut engine = Engine::new();
    let mut seq = Sequencer64::new(false, 1);
    seq.set_sample_rate(RATE);

    let (voice, patch) = match engine.apply(EngineEvent::NoteOn(69), 0).unwrap() {
        Command::Spawn { voice, patch } => (voice, patch),
        other => panic!("expected a new voice, got {:?}", other),
    };
    assert_eq!(voice, 0);
    let id = seq.push_relative(0.0, f64::INFINITY, Fade::Smooth, 0.01, 0.0, voice_graph(patch));

    // Past attack and decay: the voice holds its sustain level.
    let _ = render(&mut seq, 0.5);
    let block = render(&mut seq, 0.5);
    assert!(peak(&block) > 0.1);
    let upward = block.windows(2).filter(|w| w[0] < 0.0 && w[1] >= 0.0).count();
    let hz = upward as f64 / 0.5;
    assert!((hz - 440.0).abs() <= 4.0, "measured {} Hz", hz);

    let release = match engine.apply(EngineEvent::NoteOff(69), 1000).unwrap() {
        Command::Fade { voice, release } => {
            assert_eq!(voice, 0);
            release
        }
        other => panic!("expected a fade, got {:?}", other),
    };
    let seconds = release as f64 / 1000.0;
    seq.edit_relative(id, seconds, seconds);

    let mut last = peak(&block);
    let mut t = 0.0;
    while t < seconds {
        let now = peak(&render(&mut seq, 0.05));
        assert!(now <= last + 1e-3, "level rose from {} to {}", last, now);
        last = now;
        t += 0.05;
    }
    for _ in 0..10 {
        assert!(peak(&render(&mut seq, 0.05)) < 1e-6);
    }
    engine.reclaim(1000 + release as u64);
    assert_eq!(engine.voice(69), None);
}
