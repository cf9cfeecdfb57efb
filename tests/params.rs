use synth::params::{Direction, Parameter, ParameterStore, NUM_PARAMS, PARAM_MAX};

#[test]
fn defaults() {
    let p = ParameterStore::new();
    assert_eq!(p.get(Parameter::Attack), 200);
    assert_eq!(p.get(Parameter::Decay), 200);
    assert_eq!(p.get(Parameter::Sustain), 900);
    assert_eq!(p.get(Parameter::Release), 700);
    assert_eq!(p.get(Parameter::Level), 1000);
    assert_eq!(p.get(Parameter::Reverb), 0);
    assert_eq!(p.snapshot().len(), NUM_PARAMS);
}

#[test]
fn decrement_at_floor_stays_at_floor() {
    let mut p = ParameterStore::new();
    assert_eq!(p.get(Parameter::Chorus), 0);
    for _ in 0..50 {
        assert_eq!(p.adjust(Parameter::Chorus, Direction::Decrement), 0);
    }
    assert_eq!(p.get(Parameter::Chorus), 0);
}

#[test]
fn increment_at_ceiling_stays_at_ceiling() {
    let mut p = ParameterStore::new();
    for _ in 0..50 {
        assert_eq!(p.adjust(Parameter::Level, Direction::Increment), PARAM_MAX);
    }
}

#[test]
fn increment_clamps_near_ceiling() {
    let mut p = ParameterStore::new();
    p.set(Parameter::Sustain, 995);
    assert_eq!(p.adjust(Parameter::Sustain, Direction::Increment), 1000);
    p.set(Parameter::Sustain, 5);
    assert_eq!(p.adjust(Parameter::Sustain, Direction::Decrement), 0);
}

#[test]
fn adjust_moves_one_step_and_nothing_else() {
    let mut p = ParameterStore::new();
    assert_eq!(p.adjust(Parameter::Decay, Direction::Increment), 210);
    assert_eq!(p.get(Parameter::Decay), 210);
    assert_eq!(p.get(Parameter::Attack), 200);
}

#[test]
fn set_clamps_to_ceiling() {
    let mut p = ParameterStore::new();
    p.set(Parameter::Delay, 5000);
    assert_eq!(p.get(Parameter::Delay), 1000);
    p.set(Parameter::Delay, 333);
    assert_eq!(p.get(Parameter::Delay), 333);
}

#[test]
fn indices_round_trip() {
    for i in 0..16u8 {
        let p = Parameter::from_index(i).unwrap();
        assert_eq!(p.index(), i as usize);
    }
    assert_eq!(Parameter::from_index(16), None);
}
