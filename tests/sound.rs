use synth::chain::{Chain, Effect, Voice};
use synth::combinators::{MixerAction, Mixer, TwoChannel, TwoChannelConfig};
use synth::config::{ConfigReceiver, UpdateError};
use synth::controllers::{KBConfigAction, KeyboardController};
use synth::effects::{EffectUnit, Gate, LowPassFilter, FM};
use synth::sample::{add_fixed, mul_fixed, product_wide, saturate_wide, HALF, UNIT};
use synth::synth::{put_samples, render, Synth};
use synth::voices::{AdditiveAction, next_phase, wave_at, Additive, Chained, HasFreq, Sine, SineConfig};

fn fx(x: f64) -> i32 {
    (x * 65536.0).round() as i32
}

#[test]
fn fixed_point_products_round_down_and_saturate() {
    assert_eq!(mul_fixed(fx(0.5), fx(0.5)), fx(0.25));
    assert_eq!(mul_fixed(fx(440.0), fx(2.0)), fx(880.0));
    assert_eq!(mul_fixed(-1, 1), -1);
    assert_eq!(mul_fixed(i32::MAX, i32::MAX), i32::MAX);
    assert_eq!(mul_fixed(i32::MIN, i32::MAX), i32::MIN);
    assert_eq!(add_fixed(i32::MAX, 1), i32::MAX);
    assert_eq!(add_fixed(2, 3), 5);
    assert_eq!(product_wide(i32::MIN, i32::MIN), 1i128 << 46);
    assert_eq!(saturate_wide(1i128 << 40), i32::MAX);
}

#[test]
fn waveform_peaks_at_quarter_cycles() {
    assert_eq!(wave_at(0), 0);
    assert_eq!(wave_at(0x4000_0000), UNIT);
    assert_eq!(wave_at(0x8000_0000), 0);
    assert_eq!(wave_at(0xC000_0000), -UNIT);
    assert_eq!(next_phase(0, 44100), 65536);
    assert_eq!(next_phase(0, -44100), u32::MAX - 65535);
}

#[test]
fn gate_passes_quiet_and_silences_loud_samples() {
    let mut gate = Gate::new(fx(0.1));
    assert_eq!(gate.process(fx(0.05)), fx(0.05));
    assert_eq!(gate.process(fx(0.5)), 0);
    assert_eq!(gate.process(fx(-0.05)), fx(-0.05));
    assert_eq!(gate.process(fx(0.1)), 0);
}

#[test]
fn gate_cutoff_follows_its_channel() {
    let mut gate = Gate::new(fx(0.1));
    let mut client = gate.cutoff_config.get_client().unwrap();
    assert_eq!(client.update(fx(1.0)), Ok(()));
    assert_eq!(gate.process(fx(0.5)), 0);
    gate.try_update_configs();
    assert_eq!(gate.process(fx(0.5)), fx(0.5));
}

#[test]
fn slew_limiter_moves_by_at_most_its_step() {
    let mut lpf = LowPassFilter::new(44100 * 100);
    assert_eq!(lpf.delta(), 100);
    assert_eq!(lpf.process(1000), 100);
    assert_eq!(lpf.process(1000), 200);
    assert_eq!(lpf.process(150), 150);
    assert_eq!(lpf.process(-1000), 50);
    let mut still = LowPassFilter::new(0);
    assert_eq!(still.delta(), 0);
    assert_eq!(still.process(500), 0);
}

#[test]
fn chain_applies_effects_in_order() {
    let mut chain = Chain::new();
    chain.add(LowPassFilter::new(44100 * 500));
    chain.add(LowPassFilter::new(44100 * 100));
    let mut first = LowPassFilter::new(44100 * 500);
    let mut second = LowPassFilter::new(44100 * 100);
    for x in [1000, 1000, -300, 42] {
        let expected = second.process(first.process(x));
        assert_eq!(chain.process(x), expected);
    }
    let mut empty: Chain<Gate> = Chain::new();
    assert_eq!(empty.process(77), 77);
}

#[test]
fn chain_of_gates_composes() {
    let mut chain = Chain::new();
    chain.add(Gate::new(fx(0.5)));
    chain.add(Gate::new(fx(0.1)));
    assert_eq!(chain.process(fx(0.05)), fx(0.05));
    assert_eq!(chain.process(fx(0.3)), 0);
    chain.try_update_configs();
}

#[test]
fn sine_takes_channel_frequency_when_quiet() {
    let mut sine = Sine::new(fx(440.0));
    let mut client = sine.config.get_client().unwrap();
    assert_eq!(client.update(SineConfig { hz: fx(880.0) }), Ok(()));
    sine.try_update_configs();
    assert_eq!(sine.hz, fx(440.0));
    sine.generate();
    assert_eq!(sine.hz, fx(880.0));
    assert_eq!(sine.phase, next_phase(0, fx(880.0)));
}

#[test]
fn sine_output_follows_phase() {
    let mut sine = Sine::new(fx(440.0));
    let phase = next_phase(0, fx(440.0));
    assert_eq!(sine.generate(), wave_at(phase));
    sine.freq(fx(100.0));
    assert_eq!(sine.hz, fx(100.0));
    assert_eq!(sine.config.current().hz, fx(100.0));
    assert_eq!(sine.generate(), wave_at(next_phase(phase, fx(100.0))));
}

#[test]
fn mixer_output_is_weighted_sum() {
    let hz = [fx(300.0), fx(450.0), fx(1000.0)];
    let mut mixer = Mixer::new(hz.iter().map(|h| Sine::new(*h)).collect());
    let mut twins: Vec<Sine> = hz.iter().map(|h| Sine::new(*h)).collect();
    let mut client = mixer.config.get_client().unwrap();
    client.update(MixerAction::Change { channel: 0, volume_change: fx(0.25) }).unwrap();
    client.update(MixerAction::Change { channel: 2, volume_change: fx(-0.75) }).unwrap();
    mixer.try_update_configs();
    let weights = [fx(0.75), HALF, fx(-0.25)];
    for _ in 0..50 {
        let expected: i32 = twins
            .iter_mut()
            .zip(weights.iter())
            .map(|(v, w)| mul_fixed(v.generate(), *w))
            .sum();
        assert_eq!(mixer.generate(), expected);
    }
}

#[test]
fn reducer_replay_adds_twice_the_change() {
    let mut mixer = Mixer::new(vec![Sine::new(fx(100.0)), Sine::new(fx(200.0))]);
    let mut client = mixer.config.get_client().unwrap();
    assert!(mixer.config.get_client().is_none());
    let before = client.get().channels;
    let action = MixerAction::Change { channel: 1, volume_change: fx(0.2) };
    assert_eq!(client.update(action), Ok(()));
    assert_eq!(client.update(action), Ok(()));
    let after = client.get().channels;
    assert_eq!(after[1], before[1] + 2 * fx(0.2));
    assert_eq!(after[0], before[0]);
    assert_eq!(after, vec![HALF, HALF + 2 * fx(0.2)]);
}

#[test]
fn mixer_edit_of_missing_channel_changes_nothing() {
    let mut mixer = Mixer::new(vec![Sine::new(fx(100.0))]);
    let mut client = mixer.config.get_client().unwrap();
    client.update(MixerAction::Change { channel: 5, volume_change: fx(0.2) }).unwrap();
    assert_eq!(client.get().channels, vec![HALF]);
    client.update(MixerAction::Change { channel: 0, volume_change: i32::MAX }).unwrap();
    assert_eq!(client.get().channels, vec![i32::MAX]);
}

#[test]
fn two_channel_keeps_prior_mix_after_rejected_update() {
    let mut two = TwoChannel::new(Sine::new(fx(300.0)), Sine::new(fx(500.0)));
    let mut a = Sine::new(fx(300.0));
    let mut b = Sine::new(fx(500.0));
    let mut client = two.config.get_client().unwrap();
    let bad = TwoChannelConfig { a_mix: fx(1.5), b_mix: HALF };
    assert_eq!(client.update(bad), Err(UpdateError::Rejected));
    assert_eq!(client.get(), TwoChannelConfig { a_mix: HALF, b_mix: HALF });
    two.try_update_configs();
    for _ in 0..20 {
        let expected = mul_fixed(a.generate(), HALF) + mul_fixed(b.generate(), HALF);
        assert_eq!(two.generate(), expected);
    }
    let good = TwoChannelConfig { a_mix: UNIT, b_mix: 0 };
    assert_eq!(client.update(good), Ok(()));
    two.try_update_configs();
    a.try_update_configs();
    b.try_update_configs();
    for _ in 0..20 {
        let expected = a.generate();
        b.generate();
        assert_eq!(two.generate(), expected);
    }
}

#[test]
fn additive_retunes_partials_before_each_tick() {
    let mut additive = Additive::new(fx(440.0), vec![fx(2.0), fx(3.0)]);
    let expected = [fx(440.0), fx(880.0), fx(1320.0)];
    let hz: Vec<i32> = additive.mixer.voices.iter().map(|v| v.hz).collect();
    assert_eq!(hz, expected);
    additive.freq(fx(100.0));
    additive.generate();
    let hz: Vec<i32> = additive.mixer.voices.iter().map(|v| v.hz).collect();
    assert_eq!(hz, vec![fx(100.0), fx(200.0), fx(300.0)]);
    additive.freq(fx(440.0));
    for _ in 0..3 {
        additive.generate();
        let hz: Vec<i32> = additive.mixer.voices.iter().map(|v| v.hz).collect();
        assert_eq!(hz, expected);
    }
}

#[test]
fn additive_overtone_edit_reaches_partial() {
    let mut additive = Additive::new(fx(100.0), vec![fx(2.0)]);
    let mut client = additive.config.get_client().unwrap();
    client.update(AdditiveAction::SetOvertone { index: 0, multiplier: fx(5.0) }).unwrap();
    client.update(AdditiveAction::SetOvertone { index: 3, multiplier: fx(9.0) }).unwrap();
    assert_eq!(client.get().overtones, vec![fx(5.0)]);
    additive.try_update_configs();
    additive.generate();
    assert_eq!(additive.mixer.voices[1].hz, fx(500.0));
}

#[test]
fn chained_voice_passes_through_effect() {
    let mut chained = Chained::new(Sine::new(fx(440.0)), Gate::new(fx(0.2)));
    let mut sine = Sine::new(fx(440.0));
    for _ in 0..100 {
        let s = sine.generate();
        let expected = if s.abs() < fx(0.2) { s } else { 0 };
        assert_eq!(chained.generate(), expected);
    }
}

#[test]
fn fm_tunes_carrier_to_modulator_sample() {
    let mut fm = FM::new(Sine::new(fx(5.0)), Sine::new(fx(440.0)));
    let mut modulator = Sine::new(fx(5.0));
    let mut carrier = Sine::new(fx(440.0));
    for _ in 0..100 {
        let hz = modulator.generate();
        carrier.freq(hz);
        assert_eq!(fm.generate(), carrier.generate());
    }
    fm.freq(fx(7.0));
    assert_eq!(fm.modulator.hz, fx(7.0));
}

#[test]
fn keyboard_controller_is_silent_without_note() {
    let mut ctrl = KeyboardController::new(Sine::new(fx(440.0)));
    let mut client = ctrl.config.get_client().unwrap();
    assert_eq!(ctrl.generate(), 0);
    client.update(KBConfigAction::ChangeBase(fx(10.0))).unwrap();
    client.update(KBConfigAction::Play(fx(300.0))).unwrap();
    ctrl.try_update_configs();
    let mut twin = Sine::new(fx(440.0));
    for _ in 0..20 {
        twin.freq(fx(310.0));
        assert_eq!(ctrl.generate(), twin.generate());
    }
    client.update(KBConfigAction::Stop).unwrap();
    ctrl.try_update_configs();
    assert_eq!(ctrl.generate(), 0);
}

#[test]
fn synth_installs_voice_only_once() {
    let mut synth = Synth::new();
    assert!(!synth.started());
    assert!(synth.play(Sine::new(fx(440.0))).is_some());
    assert!(synth.started());
    assert!(synth.play(Sine::new(fx(220.0))).is_none());
    assert!(synth.started());
}

#[test]
fn render_polls_once_then_fills_every_slot() {
    let mut voice = Sine::new(fx(440.0));
    let mut client = voice.config.get_client().unwrap();
    client.update(SineConfig { hz: fx(880.0) }).unwrap();
    let mut twin = Sine::new(fx(880.0));
    let mut data = vec![0; 64];
    render(&mut voice, &mut data);
    let expected: Vec<i32> = (0..64).map(|_| twin.generate()).collect();
    assert_eq!(data, expected);
    let mut more = vec![0; 8];
    put_samples(&mut twin, &mut more);
    let mut empty: Vec<i32> = Vec::new();
    put_samples(&mut voice, &mut empty);
    assert!(empty.is_empty());
}

#[test]
fn chain_mixes_effect_kinds() {
    let mut chain = Chain::new();
    chain.add(EffectUnit::Gate(Gate::new(fx(0.1))));
    chain.add(EffectUnit::Slew(LowPassFilter::new(44100 * 1000)));
    let mut gate = Gate::new(fx(0.1));
    let mut slew = LowPassFilter::new(44100 * 1000);
    for x in [fx(0.05), fx(0.5), fx(-0.02), 3000, 0] {
        assert_eq!(chain.process(x), slew.process(gate.process(x)));
    }
    chain.try_update_configs();
    assert_eq!(chain.chain.len(), 2);
}
