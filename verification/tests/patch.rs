use synth_bridge::message::{Message, ParameterValue};
use synth_bridge::panel::{
    AmplConfig, EnvelopeCfg, FilterCfg, OscillatorCfg, PatchUI, SnapshotPolicy, BITS_20,
    BITS_200, BITS_2000, BITS_20000, BITS_500, BITS_HALF, BITS_ONE, COARSE_LIMIT, FINE_LIMIT,
    GAIN_MAX, GAIN_SILENT,
};
use synth_bridge::patch::{Patch, PATCH_SIZE};
use synth_bridge::schema::{FilterMode, ParameterType, Section, Waveform};

fn sample() -> Patch {
    Patch {
        osc1_waveform: 2,
        osc1_coarse: 12,
        osc1_fine: -50,
        osc1_gain: -128,
        osc2_waveform: 1,
        osc2_coarse: -24,
        osc2_fine: 7,
        osc2_gain: 6,
        osc3_waveform: 0xdead_beef,
        osc3_coarse: 127,
        osc3_fine: -1,
        osc3_gain: 0,
        filter_mode: 1,
        filter_attack: 20.0f32.to_bits(),
        filter_decay: 200.0f32.to_bits(),
        filter_sustain: 0.5f32.to_bits(),
        filter_release: 500.0f32.to_bits(),
        filter_cutoff: 440.0f32.to_bits(),
        filter_resonance: 200,
        filter_emphasis: 0.25f32.to_bits(),
        amp_gain: -6,
        amp_attack: 1.0f32.to_bits(),
        amp_decay: 2.0f32.to_bits(),
        amp_sustain: 0x7fc0_0001,
        amp_release: u32::MAX,
    }
}

fn sample_image() -> Vec<u8> {
    let mut bytes = vec![
        2, 0, 0, 0, 12, 0xce, 0x80, 0, //
        1, 0, 0, 0, 0xe8, 7, 6, 0, //
        0xef, 0xbe, 0xad, 0xde, 127, 0xff, 0, 0, //
        1, 0, 0, 0,
    ];
    bytes.extend_from_slice(&20.0f32.to_le_bytes());
    bytes.extend_from_slice(&200.0f32.to_le_bytes());
    bytes.extend_from_slice(&0.5f32.to_le_bytes());
    bytes.extend_from_slice(&500.0f32.to_le_bytes());
    bytes.extend_from_slice(&440.0f32.to_le_bytes());
    bytes.extend_from_slice(&[200, 0, 0, 0]);
    bytes.extend_from_slice(&0.25f32.to_le_bytes());
    bytes.extend_from_slice(&[0xfa, 0, 0, 0]);
    bytes.extend_from_slice(&1.0f32.to_le_bytes());
    bytes.extend_from_slice(&2.0f32.to_le_bytes());
    bytes.extend_from_slice(&[0x01, 0x00, 0xc0, 0x7f]);
    bytes.extend_from_slice(&[0xff, 0xff, 0xff, 0xff]);
    bytes
}

const RESERVED: [usize; 9] = [7, 15, 23, 49, 50, 51, 57, 58, 59];

#[test]
fn a_snapshot_is_seventy_six_bytes() {
    assert_eq!(PATCH_SIZE, 76);
    assert_eq!(sample().to_bytes().len(), 76);
    assert_eq!(sample_image().len(), 76);
}

#[test]
fn a_snapshot_is_written_field_by_field() {
    assert_eq!(sample().to_bytes(), sample_image());
}

#[test]
fn a_snapshot_is_read_field_by_field() {
    assert_eq!(Patch::from_bytes(&sample_image()), Some(sample()));
}

#[test]
fn decoding_recovers_every_field() {
    let patch = sample();
    assert_eq!(Patch::from_bytes(&patch.to_bytes()), Some(patch));
    let zero = Patch::from_bytes(&[0u8; 76]).unwrap();
    assert_eq!(zero.to_bytes(), vec![0u8; 76]);
    assert_eq!(Patch::from_bytes(&zero.to_bytes()), Some(zero));
    let mut seed: u32 = 0x1234_5678;
    for _ in 0..200 {
        let mut bytes = Vec::new();
        for _ in 0..76 {
            seed = seed.wrapping_mul(1_664_525).wrapping_add(1_013_904_223);
            bytes.push((seed >> 24) as u8);
        }
        let patch = Patch::from_bytes(&bytes).unwrap();
        let image = patch.to_bytes();
        for at in 0..76 {
            if RESERVED.contains(&at) {
                assert_eq!(image[at], 0);
            } else {
                assert_eq!(image[at], bytes[at]);
            }
        }
        assert_eq!(Patch::from_bytes(&image), Some(patch));
    }
}

#[test]
fn reserved_bytes_are_not_read() {
    let mut bytes = sample_image();
    for at in RESERVED {
        bytes[at] = 0xa5;
    }
    assert_eq!(Patch::from_bytes(&bytes), Some(sample()));
}

#[test]
fn every_other_byte_is_read() {
    let image = sample_image();
    for at in 0..76 {
        if RESERVED.contains(&at) {
            continue;
        }
        let mut bytes = image.clone();
        bytes[at] ^= 0x01;
        assert_ne!(Patch::from_bytes(&bytes), Some(sample()), "byte {}", at);
    }
}

#[test]
fn a_buffer_of_another_length_holds_nothing() {
    assert_eq!(Patch::from_bytes(&[]), None);
    for len in 0..200usize {
        let bytes = vec![0x5au8; len];
        assert_eq!(Patch::from_bytes(&bytes).is_some(), len == 76);
    }
    let mut long = sample_image();
    long.push(0);
    assert_eq!(Patch::from_bytes(&long), None);
    assert_eq!(Patch::from_bytes(&sample_image()[..75]), None);
    assert_eq!(Patch::from_bytes(&sample_image()[1..]), None);
}

#[test]
fn nothing_is_checked_against_a_range() {
    let bytes = vec![0xffu8; 76];
    let patch = Patch::from_bytes(&bytes).unwrap();
    assert_eq!(patch.osc1_waveform, u32::MAX);
    assert_eq!(patch.osc1_coarse, -1);
    assert_eq!(patch.filter_mode, u32::MAX);
    assert_eq!(patch.filter_resonance, 255);
    assert_eq!(patch.amp_release, u32::MAX);
    assert_eq!(Waveform::from_code(patch.osc1_waveform), None);
}

#[test]
fn the_surface_shows_a_snapshot() {
    let patch = sample();
    let ui = PatchUI::from(patch);
    assert_eq!(
        ui,
        PatchUI {
            osc_1: OscillatorCfg { waveform: 2, coarse: 12, fine: -50, gain: -128 },
            osc_2: OscillatorCfg { waveform: 1, coarse: -24, fine: 7, gain: 6 },
            osc_3: OscillatorCfg { waveform: 0xdead_beef, coarse: 127, fine: -1, gain: 0 },
            filter: FilterCfg {
                filter_type: 1,
                envelope: EnvelopeCfg {
                    attack: 20.0f32.to_bits(),
                    decay: 200.0f32.to_bits(),
                    sustain: 0.5f32.to_bits(),
                    release: 500.0f32.to_bits(),
                },
                cutoff: 440.0f32.to_bits(),
                resonance: 200,
                emphasis: 0.25f32.to_bits(),
            },
            amp: AmplConfig {
                envelope: EnvelopeCfg {
                    attack: 1.0f32.to_bits(),
                    decay: 2.0f32.to_bits(),
                    sustain: 0x7fc0_0001,
                    release: u32::MAX,
                },
                gain: -6,
            },
        }
    );
}

#[test]
fn a_fresh_surface() {
    let envelope = EnvelopeCfg::default();
    assert_eq!(f32::from_bits(envelope.attack), 20.0);
    assert_eq!(f32::from_bits(envelope.decay), 200.0);
    assert_eq!(f32::from_bits(envelope.sustain), 0.5);
    assert_eq!(f32::from_bits(envelope.release), 500.0);
    assert_eq!(OscillatorCfg::default(), OscillatorCfg { waveform: 0, coarse: 0, fine: 0, gain: 0 });
    let filter = FilterCfg::default();
    assert_eq!(filter.filter_type, 0);
    assert_eq!(filter.envelope, envelope);
    assert_eq!(f32::from_bits(filter.cutoff), 0.0);
    assert_eq!(filter.resonance, 0);
    assert_eq!(f32::from_bits(filter.emphasis), 0.0);
    let amp = AmplConfig::default();
    assert_eq!(amp, AmplConfig { envelope, gain: 0 });
    let ui = PatchUI::default();
    assert_eq!(ui.osc_1, OscillatorCfg::default());
    assert_eq!(ui.osc_2, OscillatorCfg::default());
    assert_eq!(ui.osc_3, OscillatorCfg::default());
    assert_eq!(ui.filter, filter);
    assert_eq!(ui.amp, amp);
}

#[test]
fn the_bits_of_the_named_floats() {
    assert_eq!(BITS_20, 20.0f32.to_bits());
    assert_eq!(BITS_200, 200.0f32.to_bits());
    assert_eq!(BITS_HALF, 0.5f32.to_bits());
    assert_eq!(BITS_500, 500.0f32.to_bits());
    assert_eq!(BITS_2000, 2000.0f32.to_bits());
    assert_eq!(BITS_20000, 20000.0f32.to_bits());
    assert_eq!(BITS_ONE, 1.0f32.to_bits());
    assert_eq!((COARSE_LIMIT, FINE_LIMIT, GAIN_MAX, GAIN_SILENT), (24, 50, 6, i8::MIN));
}

#[test]
fn a_snapshot_is_dropped_or_applied() {
    let mut ui = PatchUI::default();
    ui.receive(sample(), SnapshotPolicy::Discard);
    assert_eq!(ui, PatchUI::default());
    ui.receive(sample(), SnapshotPolicy::Apply);
    assert_eq!(ui, PatchUI::from(sample()));
    ui.receive(Patch::from_bytes(&[0u8; 76]).unwrap(), SnapshotPolicy::Discard);
    assert_eq!(ui, PatchUI::from(sample()));
}

#[test]
fn the_intent_of_each_control() {
    let mut osc = OscillatorCfg { waveform: 0, coarse: 12, fine: -3, gain: -128 };
    assert_eq!(
        osc.coarse_intent(0),
        Message::SetParameter(Section::Osc1, ParameterType::Coarse, ParameterValue::Int8(12))
    );
    assert_eq!(
        osc.fine_intent(1),
        Message::SetParameter(Section::Osc2, ParameterType::Fine, ParameterValue::Int8(-3))
    );
    assert_eq!(
        osc.gain_intent(2),
        Message::SetParameter(Section::Osc3, ParameterType::Gain, ParameterValue::Int8(-128))
    );
    assert_eq!(
        osc.gain_intent(9),
        Message::SetParameter(Section::Global, ParameterType::Gain, ParameterValue::Int8(-128))
    );
    assert_eq!(
        osc.select_waveform(2, Waveform::Sqr),
        Message::SetParameter(Section::Osc3, ParameterType::Waveform, ParameterValue::Waveform(Waveform::Sqr))
    );
    assert_eq!(osc, OscillatorCfg { waveform: 2, coarse: 12, fine: -3, gain: -128 });

    let env = EnvelopeCfg { attack: 1, decay: 2, sustain: 3, release: 4 };
    assert_eq!(
        env.attack_intent(Section::Filter),
        Message::SetParameter(Section::Filter, ParameterType::Attack, ParameterValue::Float(1))
    );
    assert_eq!(
        env.decay_intent(Section::Amp),
        Message::SetParameter(Section::Amp, ParameterType::Decay, ParameterValue::Float(2))
    );
    assert_eq!(
        env.sustain_intent(Section::Filter),
        Message::SetParameter(Section::Filter, ParameterType::Sustain, ParameterValue::Float(3))
    );
    assert_eq!(
        env.release_intent(Section::Amp),
        Message::SetParameter(Section::Amp, ParameterType::Release, ParameterValue::Float(4))
    );

    let mut filter = FilterCfg { filter_type: 0, envelope: env, cutoff: 5, resonance: 6, emphasis: 7 };
    assert_eq!(
        filter.cutoff_intent(),
        Message::SetParameter(Section::Filter, ParameterType::Cutoff, ParameterValue::Float(5))
    );
    assert_eq!(
        filter.resonance_intent(),
        Message::SetParameter(Section::Filter, ParameterType::Resonance, ParameterValue::UInt8(6))
    );
    assert_eq!(
        filter.emphasis_intent(),
        Message::SetParameter(Section::Filter, ParameterType::Emphasis, ParameterValue::Float(7))
    );
    assert_eq!(
        filter.select_mode(FilterMode::LowPass),
        Message::SetParameter(Section::Filter, ParameterType::Mode, ParameterValue::FilterMode(FilterMode::LowPass))
    );
    assert_eq!(filter, FilterCfg { filter_type: 1, envelope: env, cutoff: 5, resonance: 6, emphasis: 7 });

    let amp = AmplConfig { envelope: env, gain: 6 };
    let intent = amp.gain_intent();
    assert_eq!(intent, Message::SetParameter(Section::Amp, ParameterType::Gain, ParameterValue::Int8(6)));
    assert!(intent.is_well_typed());
    assert_eq!(intent.encode(), vec![16, 0, 0, 0, 5, 0, 0, 0, 4, 0, 0, 0, 6, 0, 0, 0]);
}
