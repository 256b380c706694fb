use synth_bridge::message::{
    Message, ParameterValue, SynthMessage, CONTROL_MESSAGE_SIZE, DESTINATION_OFFSET,
    PARAMETER_OFFSET, UI_CHANNEL, VALUE_OFFSET,
};
use synth_bridge::schema::{FilterMode, ParameterType, Section, ValueKind, Waveform};
use synth_bridge::wire::{byte_to_i8, get_u32, i8_to_byte, put_bytes, put_u32, read_u32};

const SECTIONS: [Section; 6] = [
    Section::Osc1,
    Section::Osc2,
    Section::Osc3,
    Section::Filter,
    Section::Amp,
    Section::Global,
];

const PARAMETERS: [ParameterType; 12] = [
    ParameterType::Waveform,
    ParameterType::Coarse,
    ParameterType::Fine,
    ParameterType::Gain,
    ParameterType::Cutoff,
    ParameterType::Resonance,
    ParameterType::Emphasis,
    ParameterType::Mode,
    ParameterType::Attack,
    ParameterType::Decay,
    ParameterType::Sustain,
    ParameterType::Release,
];

fn sample(kind: ValueKind) -> ParameterValue {
    match kind {
        ValueKind::Int8 => ParameterValue::Int8(-7),
        ValueKind::UInt8 => ParameterValue::UInt8(200),
        ValueKind::Float => ParameterValue::Float(440.0f32.to_bits()),
        ValueKind::Waveform => ParameterValue::Waveform(Waveform::Saw),
        ValueKind::FilterMode => ParameterValue::FilterMode(FilterMode::LowPass),
    }
}

#[test]
fn coarse_pitch_of_oscillator_one() {
    let intent = Message::SetParameter(Section::Osc1, ParameterType::Coarse, ParameterValue::Int8(12));
    let control = SynthMessage::from(intent);
    assert_eq!(control.channel, UI_CHANNEL);
    assert_eq!(control.destination, Section::Osc1.code());
    assert_eq!(control.parameter, ParameterType::Coarse.code());
    assert_eq!(control.value, ParameterValue::Int8(12));
    let bytes = intent.encode();
    assert_eq!(bytes.len(), CONTROL_MESSAGE_SIZE);
    assert_eq!(bytes, vec![16, 0, 0, 0, 1, 0, 0, 0, 2, 0, 0, 0, 12, 0, 0, 0]);
    assert_eq!(
        ParameterValue::from_payload(ValueKind::Int8, &bytes[VALUE_OFFSET..]),
        Some(ParameterValue::Int8(12))
    );
}

#[test]
fn every_intent_is_carried() {
    for section in SECTIONS {
        for parameter in PARAMETERS {
            let value = sample(parameter.value_kind());
            let intent = Message::SetParameter(section, parameter, value);
            assert!(intent.is_well_typed());
            let control = SynthMessage::from(intent);
            assert_eq!(control.channel, 16);
            assert_eq!(control.destination, section.code());
            assert_eq!(control.parameter, parameter.code());
            assert_eq!(control.value, value);
            let bytes = intent.encode();
            assert_eq!(bytes, control.to_bytes());
            assert_eq!(bytes.len(), 16);
            assert_eq!(bytes[0], 16);
            assert_eq!(&bytes[1..4], &[0, 0, 0]);
            let destination = read_u32(&bytes, DESTINATION_OFFSET);
            let kind = read_u32(&bytes, PARAMETER_OFFSET);
            assert_eq!(Section::from_code(destination), Some(section));
            assert_eq!(ParameterType::from_code(kind), Some(parameter));
            assert_eq!(
                ParameterValue::from_payload(parameter.value_kind(), &bytes[VALUE_OFFSET..]),
                Some(value)
            );
        }
    }
}

#[test]
fn set_waveform_addresses_its_oscillator() {
    let expected = [
        (0u8, Section::Osc1),
        (1, Section::Osc2),
        (2, Section::Osc3),
        (3, Section::Global),
        (255, Section::Global),
    ];
    for (index, section) in expected {
        assert_eq!(Section::for_oscillator(index), section);
        let intent = Message::SetWaveform(index, Waveform::Sqr);
        assert!(intent.is_well_typed());
        let control = SynthMessage::from(intent);
        assert_eq!(control.destination, section.code());
        assert_eq!(control.parameter, ParameterType::Waveform.code());
        assert_eq!(control.value, ParameterValue::Waveform(Waveform::Sqr));
        assert_eq!(
            intent.encode(),
            Message::SetParameter(section, ParameterType::Waveform, ParameterValue::Waveform(Waveform::Sqr))
                .encode()
        );
    }
    assert_eq!(
        Message::SetWaveform(1, Waveform::Sqr).encode(),
        vec![16, 0, 0, 0, 2, 0, 0, 0, 1, 0, 0, 0, 2, 0, 0, 0]
    );
}

#[test]
fn coarse_pitch_of_oscillator_one_by_its_index() {
    let intent = Message::SetCoarse(0, 12);
    let control = SynthMessage::from(intent);
    assert_eq!(control.channel, 16);
    assert_eq!(control.destination, Section::Osc1.code());
    assert_eq!(control.parameter, ParameterType::Coarse.code());
    assert_eq!(control.value, ParameterValue::Int8(12));
    assert_eq!(intent.encode(), vec![16, 0, 0, 0, 1, 0, 0, 0, 2, 0, 0, 0, 12, 0, 0, 0]);
    assert_eq!(
        intent.encode(),
        Message::SetParameter(Section::Osc1, ParameterType::Coarse, ParameterValue::Int8(12)).encode()
    );
}

#[test]
fn pitch_and_gain_address_their_oscillator() {
    let sections = [
        (0u8, Section::Osc1),
        (1, Section::Osc2),
        (2, Section::Osc3),
        (3, Section::Global),
        (200, Section::Global),
    ];
    for (index, section) in sections {
        for v in [i8::MIN, -24, -1, 0, 6, 12, 50, i8::MAX] {
            let cases = [
                (Message::SetCoarse(index, v), ParameterType::Coarse),
                (Message::SetFine(index, v), ParameterType::Fine),
                (Message::SetOscGain(index, v), ParameterType::Gain),
            ];
            for (intent, parameter) in cases {
                assert!(intent.is_well_typed());
                assert_eq!(
                    SynthMessage::from(intent),
                    SynthMessage {
                        channel: 16,
                        destination: section.code(),
                        parameter: parameter.code(),
                        value: ParameterValue::Int8(v),
                    }
                );
                let bytes = intent.encode();
                assert_eq!(
                    bytes,
                    Message::SetParameter(section, parameter, ParameterValue::Int8(v)).encode()
                );
                assert_eq!(Section::from_code(read_u32(&bytes, DESTINATION_OFFSET)), Some(section));
                assert_eq!(ParameterType::from_code(read_u32(&bytes, PARAMETER_OFFSET)), Some(parameter));
                assert_eq!(
                    ParameterValue::from_payload(ValueKind::Int8, &bytes[VALUE_OFFSET..]),
                    Some(ParameterValue::Int8(v))
                );
            }
        }
    }
    assert_eq!(Message::SetFine(1, -3).encode(), vec![16, 0, 0, 0, 2, 0, 0, 0, 3, 0, 0, 0, 0xfd, 0, 0, 0]);
    assert_eq!(Message::SetOscGain(2, 6).encode(), vec![16, 0, 0, 0, 3, 0, 0, 0, 4, 0, 0, 0, 6, 0, 0, 0]);
}

#[test]
fn no_intent_gives_the_placeholder() {
    let placeholder =
        SynthMessage { channel: 16, destination: 0, parameter: 0, value: ParameterValue::Int8(0) };
    let frame = vec![16u8, 0, 0, 0, 0, 0, 0, 0, 0, 0, 0, 0, 0, 0, 0, 0];
    assert_eq!(placeholder.to_bytes(), frame);
    assert_eq!(Section::from_code(0), None);
    assert_eq!(ParameterType::from_code(0), None);
    let mut intents = vec![
        Message::SetWaveform(0, Waveform::Sin),
        Message::SetCoarse(0, 0),
        Message::SetFine(0, 0),
        Message::SetOscGain(0, 0),
    ];
    for section in SECTIONS {
        for parameter in PARAMETERS {
            intents.push(Message::SetParameter(section, parameter, ParameterValue::Int8(0)));
        }
    }
    for intent in intents {
        assert_ne!(SynthMessage::from(intent), placeholder);
        assert_ne!(intent.encode(), frame);
    }
}

#[test]
fn a_mistyped_value_is_sent_as_it_is() {
    let intent = Message::SetParameter(Section::Filter, ParameterType::Cutoff, ParameterValue::Int8(3));
    assert!(!intent.is_well_typed());
    assert_eq!(intent.encode(), vec![16, 0, 0, 0, 4, 0, 0, 0, 5, 0, 0, 0, 3, 0, 0, 0]);
}

#[test]
fn payload_of_each_field() {
    let mut out = Vec::new();
    ParameterValue::Int8(-1).write_payload(&mut out);
    ParameterValue::Int8(-128).write_payload(&mut out);
    ParameterValue::UInt8(255).write_payload(&mut out);
    ParameterValue::Float(440.0f32.to_bits()).write_payload(&mut out);
    ParameterValue::Waveform(Waveform::Sqr).write_payload(&mut out);
    ParameterValue::FilterMode(FilterMode::LowPass).write_payload(&mut out);
    assert_eq!(
        out,
        vec![
            0xff, 0, 0, 0, 0x80, 0, 0, 0, 0xff, 0, 0, 0, 0x00, 0x00, 0xdc, 0x43, 2, 0, 0, 0, 1, 0,
            0, 0
        ]
    );
    assert_eq!(ParameterValue::Int8(-1).kind(), ValueKind::Int8);
    assert_eq!(ParameterValue::UInt8(1).kind(), ValueKind::UInt8);
    assert_eq!(ParameterValue::Float(1).kind(), ValueKind::Float);
    assert_eq!(ParameterValue::Waveform(Waveform::Sin).kind(), ValueKind::Waveform);
    assert_eq!(ParameterValue::FilterMode(FilterMode::HighPass).kind(), ValueKind::FilterMode);
}

#[test]
fn floats_travel_bit_for_bit() {
    let samples = [
        0.0f32,
        -0.0,
        1.0,
        0.5,
        20000.0,
        f32::MIN_POSITIVE,
        f32::MAX,
        f32::INFINITY,
        f32::NEG_INFINITY,
    ];
    for x in samples {
        let value = ParameterValue::Float(x.to_bits());
        let mut payload = Vec::new();
        value.write_payload(&mut payload);
        assert_eq!(payload, x.to_le_bytes().to_vec());
        assert_eq!(ParameterValue::from_payload(ValueKind::Float, &payload), Some(value));
    }
    let nan = 0x7fc0_1234u32;
    let mut payload = Vec::new();
    ParameterValue::Float(nan).write_payload(&mut payload);
    assert_eq!(payload, vec![0x34, 0x12, 0xc0, 0x7f]);
    match ParameterValue::from_payload(ValueKind::Float, &payload) {
        Some(ParameterValue::Float(bits)) => {
            assert_eq!(bits, nan);
            assert!(f32::from_bits(bits).is_nan());
        }
        other => panic!("read {:?}", other),
    }
}

#[test]
fn a_payload_is_read_as_the_field_asked_for() {
    assert_eq!(ParameterValue::from_payload(ValueKind::Int8, &[0xf4, 9, 9, 9]), Some(ParameterValue::Int8(-12)));
    assert_eq!(ParameterValue::from_payload(ValueKind::UInt8, &[0xf4, 9, 9, 9]), Some(ParameterValue::UInt8(244)));
    assert_eq!(
        ParameterValue::from_payload(ValueKind::Float, &[1, 2, 3, 4]),
        Some(ParameterValue::Float(0x0403_0201))
    );
    assert_eq!(
        ParameterValue::from_payload(ValueKind::Waveform, &[1, 0, 0, 0]),
        Some(ParameterValue::Waveform(Waveform::Saw))
    );
    assert_eq!(
        ParameterValue::from_payload(ValueKind::FilterMode, &[0, 0, 0, 0]),
        Some(ParameterValue::FilterMode(FilterMode::HighPass))
    );
}

#[test]
fn a_payload_that_cannot_be_read() {
    for kind in [ValueKind::Int8, ValueKind::UInt8, ValueKind::Float, ValueKind::Waveform, ValueKind::FilterMode] {
        assert_eq!(ParameterValue::from_payload(kind, &[]), None);
        assert_eq!(ParameterValue::from_payload(kind, &[0, 0, 0]), None);
        assert_eq!(ParameterValue::from_payload(kind, &[0, 0, 0, 0, 0]), None);
    }
    assert_eq!(ParameterValue::from_payload(ValueKind::Waveform, &[3, 0, 0, 0]), None);
    assert_eq!(ParameterValue::from_payload(ValueKind::Waveform, &[0, 1, 0, 0]), None);
    assert_eq!(ParameterValue::from_payload(ValueKind::FilterMode, &[2, 0, 0, 0]), None);
    assert_eq!(ParameterValue::from_payload(ValueKind::FilterMode, &[0, 0, 0, 1]), None);
}

#[test]
fn code_tables() {
    let sections: Vec<u32> = SECTIONS.iter().map(|s| s.code()).collect();
    assert_eq!(sections, vec![1, 2, 3, 4, 5, 6]);
    let parameters: Vec<u32> = PARAMETERS.iter().map(|p| p.code()).collect();
    assert_eq!(parameters, vec![1, 2, 3, 4, 5, 6, 7, 8, 9, 10, 11, 12]);
    assert_eq!(Waveform::Sin.code(), 0);
    assert_eq!(Waveform::Saw.code(), 1);
    assert_eq!(Waveform::Sqr.code(), 2);
    assert_eq!(FilterMode::HighPass.code(), 0);
    assert_eq!(FilterMode::LowPass.code(), 1);
    for code in 0u32..300 {
        match Section::from_code(code) {
            Some(section) => assert_eq!(section.code(), code),
            None => assert!(code == 0 || code > 6),
        }
        match ParameterType::from_code(code) {
            Some(parameter) => assert_eq!(parameter.code(), code),
            None => assert!(code == 0 || code > 12),
        }
        match Waveform::from_code(code) {
            Some(waveform) => assert_eq!(waveform.code(), code),
            None => assert!(code > 2),
        }
        match FilterMode::from_code(code) {
            Some(mode) => assert_eq!(mode.code(), code),
            None => assert!(code > 1),
        }
    }
    assert_eq!(Section::from_code(u32::MAX), None);
    for section in SECTIONS {
        assert_eq!(Section::from_code(section.code()), Some(section));
    }
    for parameter in PARAMETERS {
        assert_eq!(ParameterType::from_code(parameter.code()), Some(parameter));
    }
}

#[test]
fn the_field_of_each_parameter() {
    let expected = [
        ValueKind::Waveform,
        ValueKind::Int8,
        ValueKind::Int8,
        ValueKind::Int8,
        ValueKind::Float,
        ValueKind::UInt8,
        ValueKind::Float,
        ValueKind::FilterMode,
        ValueKind::Float,
        ValueKind::Float,
        ValueKind::Float,
        ValueKind::Float,
    ];
    for (parameter, kind) in PARAMETERS.iter().zip(expected) {
        assert_eq!(parameter.value_kind(), kind);
    }
}

#[test]
fn thirty_two_bits_on_the_wire() {
    let samples = [0u32, 1, 255, 256, 65535, 65536, 0x0102_0304, 0x8000_0000, u32::MAX];
    for x in samples {
        let mut out = vec![9u8];
        put_u32(&mut out, x);
        assert_eq!(out.len(), 5);
        assert_eq!(out[0], 9);
        assert_eq!(&out[1..], &x.to_le_bytes());
        assert_eq!(read_u32(&out, 1), x);
        assert_eq!(get_u32(&out, 1), Some(x));
        assert_eq!(get_u32(&out, 2), None);
        assert_eq!(get_u32(&out, 5), None);
        assert_eq!(get_u32(&out, usize::MAX), None);
    }
    assert_eq!(get_u32(&[], 0), None);
    assert_eq!(get_u32(&[1, 2, 3], 0), None);
    assert_eq!(get_u32(&[1, 2, 3, 4], 0), Some(0x0403_0201));
    let mut out = Vec::new();
    put_bytes(&mut out, 1, 2, 3, 4);
    assert_eq!(out, vec![1, 2, 3, 4]);
}

#[test]
fn signed_bytes_on_the_wire() {
    for v in i8::MIN..=i8::MAX {
        let byte = i8_to_byte(v);
        assert_eq!(byte, v.to_le_bytes()[0]);
        assert_eq!(byte_to_i8(byte), v);
    }
    for b in 0u8..=255 {
        assert_eq!(i8_to_byte(byte_to_i8(b)), b);
    }
    assert_eq!(i8_to_byte(-1), 255);
    assert_eq!(i8_to_byte(-128), 128);
    assert_eq!(byte_to_i8(127), 127);
    assert_eq!(byte_to_i8(128), -128);
}
