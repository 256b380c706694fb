//! User intents and the control messages that carry them to the engine.
//!
//! A control message is sixteen bytes:
//!
//! | bytes  | field                                   |
//! |--------|-----------------------------------------|
//! | 0      | channel                                 |
//! | 1..4   | reserved, written as zero               |
//! | 4..8   | section identifier, 32 bits             |
//! | 8..12  | parameter identifier, 32 bits           |
//! | 12..16 | value, in the field the parameter uses  |
//!
//! The value field holds a signed or unsigned byte in its first byte with the
//! other three zero, or the 32 bits of a float, or the 32-bit code of a
//! waveform or of a filter mode. Nothing in the message says which of these it
//! holds: the parameter identifier decides.

use vstd::prelude::*;
use vstd::std_specs::convert::FromSpecImpl;
use crate::schema::{FilterMode, ParameterType, Section, ValueKind, Waveform};
use crate::wire::{
    byte_i8, byte_to_i8, i8_byte, i8_to_byte, put_bytes, put_u32, read_u32, u32_at, u32_bytes,
};

verus! {

/// The length of a control message in bytes.
pub const CONTROL_MESSAGE_SIZE: usize = 16;

/// The channel that marks a message as coming from the control surface.
pub const UI_CHANNEL: u8 = 16;

/// The index of the first byte of the section identifier.
pub const DESTINATION_OFFSET: usize = 4;

/// The index of the first byte of the parameter identifier.
pub const PARAMETER_OFFSET: usize = 8;

/// The index of the first byte of the value.
pub const VALUE_OFFSET: usize = 12;

/// The index of an oscillator, counted from 0.
pub type Osc = u8;

/// The value that a message carries: one field of the union, with its
/// content. A float is held as its 32 bits.
#[derive(Clone, Copy, Debug, PartialEq, Eq, Structural)]
pub enum ParameterValue {
    Int8(i8),
    UInt8(u8),
    Float(u32),
    Waveform(Waveform),
    FilterMode(FilterMode),
}

/// One request of the user to change one parameter. The first four kinds
/// name an oscillator by its index and carry the value of one of its
/// controls; the last names any section and any kind of parameter.
#[derive(Clone, Copy, Debug, PartialEq, Eq, Structural)]
pub enum Message {
    /// The waveform of an oscillator.
    SetWaveform(Osc, Waveform),
    /// The coarse pitch of an oscillator, in semitones.
    SetCoarse(Osc, i8),
    /// The fine pitch of an oscillator, in cents.
    SetFine(Osc, i8),
    /// The gain of an oscillator, in decibels.
    SetOscGain(Osc, i8),
    /// A parameter of a section, with its value.
    SetParameter(Section, ParameterType, ParameterValue),
}

/// A control message as the engine receives it, field by field.
#[derive(Clone, Copy, Debug, PartialEq, Eq, Structural)]
pub struct SynthMessage {
    pub channel: u8,
    pub destination: u32,
    pub parameter: u32,
    pub value: ParameterValue,
}

impl ParameterValue {
    /// The field of the union that this value occupies.
    pub open spec fn field(self) -> ValueKind {
        match self {
            ParameterValue::Int8(_) => ValueKind::Int8,
            ParameterValue::UInt8(_) => ValueKind::UInt8,
            ParameterValue::Float(_) => ValueKind::Float,
            ParameterValue::Waveform(_) => ValueKind::Waveform,
            ParameterValue::FilterMode(_) => ValueKind::FilterMode,
        }
    }

    /// The four bytes of the value field.
    pub open spec fn payload(self) -> Seq<u8> {
        match self {
            ParameterValue::Int8(v) => seq![i8_byte(v), 0u8, 0u8, 0u8],
            ParameterValue::UInt8(v) => seq![v, 0u8, 0u8, 0u8],
            ParameterValue::Float(bits) => u32_bytes(bits),
            ParameterValue::Waveform(w) => u32_bytes(w.code()),
            ParameterValue::FilterMode(m) => u32_bytes(m.code()),
        }
    }

    /// What four bytes hold when they are read as the given field of the
    /// union. The byte fields and the float field accept any content; an
    /// enumeration field accepts the codes of its table.
    pub open spec fn read(kind: ValueKind, payload: Seq<u8>) -> Option<ParameterValue> {
        if payload.len() != 4 {
            None
        } else {
            match kind {
                ValueKind::Int8 => Some(ParameterValue::Int8(byte_i8(payload[0]))),
                ValueKind::UInt8 => Some(ParameterValue::UInt8(payload[0])),
                ValueKind::Float => Some(ParameterValue::Float(u32_at(payload, 0))),
                ValueKind::Waveform => match Waveform::of_code(u32_at(payload, 0)) {
                    Some(w) => Some(ParameterValue::Waveform(w)),
                    None => None,
                },
                ValueKind::FilterMode => match FilterMode::of_code(u32_at(payload, 0)) {
                    Some(m) => Some(ParameterValue::FilterMode(m)),
                    None => None,
                },
            }
        }
    }

    #[verifier::when_used_as_spec(field)]
    pub fn kind(self) -> (kind: ValueKind)
        ensures
            kind == self.field(),
    {
        match self {
            ParameterValue::Int8(_) => ValueKind::Int8,
            ParameterValue::UInt8(_) => ValueKind::UInt8,
            ParameterValue::Float(_) => ValueKind::Float,
            ParameterValue::Waveform(_) => ValueKind::Waveform,
            ParameterValue::FilterMode(_) => ValueKind::FilterMode,
        }
    }

    /// Appends the four bytes of the value field to `out`.
    pub fn write_payload(self, out: &mut Vec<u8>)
        ensures
            final(out)@ == old(out)@ + self.payload(),
    {
        match self {
            ParameterValue::Int8(v) => put_bytes(out, i8_to_byte(v), 0, 0, 0),
            ParameterValue::UInt8(v) => put_bytes(out, v, 0, 0, 0),
            ParameterValue::Float(bits) => put_u32(out, bits),
            ParameterValue::Waveform(w) => put_u32(out, w.code()),
            ParameterValue::FilterMode(m) => put_u32(out, m.code()),
        }
    }

    /// Reads a value field as the given field of the union. Gives nothing
    /// unless the field is four bytes long and, for an enumeration, holds a
    /// code of its table.
    pub fn from_payload(kind: ValueKind, payload: &[u8]) -> (value: Option<ParameterValue>)
        ensures
            value == ParameterValue::read(kind, payload@),
    {
        if payload.len() != 4 {
            return None;
        }
        match kind {
            ValueKind::Int8 => Some(ParameterValue::Int8(byte_to_i8(payload[0]))),
            ValueKind::UInt8 => Some(ParameterValue::UInt8(payload[0])),
            ValueKind::Float => Some(ParameterValue::Float(read_u32(payload, 0))),
            ValueKind::Waveform => match Waveform::from_code(read_u32(payload, 0)) {
                Some(w) => Some(ParameterValue::Waveform(w)),
                None => None,
            },
            ValueKind::FilterMode => match FilterMode::from_code(read_u32(payload, 0)) {
                Some(m) => Some(ParameterValue::FilterMode(m)),
                None => None,
            },
        }
    }
}

impl Message {
    /// The section that the intent addresses.
    pub open spec fn section(self) -> Section {
        match self {
            Message::SetWaveform(osc, _) => Section::of_oscillator(osc),
            Message::SetCoarse(osc, _) => Section::of_oscillator(osc),
            Message::SetFine(osc, _) => Section::of_oscillator(osc),
            Message::SetOscGain(osc, _) => Section::of_oscillator(osc),
            Message::SetParameter(section, _, _) => section,
        }
    }

    /// The kind of parameter that the intent addresses.
    pub open spec fn parameter(self) -> ParameterType {
        match self {
            Message::SetWaveform(_, _) => ParameterType::Waveform,
            Message::SetCoarse(_, _) => ParameterType::Coarse,
            Message::SetFine(_, _) => ParameterType::Fine,
            Message::SetOscGain(_, _) => ParameterType::Gain,
            Message::SetParameter(_, parameter, _) => parameter,
        }
    }

    /// The value that the intent asks for.
    pub open spec fn value(self) -> ParameterValue {
        match self {
            Message::SetWaveform(_, waveform) => ParameterValue::Waveform(waveform),
            Message::SetCoarse(_, v) => ParameterValue::Int8(v),
            Message::SetFine(_, v) => ParameterValue::Int8(v),
            Message::SetOscGain(_, v) => ParameterValue::Int8(v),
            Message::SetParameter(_, _, value) => value,
        }
    }

    /// Whether the value sits in the field that its parameter uses.
    pub open spec fn well_typed(self) -> bool {
        self.value().field() == self.parameter().field()
    }

    /// The control message that carries the intent: it comes from the
    /// control surface, names the section and the kind of parameter that the
    /// intent addresses, and holds the value that the intent asks for.
    pub open spec fn control(self) -> SynthMessage {
        SynthMessage {
            channel: UI_CHANNEL,
            destination: self.section().code(),
            parameter: self.parameter().code(),
            value: self.value(),
        }
    }

    /// The sixteen bytes that carry the intent.
    pub open spec fn frame(self) -> Seq<u8> {
        self.control().frame()
    }

    #[verifier::when_used_as_spec(well_typed)]
    pub fn is_well_typed(self) -> (ok: bool)
        ensures
            ok == self.well_typed(),
    {
        match self {
            Message::SetParameter(_, parameter, value) => value.kind() == parameter.value_kind(),
            _ => true,
        }
    }

    /// Encodes the intent as the bytes of its control message. Every intent
    /// is encoded; none is refused.
    pub fn encode(self) -> (bytes: Vec<u8>)
        ensures
            bytes@ == self.frame(),
            bytes@.len() == CONTROL_MESSAGE_SIZE,
    {
        SynthMessage::from(self).to_bytes()
    }
}

impl SynthMessage {
    /// The message with zeroed identifiers and a zero payload. It addresses
    /// nothing, so it changes nothing in the engine: it is what a control
    /// without a mapping stands for on the wire. Every kind of intent of this
    /// library has its mapping, and none encodes to this message.
    pub open spec fn placeholder() -> SynthMessage {
        SynthMessage { channel: UI_CHANNEL, destination: 0, parameter: 0, value: ParameterValue::Int8(0) }
    }

    /// The sixteen bytes of the message.
    pub open spec fn frame(self) -> Seq<u8> {
        seq![self.channel, 0u8, 0u8, 0u8] + u32_bytes(self.destination) + u32_bytes(self.parameter)
            + self.value.payload()
    }

    /// Writes the message out field by field.
    pub fn to_bytes(&self) -> (bytes: Vec<u8>)
        ensures
            bytes@ == self.frame(),
            bytes@.len() == CONTROL_MESSAGE_SIZE,
    {
        let mut bytes: Vec<u8> = Vec::with_capacity(CONTROL_MESSAGE_SIZE);
        put_bytes(&mut bytes, self.channel, 0, 0, 0);
        assert(bytes@ =~= seq![self.channel, 0u8, 0u8, 0u8]);
        put_u32(&mut bytes, self.destination);
        put_u32(&mut bytes, self.parameter);
        self.value.write_payload(&mut bytes);
        bytes
    }
}

impl From<Message> for SynthMessage {
    fn from(value: Message) -> (message: SynthMessage) {
        match value {
            Message::SetWaveform(osc, waveform) => SynthMessage {
                channel: UI_CHANNEL,
                destination: Section::for_oscillator(osc).code(),
                parameter: ParameterType::Waveform.code(),
                value: ParameterValue::Waveform(waveform),
            },
            Message::SetCoarse(osc, v) => SynthMessage {
                channel: UI_CHANNEL,
                destination: Section::for_oscillator(osc).code(),
                parameter: ParameterType::Coarse.code(),
                value: ParameterValue::Int8(v),
            },
            Message::SetFine(osc, v) => SynthMessage {
                channel: UI_CHANNEL,
                destination: Section::for_oscillator(osc).code(),
                parameter: ParameterType::Fine.code(),
                value: ParameterValue::Int8(v),
            },
            Message::SetOscGain(osc, v) => SynthMessage {
                channel: UI_CHANNEL,
                destination: Section::for_oscillator(osc).code(),
                parameter: ParameterType::Gain.code(),
                value: ParameterValue::Int8(v),
            },
            Message::SetParameter(section, parameter, value) => SynthMessage {
                channel: UI_CHANNEL,
                destination: section.code(),
                parameter: parameter.code(),
                value,
            },
        }
    }
}

impl FromSpecImpl<Message> for SynthMessage {
    open spec fn obeys_from_spec() -> bool {
        true
    }

    open spec fn from_spec(value: Message) -> SynthMessage {
        value.control()
    }
}

/// The layout is fixed: a frame is sixteen bytes, with each field at its
/// offset, whatever the message holds.
pub proof fn law_frame_layout(message: SynthMessage)
    ensures
        message.frame().len() == CONTROL_MESSAGE_SIZE,
        message.frame()[0] == message.channel,
        message.frame()[1] == 0 && message.frame()[2] == 0 && message.frame()[3] == 0,
        u32_at(message.frame(), DESTINATION_OFFSET as int) == message.destination,
        u32_at(message.frame(), PARAMETER_OFFSET as int) == message.parameter,
        message.frame().subrange(VALUE_OFFSET as int, CONTROL_MESSAGE_SIZE as int)
            == message.value.payload(),
{
    let frame = message.frame();
    let head = seq![message.channel, 0u8, 0u8, 0u8];
    let destination = u32_bytes(message.destination);
    let parameter = u32_bytes(message.parameter);
    let payload = message.value.payload();
    crate::wire::lemma_u32_round_trip(message.destination);
    crate::wire::lemma_u32_round_trip(message.parameter);
    assert(payload.len() == 4);
    assert(frame.subrange(4, 8) =~= destination);
    assert(frame.subrange(8, 12) =~= parameter);
    assert(frame.subrange(12, 16) =~= payload);
    assert(u32_at(frame, 4) == u32_at(frame.subrange(4, 8), 0));
    assert(u32_at(frame, 8) == u32_at(frame.subrange(8, 12), 0));
}

/// A value is recovered bit for bit from its four bytes, read as the field
/// that it occupies.
pub proof fn law_value_round_trip(value: ParameterValue)
    ensures
        value.payload().len() == 4,
        ParameterValue::read(value.field(), value.payload()) == Some(value),
{
    match value {
        ParameterValue::Int8(v) => {
            crate::wire::lemma_i8_round_trip(v, 0);
        },
        ParameterValue::UInt8(_) => {},
        ParameterValue::Float(bits) => {
            crate::wire::lemma_u32_round_trip(bits);
        },
        ParameterValue::Waveform(w) => {
            crate::wire::lemma_u32_round_trip(w.code());
        },
        ParameterValue::FilterMode(m) => {
            crate::wire::lemma_u32_round_trip(m.code());
        },
    }
}

/// Every intent is carried: the control message comes from the control
/// surface, names the section and the kind of parameter that the intent
/// addresses, and holds the intent's value; the identifiers and the value are
/// read back unchanged from the frame, the value from the field it occupies,
/// which for a well-typed intent is the field that the parameter identifier
/// names. An intent that names an oscillator always is well-typed.
pub proof fn law_intent_is_carried(intent: Message)
    ensures
        !(intent is SetParameter) ==> intent.well_typed(),
        intent.control().channel == UI_CHANNEL,
        intent.control().destination == intent.section().code(),
        intent.control().parameter == intent.parameter().code(),
        intent.control().value == intent.value(),
        intent.frame().len() == CONTROL_MESSAGE_SIZE,
        Section::of_code(u32_at(intent.frame(), DESTINATION_OFFSET as int)) == Some(
            intent.section(),
        ),
        ParameterType::of_code(u32_at(intent.frame(), PARAMETER_OFFSET as int)) == Some(
            intent.parameter(),
        ),
        ParameterValue::read(
            intent.value().field(),
            intent.frame().subrange(VALUE_OFFSET as int, CONTROL_MESSAGE_SIZE as int),
        ) == Some(intent.value()),
        intent.well_typed() ==> ParameterValue::read(
            intent.parameter().field(),
            intent.frame().subrange(VALUE_OFFSET as int, CONTROL_MESSAGE_SIZE as int),
        ) == Some(intent.value()),
{
    law_frame_layout(intent.control());
    law_value_round_trip(intent.value());
}

/// The frame of the placeholder is the channel byte followed by fifteen
/// zero bytes, and no intent gives that frame.
pub proof fn law_placeholder(intent: Message)
    ensures
        SynthMessage::placeholder().frame() == seq![UI_CHANNEL].add(Seq::new(15, |i: int| 0u8)),
        intent.control() != SynthMessage::placeholder(),
        intent.frame() != SynthMessage::placeholder().frame(),
{
    let zero = SynthMessage::placeholder();
    assert(zero.frame() =~= seq![UI_CHANNEL].add(Seq::new(15, |i: int| 0u8)));
    law_frame_layout(intent.control());
    law_frame_layout(zero);
}

} // verus!
