//! The identifiers of the wire schema.
//!
//! The engine addresses a parameter by two small integers, one for the section
//! and one for the kind of parameter, and it names waveforms and filter modes
//! by integers too. Inside this library each of these axes is an enumeration;
//! the tables below are the only place where an enumeration meets its integer.
//! Code 0 is assigned to no section and to no parameter, so that a message with
//! zeroed identifiers addresses nothing.

use vstd::prelude::*;

verus! {

/// A destination group of parameters.
#[derive(Clone, Copy, Debug, PartialEq, Eq, Structural)]
pub enum Section {
    Osc1,
    Osc2,
    Osc3,
    Filter,
    Amp,
    Global,
}

/// The kind of parameter that a message sets within its section.
#[derive(Clone, Copy, Debug, PartialEq, Eq, Structural)]
pub enum ParameterType {
    Waveform,
    Coarse,
    Fine,
    Gain,
    Cutoff,
    Resonance,
    Emphasis,
    Mode,
    Attack,
    Decay,
    Sustain,
    Release,
}

/// The shape of an oscillator's wave.
#[derive(Clone, Copy, Debug, PartialEq, Eq, Structural)]
pub enum Waveform {
    Sin,
    Saw,
    Sqr,
}

/// The response of the filter.
#[derive(Clone, Copy, Debug, PartialEq, Eq, Structural)]
pub enum FilterMode {
    HighPass,
    LowPass,
}

/// Which field of the value union a parameter uses.
#[derive(Clone, Copy, Debug, PartialEq, Eq, Structural)]
pub enum ValueKind {
    Int8,
    UInt8,
    Float,
    Waveform,
    FilterMode,
}

impl Section {
    /// The integer that names this section on the wire.
    pub open spec fn wire_code(self) -> u32 {
        match self {
            Section::Osc1 => 1,
            Section::Osc2 => 2,
            Section::Osc3 => 3,
            Section::Filter => 4,
            Section::Amp => 5,
            Section::Global => 6,
        }
    }

    /// The section that a wire integer names, if it names one.
    pub open spec fn of_code(code: u32) -> Option<Section> {
        if code == 1 {
            Some(Section::Osc1)
        } else if code == 2 {
            Some(Section::Osc2)
        } else if code == 3 {
            Some(Section::Osc3)
        } else if code == 4 {
            Some(Section::Filter)
        } else if code == 5 {
            Some(Section::Amp)
        } else if code == 6 {
            Some(Section::Global)
        } else {
            None
        }
    }

    /// The section that the oscillator with the given index belongs to: the
    /// three oscillators are numbered from 0, and any other index falls to
    /// the global section.
    pub open spec fn of_oscillator(index: u8) -> Section {
        if index == 0 {
            Section::Osc1
        } else if index == 1 {
            Section::Osc2
        } else if index == 2 {
            Section::Osc3
        } else {
            Section::Global
        }
    }

    #[verifier::when_used_as_spec(wire_code)]
    pub fn code(self) -> (code: u32)
        ensures
            code == self.wire_code(),
    {
        match self {
            Section::Osc1 => 1,
            Section::Osc2 => 2,
            Section::Osc3 => 3,
            Section::Filter => 4,
            Section::Amp => 5,
            Section::Global => 6,
        }
    }

    pub fn from_code(code: u32) -> (section: Option<Section>)
        ensures
            section == Section::of_code(code),
    {
        match code {
            1 => Some(Section::Osc1),
            2 => Some(Section::Osc2),
            3 => Some(Section::Osc3),
            4 => Some(Section::Filter),
            5 => Some(Section::Amp),
            6 => Some(Section::Global),
            _ => None,
        }
    }

    pub fn for_oscillator(index: u8) -> (section: Section)
        ensures
            section == Section::of_oscillator(index),
    {
        match index {
            0 => Section::Osc1,
            1 => Section::Osc2,
            2 => Section::Osc3,
            _ => Section::Global,
        }
    }
}

impl ParameterType {
    /// The integer that names this kind of parameter on the wire.
    pub open spec fn wire_code(self) -> u32 {
        match self {
            ParameterType::Waveform => 1,
            ParameterType::Coarse => 2,
            ParameterType::Fine => 3,
            ParameterType::Gain => 4,
            ParameterType::Cutoff => 5,
            ParameterType::Resonance => 6,
            ParameterType::Emphasis => 7,
            ParameterType::Mode => 8,
            ParameterType::Attack => 9,
            ParameterType::Decay => 10,
            ParameterType::Sustain => 11,
            ParameterType::Release => 12,
        }
    }

    /// The kind of parameter that a wire integer names, if it names one.
    pub open spec fn of_code(code: u32) -> Option<ParameterType> {
        if code == 1 {
            Some(ParameterType::Waveform)
        } else if code == 2 {
            Some(ParameterType::Coarse)
        } else if code == 3 {
            Some(ParameterType::Fine)
        } else if code == 4 {
            Some(ParameterType::Gain)
        } else if code == 5 {
            Some(ParameterType::Cutoff)
        } else if code == 6 {
            Some(ParameterType::Resonance)
        } else if code == 7 {
            Some(ParameterType::Emphasis)
        } else if code == 8 {
            Some(ParameterType::Mode)
        } else if code == 9 {
            Some(ParameterType::Attack)
        } else if code == 10 {
            Some(ParameterType::Decay)
        } else if code == 11 {
            Some(ParameterType::Sustain)
        } else if code == 12 {
            Some(ParameterType::Release)
        } else {
            None
        }
    }

    /// The field of the value union that a parameter of this kind uses.
    pub open spec fn field(self) -> ValueKind {
        match self {
            ParameterType::Waveform => ValueKind::Waveform,
            ParameterType::Coarse => ValueKind::Int8,
            ParameterType::Fine => ValueKind::Int8,
            ParameterType::Gain => ValueKind::Int8,
            ParameterType::Cutoff => ValueKind::Float,
            ParameterType::Resonance => ValueKind::UInt8,
            ParameterType::Emphasis => ValueKind::Float,
            ParameterType::Mode => ValueKind::FilterMode,
            ParameterType::Attack => ValueKind::Float,
            ParameterType::Decay => ValueKind::Float,
            ParameterType::Sustain => ValueKind::Float,
            ParameterType::Release => ValueKind::Float,
        }
    }

    #[verifier::when_used_as_spec(wire_code)]
    pub fn code(self) -> (code: u32)
        ensures
            code == self.wire_code(),
    {
        match self {
            ParameterType::Waveform => 1,
            ParameterType::Coarse => 2,
            ParameterType::Fine => 3,
            ParameterType::Gain => 4,
            ParameterType::Cutoff => 5,
            ParameterType::Resonance => 6,
            ParameterType::Emphasis => 7,
            ParameterType::Mode => 8,
            ParameterType::Attack => 9,
            ParameterType::Decay => 10,
            ParameterType::Sustain => 11,
            ParameterType::Release => 12,
        }
    }

    pub fn from_code(code: u32) -> (parameter: Option<ParameterType>)
        ensures
            parameter == ParameterType::of_code(code),
    {
        match code {
            1 => Some(ParameterType::Waveform),
            2 => Some(ParameterType::Coarse),
            3 => Some(ParameterType::Fine),
            4 => Some(ParameterType::Gain),
            5 => Some(ParameterType::Cutoff),
            6 => Some(ParameterType::Resonance),
            7 => Some(ParameterType::Emphasis),
            8 => Some(ParameterType::Mode),
            9 => Some(ParameterType::Attack),
            10 => Some(ParameterType::Decay),
            11 => Some(ParameterType::Sustain),
            12 => Some(ParameterType::Release),
            _ => None,
        }
    }

    #[verifier::when_used_as_spec(field)]
    pub fn value_kind(self) -> (kind: ValueKind)
        ensures
            kind == self.field(),
    {
        match self {
            ParameterType::Waveform => ValueKind::Waveform,
            ParameterType::Coarse | ParameterType::Fine | ParameterType::Gain => ValueKind::Int8,
            ParameterType::Resonance => ValueKind::UInt8,
            ParameterType::Mode => ValueKind::FilterMode,
            ParameterType::Cutoff
            | ParameterType::Emphasis
            | ParameterType::Attack
            | ParameterType::Decay
            | ParameterType::Sustain
            | ParameterType::Release => ValueKind::Float,
        }
    }
}

impl Waveform {
    /// The integer that names this waveform on the wire.
    pub open spec fn wire_code(self) -> u32 {
        match self {
            Waveform::Sin => 0,
            Waveform::Saw => 1,
            Waveform::Sqr => 2,
        }
    }

    /// The waveform that a wire integer names, if it names one.
    pub open spec fn of_code(code: u32) -> Option<Waveform> {
        if code == 0 {
            Some(Waveform::Sin)
        } else if code == 1 {
            Some(Waveform::Saw)
        } else if code == 2 {
            Some(Waveform::Sqr)
        } else {
            None
        }
    }

    #[verifier::when_used_as_spec(wire_code)]
    pub fn code(self) -> (code: u32)
        ensures
            code == self.wire_code(),
    {
        match self {
            Waveform::Sin => 0,
            Waveform::Saw => 1,
            Waveform::Sqr => 2,
        }
    }

    pub fn from_code(code: u32) -> (waveform: Option<Waveform>)
        ensures
            waveform == Waveform::of_code(code),
    {
        match code {
            0 => Some(Waveform::Sin),
            1 => Some(Waveform::Saw),
            2 => Some(Waveform::Sqr),
            _ => None,
        }
    }
}

impl FilterMode {
    /// The integer that names this filter mode on the wire.
    pub open spec fn wire_code(self) -> u32 {
        match self {
            FilterMode::HighPass => 0,
            FilterMode::LowPass => 1,
        }
    }

    /// The filter mode that a wire integer names, if it names one.
    pub open spec fn of_code(code: u32) -> Option<FilterMode> {
        if code == 0 {
            Some(FilterMode::HighPass)
        } else if code == 1 {
            Some(FilterMode::LowPass)
        } else {
            None
        }
    }

    #[verifier::when_used_as_spec(wire_code)]
    pub fn code(self) -> (code: u32)
        ensures
            code == self.wire_code(),
    {
        match self {
            FilterMode::HighPass => 0,
            FilterMode::LowPass => 1,
        }
    }

    pub fn from_code(code: u32) -> (mode: Option<FilterMode>)
        ensures
            mode == FilterMode::of_code(code),
    {
        match code {
            0 => Some(FilterMode::HighPass),
            1 => Some(FilterMode::LowPass),
            _ => None,
        }
    }
}

/// Each table is one-to-one: looking up the code of an identifier gives the
/// identifier back, and no code but an identifier's own is looked up to it.
pub proof fn law_codes_are_one_to_one(
    section: Section,
    parameter: ParameterType,
    waveform: Waveform,
    mode: FilterMode,
    code: u32,
)
    ensures
        Section::of_code(section.code()) == Some(section),
        ParameterType::of_code(parameter.code()) == Some(parameter),
        Waveform::of_code(waveform.code()) == Some(waveform),
        FilterMode::of_code(mode.code()) == Some(mode),
        Section::of_code(code) == Some(section) ==> code == section.code(),
        ParameterType::of_code(code) == Some(parameter) ==> code == parameter.code(),
        Waveform::of_code(code) == Some(waveform) ==> code == waveform.code(),
        FilterMode::of_code(code) == Some(mode) ==> code == mode.code(),
{
}

/// Code 0 names no section and no kind of parameter.
pub proof fn law_zero_names_nothing(section: Section, parameter: ParameterType)
    ensures
        section.code() != 0,
        parameter.code() != 0,
        Section::of_code(0) is None,
        ParameterType::of_code(0) is None,
{
}

} // verus!
