//! The parameter set as the control surface shows it.
//!
//! The control surface keeps one value per control, grouped by section. A
//! float is held as its 32 bits, a waveform or filter mode as its wire code,
//! exactly as a snapshot delivers them. Whether a snapshot from the engine
//! replaces what the surface shows is a choice of its own, made by whoever
//! owns the surface.

use vstd::prelude::*;
use vstd::std_specs::convert::FromSpecImpl;
use crate::message::{Message, Osc, ParameterValue};
use crate::patch::Patch;
use crate::schema::{FilterMode, ParameterType, Section, Waveform};

verus! {

/// The 32 bits of 20.0: the attack of a fresh envelope, in milliseconds, and
/// the lower end of the time and frequency ranges.
pub const BITS_20: u32 = 0x41A0_0000;

/// The 32 bits of 200.0: the decay of a fresh envelope, in milliseconds.
pub const BITS_200: u32 = 0x4348_0000;

/// The 32 bits of 0.5: the sustain level of a fresh envelope.
pub const BITS_HALF: u32 = 0x3F00_0000;

/// The 32 bits of 500.0: the release of a fresh envelope, in milliseconds.
pub const BITS_500: u32 = 0x43FA_0000;

/// The 32 bits of 2000.0: the upper end of the range of the envelope times,
/// in milliseconds.
pub const BITS_2000: u32 = 0x44FA_0000;

/// The 32 bits of 20000.0: the upper end of the range of the cutoff, in hertz.
pub const BITS_20000: u32 = 0x469C_4000;

/// The 32 bits of 1.0: the upper end of the range of a level.
pub const BITS_ONE: u32 = 0x3F80_0000;

/// The range of the coarse pitch control, in semitones either way.
pub const COARSE_LIMIT: i8 = 24;

/// The range of the fine pitch control, in cents either way.
pub const FINE_LIMIT: i8 = 50;

/// The highest gain, in decibels.
pub const GAIN_MAX: i8 = 6;

/// The lowest gain, which stands for silence.
pub const GAIN_SILENT: i8 = -128;

/// The controls of one oscillator.
#[derive(Clone, Copy, Debug, PartialEq, Eq, Structural)]
pub struct OscillatorCfg {
    pub waveform: u32,
    pub coarse: i8,
    pub fine: i8,
    pub gain: i8,
}

/// The four stages of an envelope.
#[derive(Clone, Copy, Debug, PartialEq, Eq, Structural)]
pub struct EnvelopeCfg {
    pub attack: u32,
    pub decay: u32,
    pub sustain: u32,
    pub release: u32,
}

/// The controls of the filter section.
#[derive(Clone, Copy, Debug, PartialEq, Eq, Structural)]
pub struct FilterCfg {
    pub filter_type: u32,
    pub envelope: EnvelopeCfg,
    pub cutoff: u32,
    pub resonance: u8,
    pub emphasis: u32,
}

/// The controls of the amplifier section.
#[derive(Clone, Copy, Debug, PartialEq, Eq, Structural)]
pub struct AmplConfig {
    pub envelope: EnvelopeCfg,
    pub gain: i8,
}

/// Everything the control surface shows.
#[derive(Clone, Copy, Debug, PartialEq, Eq, Structural)]
pub struct PatchUI {
    pub osc_1: OscillatorCfg,
    pub osc_2: OscillatorCfg,
    pub osc_3: OscillatorCfg,
    pub filter: FilterCfg,
    pub amp: AmplConfig,
}

/// What the control surface does with a snapshot that the engine sent.
#[derive(Clone, Copy, Debug, PartialEq, Eq, Structural)]
pub enum SnapshotPolicy {
    /// The snapshot is taken from the channel and dropped.
    Discard,
    /// The snapshot replaces what the surface shows.
    Apply,
}

impl OscillatorCfg {
    /// A fresh oscillator: the waveform with code 0, no detuning, gain 0.
    pub open spec fn fresh() -> OscillatorCfg {
        OscillatorCfg { waveform: 0, coarse: 0, fine: 0, gain: 0 }
    }

    /// Selects a waveform, and gives the intent that tells the engine of it.
    pub fn select_waveform(&mut self, index: Osc, waveform: Waveform) -> (intent: Message)
        ensures
            *final(self) == (OscillatorCfg { waveform: waveform.code(), ..*old(self) }),
            intent == Message::SetParameter(
                Section::of_oscillator(index),
                ParameterType::Waveform,
                ParameterValue::Waveform(waveform),
            ),
            intent.well_typed(),
    {
        self.waveform = waveform.code();
        Message::SetParameter(
            Section::for_oscillator(index),
            ParameterType::Waveform,
            ParameterValue::Waveform(waveform),
        )
    }

    /// The intent that tells the engine of the coarse pitch shown.
    pub fn coarse_intent(&self, index: Osc) -> (intent: Message)
        ensures
            intent == Message::SetParameter(
                Section::of_oscillator(index),
                ParameterType::Coarse,
                ParameterValue::Int8(self.coarse),
            ),
            intent.well_typed(),
    {
        Message::SetParameter(
            Section::for_oscillator(index),
            ParameterType::Coarse,
            ParameterValue::Int8(self.coarse),
        )
    }

    /// The intent that tells the engine of the fine pitch shown.
    pub fn fine_intent(&self, index: Osc) -> (intent: Message)
        ensures
            intent == Message::SetParameter(
                Section::of_oscillator(index),
                ParameterType::Fine,
                ParameterValue::Int8(self.fine),
            ),
            intent.well_typed(),
    {
        Message::SetParameter(
            Section::for_oscillator(index),
            ParameterType::Fine,
            ParameterValue::Int8(self.fine),
        )
    }

    /// The intent that tells the engine of the gain shown.
    pub fn gain_intent(&self, index: Osc) -> (intent: Message)
        ensures
            intent == Message::SetParameter(
                Section::of_oscillator(index),
                ParameterType::Gain,
                ParameterValue::Int8(self.gain),
            ),
            intent.well_typed(),
    {
        Message::SetParameter(
            Section::for_oscillator(index),
            ParameterType::Gain,
            ParameterValue::Int8(self.gain),
        )
    }
}

impl EnvelopeCfg {
    /// A fresh envelope: attack 20, decay 200, sustain one half, release 500.
    pub open spec fn fresh() -> EnvelopeCfg {
        EnvelopeCfg { attack: BITS_20, decay: BITS_200, sustain: BITS_HALF, release: BITS_500 }
    }

    /// The intent that tells the engine of the attack shown, for the
    /// envelope of the given section.
    pub fn attack_intent(&self, section: Section) -> (intent: Message)
        ensures
            intent == Message::SetParameter(
                section,
                ParameterType::Attack,
                ParameterValue::Float(self.attack),
            ),
            intent.well_typed(),
    {
        Message::SetParameter(section, ParameterType::Attack, ParameterValue::Float(self.attack))
    }

    /// The intent that tells the engine of the decay shown.
    pub fn decay_intent(&self, section: Section) -> (intent: Message)
        ensures
            intent == Message::SetParameter(
                section,
                ParameterType::Decay,
                ParameterValue::Float(self.decay),
            ),
            intent.well_typed(),
    {
        Message::SetParameter(section, ParameterType::Decay, ParameterValue::Float(self.decay))
    }

    /// The intent that tells the engine of the sustain level shown.
    pub fn sustain_intent(&self, section: Section) -> (intent: Message)
        ensures
            intent == Message::SetParameter(
                section,
                ParameterType::Sustain,
                ParameterValue::Float(self.sustain),
            ),
            intent.well_typed(),
    {
        Message::SetParameter(section, ParameterType::Sustain, ParameterValue::Float(self.sustain))
    }

    /// The intent that tells the engine of the release shown.
    pub fn release_intent(&self, section: Section) -> (intent: Message)
        ensures
            intent == Message::SetParameter(
                section,
                ParameterType::Release,
                ParameterValue::Float(self.release),
            ),
            intent.well_typed(),
    {
        Message::SetParameter(section, ParameterType::Release, ParameterValue::Float(self.release))
    }
}

impl FilterCfg {
    /// A fresh filter: the mode with code 0, a fresh envelope, and cutoff,
    /// resonance and emphasis at zero.
    pub open spec fn fresh() -> FilterCfg {
        FilterCfg {
            filter_type: 0,
            envelope: EnvelopeCfg::fresh(),
            cutoff: 0,
            resonance: 0,
            emphasis: 0,
        }
    }

    /// Selects a filter mode, and gives the intent that tells the engine of
    /// it.
    pub fn select_mode(&mut self, mode: FilterMode) -> (intent: Message)
        ensures
            *final(self) == (FilterCfg { filter_type: mode.code(), ..*old(self) }),
            intent == Message::SetParameter(
                Section::Filter,
                ParameterType::Mode,
                ParameterValue::FilterMode(mode),
            ),
            intent.well_typed(),
    {
        self.filter_type = mode.code();
        Message::SetParameter(Section::Filter, ParameterType::Mode, ParameterValue::FilterMode(mode))
    }

    /// The intent that tells the engine of the cutoff shown.
    pub fn cutoff_intent(&self) -> (intent: Message)
        ensures
            intent == Message::SetParameter(
                Section::Filter,
                ParameterType::Cutoff,
                ParameterValue::Float(self.cutoff),
            ),
            intent.well_typed(),
    {
        Message::SetParameter(Section::Filter, ParameterType::Cutoff, ParameterValue::Float(self.cutoff))
    }

    /// The intent that tells the engine of the resonance shown.
    pub fn resonance_intent(&self) -> (intent: Message)
        ensures
            intent == Message::SetParameter(
                Section::Filter,
                ParameterType::Resonance,
                ParameterValue::UInt8(self.resonance),
            ),
            intent.well_typed(),
    {
        Message::SetParameter(
            Section::Filter,
            ParameterType::Resonance,
            ParameterValue::UInt8(self.resonance),
        )
    }

    /// The intent that tells the engine of the emphasis shown.
    pub fn emphasis_intent(&self) -> (intent: Message)
        ensures
            intent == Message::SetParameter(
                Section::Filter,
                ParameterType::Emphasis,
                ParameterValue::Float(self.emphasis),
            ),
            intent.well_typed(),
    {
        Message::SetParameter(
            Section::Filter,
            ParameterType::Emphasis,
            ParameterValue::Float(self.emphasis),
        )
    }
}

impl AmplConfig {
    /// A fresh amplifier: a fresh envelope and gain 0.
    pub open spec fn fresh() -> AmplConfig {
        AmplConfig { envelope: EnvelopeCfg::fresh(), gain: 0 }
    }

    /// The intent that tells the engine of the gain shown.
    pub fn gain_intent(&self) -> (intent: Message)
        ensures
            intent == Message::SetParameter(
                Section::Amp,
                ParameterType::Gain,
                ParameterValue::Int8(self.gain),
            ),
            intent.well_typed(),
    {
        Message::SetParameter(Section::Amp, ParameterType::Gain, ParameterValue::Int8(self.gain))
    }
}

impl PatchUI {
    /// A fresh surface: every section fresh.
    pub open spec fn fresh() -> PatchUI {
        PatchUI {
            osc_1: OscillatorCfg::fresh(),
            osc_2: OscillatorCfg::fresh(),
            osc_3: OscillatorCfg::fresh(),
            filter: FilterCfg::fresh(),
            amp: AmplConfig::fresh(),
        }
    }

    /// What the surface shows when it shows exactly the given snapshot.
    pub open spec fn showing(patch: Patch) -> PatchUI {
        PatchUI {
            osc_1: OscillatorCfg {
                waveform: patch.osc1_waveform,
                coarse: patch.osc1_coarse,
                fine: patch.osc1_fine,
                gain: patch.osc1_gain,
            },
            osc_2: OscillatorCfg {
                waveform: patch.osc2_waveform,
                coarse: patch.osc2_coarse,
                fine: patch.osc2_fine,
                gain: patch.osc2_gain,
            },
            osc_3: OscillatorCfg {
                waveform: patch.osc3_waveform,
                coarse: patch.osc3_coarse,
                fine: patch.osc3_fine,
                gain: patch.osc3_gain,
            },
            filter: FilterCfg {
                filter_type: patch.filter_mode,
                envelope: EnvelopeCfg {
                    attack: patch.filter_attack,
                    decay: patch.filter_decay,
                    sustain: patch.filter_sustain,
                    release: patch.filter_release,
                },
                cutoff: patch.filter_cutoff,
                resonance: patch.filter_resonance,
                emphasis: patch.filter_emphasis,
            },
            amp: AmplConfig {
                gain: patch.amp_gain,
                envelope: EnvelopeCfg {
                    attack: patch.amp_attack,
                    decay: patch.amp_decay,
                    sustain: patch.amp_sustain,
                    release: patch.amp_release,
                },
            },
        }
    }

    /// The snapshot that holds exactly what the surface shows.
    pub open spec fn snapshot(self) -> Patch {
        Patch {
            osc1_waveform: self.osc_1.waveform,
            osc1_coarse: self.osc_1.coarse,
            osc1_fine: self.osc_1.fine,
            osc1_gain: self.osc_1.gain,
            osc2_waveform: self.osc_2.waveform,
            osc2_coarse: self.osc_2.coarse,
            osc2_fine: self.osc_2.fine,
            osc2_gain: self.osc_2.gain,
            osc3_waveform: self.osc_3.waveform,
            osc3_coarse: self.osc_3.coarse,
            osc3_fine: self.osc_3.fine,
            osc3_gain: self.osc_3.gain,
            filter_mode: self.filter.filter_type,
            filter_attack: self.filter.envelope.attack,
            filter_decay: self.filter.envelope.decay,
            filter_sustain: self.filter.envelope.sustain,
            filter_release: self.filter.envelope.release,
            filter_cutoff: self.filter.cutoff,
            filter_resonance: self.filter.resonance,
            filter_emphasis: self.filter.emphasis,
            amp_gain: self.amp.gain,
            amp_attack: self.amp.envelope.attack,
            amp_decay: self.amp.envelope.decay,
            amp_sustain: self.amp.envelope.sustain,
            amp_release: self.amp.envelope.release,
        }
    }

    /// What the surface shows after a snapshot arrived, under the given
    /// policy.
    pub open spec fn after(self, patch: Patch, policy: SnapshotPolicy) -> PatchUI {
        match policy {
            SnapshotPolicy::Discard => self,
            SnapshotPolicy::Apply => PatchUI::showing(patch),
        }
    }

    /// Takes a snapshot that the engine sent and deals with it as the policy
    /// says.
    pub fn receive(&mut self, patch: Patch, policy: SnapshotPolicy)
        ensures
            *final(self) == old(self).after(patch, policy),
    {
        match policy {
            SnapshotPolicy::Discard => {},
            SnapshotPolicy::Apply => {
                *self = PatchUI::from(patch);
            },
        }
    }
}

impl Default for OscillatorCfg {
    fn default() -> (cfg: OscillatorCfg)
        ensures
            cfg == OscillatorCfg::fresh(),
    {
        OscillatorCfg { waveform: 0, coarse: 0, fine: 0, gain: 0 }
    }
}

impl Default for EnvelopeCfg {
    fn default() -> (cfg: EnvelopeCfg)
        ensures
            cfg == EnvelopeCfg::fresh(),
    {
        EnvelopeCfg { attack: BITS_20, decay: BITS_200, sustain: BITS_HALF, release: BITS_500 }
    }
}

impl Default for FilterCfg {
    fn default() -> (cfg: FilterCfg)
        ensures
            cfg == FilterCfg::fresh(),
    {
        FilterCfg {
            filter_type: 0,
            envelope: EnvelopeCfg::default(),
            cutoff: 0,
            resonance: 0,
            emphasis: 0,
        }
    }
}

impl Default for AmplConfig {
    fn default() -> (cfg: AmplConfig)
        ensures
            cfg == AmplConfig::fresh(),
    {
        AmplConfig { envelope: EnvelopeCfg::default(), gain: 0 }
    }
}

impl Default for PatchUI {
    fn default() -> (ui: PatchUI)
        ensures
            ui == PatchUI::fresh(),
    {
        PatchUI {
            osc_1: OscillatorCfg::default(),
            osc_2: OscillatorCfg::default(),
            osc_3: OscillatorCfg::default(),
            filter: FilterCfg::default(),
            amp: AmplConfig::default(),
        }
    }
}

impl From<Patch> for PatchUI {
    fn from(value: Patch) -> (ui: PatchUI) {
        PatchUI {
            osc_1: OscillatorCfg {
                waveform: value.osc1_waveform,
                coarse: value.osc1_coarse,
                fine: value.osc1_fine,
                gain: value.osc1_gain,
            },
            osc_2: OscillatorCfg {
                waveform: value.osc2_waveform,
                coarse: value.osc2_coarse,
                fine: value.osc2_fine,
                gain: value.osc2_gain,
            },
            osc_3: OscillatorCfg {
                waveform: value.osc3_waveform,
                coarse: value.osc3_coarse,
                fine: value.osc3_fine,
                gain: value.osc3_gain,
            },
            filter: FilterCfg {
                filter_type: value.filter_mode,
                envelope: EnvelopeCfg {
                    attack: value.filter_attack,
                    decay: value.filter_decay,
                    sustain: value.filter_sustain,
                    release: value.filter_release,
                },
                cutoff: value.filter_cutoff,
                resonance: value.filter_resonance,
                emphasis: value.filter_emphasis,
            },
            amp: AmplConfig {
                gain: value.amp_gain,
                envelope: EnvelopeCfg {
                    attack: value.amp_attack,
                    decay: value.amp_decay,
                    sustain: value.amp_sustain,
                    release: value.amp_release,
                },
            },
        }
    }
}

impl FromSpecImpl<Patch> for PatchUI {
    open spec fn obeys_from_spec() -> bool {
        true
    }

    open spec fn from_spec(value: Patch) -> PatchUI {
        PatchUI::showing(value)
    }
}

/// A snapshot loses nothing on its way to the surface: the surface that
/// shows a snapshot holds every field of it, and no two snapshots are shown
/// alike.
pub proof fn law_surface_holds_snapshot(patch: Patch, other: Patch)
    ensures
        PatchUI::showing(patch).snapshot() == patch,
        PatchUI::showing(patch) == PatchUI::showing(other) ==> patch == other,
{
    assert(PatchUI::showing(other).snapshot() == other);
}

} // verus!
