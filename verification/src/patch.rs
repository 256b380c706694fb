//! The snapshot of the whole parameter set that the engine pushes back.
//!
//! A snapshot is seventy-six bytes. Every field is four bytes wide or sits in
//! a four-byte slot padded with reserved bytes, so each 32-bit field starts at
//! a multiple of four:
//!
//! | bytes      | field                                              |
//! |------------|----------------------------------------------------|
//! | 0..8       | oscillator 1: waveform, coarse, fine, gain, reserved |
//! | 8..16      | oscillator 2, likewise                             |
//! | 16..24     | oscillator 3, likewise                             |
//! | 24..28     | filter mode                                        |
//! | 28..44     | filter attack, decay, sustain, release             |
//! | 44..48     | filter cutoff                                      |
//! | 48..52     | filter resonance, three bytes reserved             |
//! | 52..56     | filter emphasis                                    |
//! | 56..60     | amplifier gain, three bytes reserved               |
//! | 60..76     | amplifier attack, decay, sustain, release          |
//!
//! A buffer of any other length is no snapshot. A buffer of this length is
//! always one: the fields are taken as they come, floats as their 32 bits and
//! enumerations as their codes, and nothing is checked against a range.
//! Reserved bytes are written as zero and not read.

use vstd::prelude::*;
use crate::wire::{
    byte_i8, byte_to_i8, i8_byte, i8_to_byte, lemma_i8_round_trip, lemma_u32_bytes_of_read,
    lemma_u32_round_trip, put_bytes, put_u32, read_u32, u32_at, u32_bytes,
};

verus! {

/// The length of a snapshot in bytes.
pub const PATCH_SIZE: usize = 76;

/// The complete parameter set of the engine. Waveforms and the filter mode
/// are held as their wire codes, floats as their 32 bits.
#[derive(Clone, Copy, Debug, PartialEq, Eq, Structural)]
pub struct Patch {
    pub osc1_waveform: u32,
    pub osc1_coarse: i8,
    pub osc1_fine: i8,
    pub osc1_gain: i8,
    pub osc2_waveform: u32,
    pub osc2_coarse: i8,
    pub osc2_fine: i8,
    pub osc2_gain: i8,
    pub osc3_waveform: u32,
    pub osc3_coarse: i8,
    pub osc3_fine: i8,
    pub osc3_gain: i8,
    pub filter_mode: u32,
    pub filter_attack: u32,
    pub filter_decay: u32,
    pub filter_sustain: u32,
    pub filter_release: u32,
    pub filter_cutoff: u32,
    pub filter_resonance: u8,
    pub filter_emphasis: u32,
    pub amp_gain: i8,
    pub amp_attack: u32,
    pub amp_decay: u32,
    pub amp_sustain: u32,
    pub amp_release: u32,
}

/// Whether the byte at index `at` of a snapshot is reserved.
pub open spec fn reserved(at: int) -> bool {
    at == 7 || at == 15 || at == 23 || 49 <= at < 52 || 57 <= at < 60
}

/// The eight bytes of one oscillator: its waveform, its three signed bytes
/// and one reserved byte.
pub open spec fn oscillator_image(waveform: u32, coarse: i8, fine: i8, gain: i8) -> Seq<u8> {
    u32_bytes(waveform) + seq![i8_byte(coarse), i8_byte(fine), i8_byte(gain), 0u8]
}

/// The sixteen bytes of one envelope: its four stages in order.
pub open spec fn envelope_image(attack: u32, decay: u32, sustain: u32, release: u32) -> Seq<u8> {
    u32_bytes(attack) + u32_bytes(decay) + u32_bytes(sustain) + u32_bytes(release)
}

impl Patch {
    /// The seventy-six bytes of the snapshot, reserved bytes zero.
    pub open spec fn image(self) -> Seq<u8> {
        oscillator_image(self.osc1_waveform, self.osc1_coarse, self.osc1_fine, self.osc1_gain)
            + oscillator_image(
            self.osc2_waveform,
            self.osc2_coarse,
            self.osc2_fine,
            self.osc2_gain,
        ) + oscillator_image(self.osc3_waveform, self.osc3_coarse, self.osc3_fine, self.osc3_gain)
            + self.filter_image() + self.amplifier_image()
    }

    /// The thirty-two bytes of the filter section.
    pub open spec fn filter_image(self) -> Seq<u8> {
        u32_bytes(self.filter_mode) + envelope_image(
            self.filter_attack,
            self.filter_decay,
            self.filter_sustain,
            self.filter_release,
        ) + u32_bytes(self.filter_cutoff) + seq![self.filter_resonance, 0u8, 0u8, 0u8] + u32_bytes(
            self.filter_emphasis,
        )
    }

    /// The twenty bytes of the amplifier section.
    pub open spec fn amplifier_image(self) -> Seq<u8> {
        seq![i8_byte(self.amp_gain), 0u8, 0u8, 0u8] + envelope_image(
            self.amp_attack,
            self.amp_decay,
            self.amp_sustain,
            self.amp_release,
        )
    }

    /// The snapshot that a buffer holds: none unless the buffer has exactly
    /// the length of a snapshot, and then each field as it stands at its
    /// offset.
    pub open spec fn parse(bytes: Seq<u8>) -> Option<Patch> {
        if bytes.len() != PATCH_SIZE {
            None
        } else {
            Some(
                Patch {
                    osc1_waveform: u32_at(bytes, 0),
                    osc1_coarse: byte_i8(bytes[4]),
                    osc1_fine: byte_i8(bytes[5]),
                    osc1_gain: byte_i8(bytes[6]),
                    osc2_waveform: u32_at(bytes, 8),
                    osc2_coarse: byte_i8(bytes[12]),
                    osc2_fine: byte_i8(bytes[13]),
                    osc2_gain: byte_i8(bytes[14]),
                    osc3_waveform: u32_at(bytes, 16),
                    osc3_coarse: byte_i8(bytes[20]),
                    osc3_fine: byte_i8(bytes[21]),
                    osc3_gain: byte_i8(bytes[22]),
                    filter_mode: u32_at(bytes, 24),
                    filter_attack: u32_at(bytes, 28),
                    filter_decay: u32_at(bytes, 32),
                    filter_sustain: u32_at(bytes, 36),
                    filter_release: u32_at(bytes, 40),
                    filter_cutoff: u32_at(bytes, 44),
                    filter_resonance: bytes[48],
                    filter_emphasis: u32_at(bytes, 52),
                    amp_gain: byte_i8(bytes[56]),
                    amp_attack: u32_at(bytes, 60),
                    amp_decay: u32_at(bytes, 64),
                    amp_sustain: u32_at(bytes, 68),
                    amp_release: u32_at(bytes, 72),
                },
            )
        }
    }

    /// Decodes a received buffer. A buffer whose length is not that of a
    /// snapshot is discarded whole; no byte beyond the buffer is read.
    pub fn from_bytes(bytes: &[u8]) -> (patch: Option<Patch>)
        ensures
            patch == Patch::parse(bytes@),
    {
        if bytes.len() != PATCH_SIZE {
            return None;
        }
        Some(
            Patch {
                osc1_waveform: read_u32(bytes, 0),
                osc1_coarse: byte_to_i8(bytes[4]),
                osc1_fine: byte_to_i8(bytes[5]),
                osc1_gain: byte_to_i8(bytes[6]),
                osc2_waveform: read_u32(bytes, 8),
                osc2_coarse: byte_to_i8(bytes[12]),
                osc2_fine: byte_to_i8(bytes[13]),
                osc2_gain: byte_to_i8(bytes[14]),
                osc3_waveform: read_u32(bytes, 16),
                osc3_coarse: byte_to_i8(bytes[20]),
                osc3_fine: byte_to_i8(bytes[21]),
                osc3_gain: byte_to_i8(bytes[22]),
                filter_mode: read_u32(bytes, 24),
                filter_attack: read_u32(bytes, 28),
                filter_decay: read_u32(bytes, 32),
                filter_sustain: read_u32(bytes, 36),
                filter_release: read_u32(bytes, 40),
                filter_cutoff: read_u32(bytes, 44),
                filter_resonance: bytes[48],
                filter_emphasis: read_u32(bytes, 52),
                amp_gain: byte_to_i8(bytes[56]),
                amp_attack: read_u32(bytes, 60),
                amp_decay: read_u32(bytes, 64),
                amp_sustain: read_u32(bytes, 68),
                amp_release: read_u32(bytes, 72),
            },
        )
    }

    /// Writes the snapshot out field by field.
    pub fn to_bytes(&self) -> (bytes: Vec<u8>)
        ensures
            bytes@ == self.image(),
            bytes@.len() == PATCH_SIZE,
    {
        let mut bytes: Vec<u8> = Vec::with_capacity(PATCH_SIZE);
        assert(bytes@ + u32_bytes(self.osc1_waveform) =~= u32_bytes(self.osc1_waveform));
        put_u32(&mut bytes, self.osc1_waveform);
        put_bytes(
            &mut bytes,
            i8_to_byte(self.osc1_coarse),
            i8_to_byte(self.osc1_fine),
            i8_to_byte(self.osc1_gain),
            0,
        );
        put_u32(&mut bytes, self.osc2_waveform);
        put_bytes(
            &mut bytes,
            i8_to_byte(self.osc2_coarse),
            i8_to_byte(self.osc2_fine),
            i8_to_byte(self.osc2_gain),
            0,
        );
        put_u32(&mut bytes, self.osc3_waveform);
        put_bytes(
            &mut bytes,
            i8_to_byte(self.osc3_coarse),
            i8_to_byte(self.osc3_fine),
            i8_to_byte(self.osc3_gain),
            0,
        );
        put_u32(&mut bytes, self.filter_mode);
        put_u32(&mut bytes, self.filter_attack);
        put_u32(&mut bytes, self.filter_decay);
        put_u32(&mut bytes, self.filter_sustain);
        put_u32(&mut bytes, self.filter_release);
        put_u32(&mut bytes, self.filter_cutoff);
        put_bytes(&mut bytes, self.filter_resonance, 0, 0, 0);
        put_u32(&mut bytes, self.filter_emphasis);
        put_bytes(&mut bytes, i8_to_byte(self.amp_gain), 0, 0, 0);
        put_u32(&mut bytes, self.amp_attack);
        put_u32(&mut bytes, self.amp_decay);
        put_u32(&mut bytes, self.amp_sustain);
        put_u32(&mut bytes, self.amp_release);
        bytes
    }
}

/// Decoding recovers every field: the image of a snapshot has the length of
/// a snapshot and is parsed back to the snapshot it came from.
pub proof fn law_patch_round_trip(patch: Patch)
    ensures
        patch.image().len() == PATCH_SIZE,
        Patch::parse(patch.image()) == Some(patch),
{
    lemma_sections_of_image(patch);
    lemma_parse_of_sections(patch.image(), patch);
}

/// A buffer in which each section of a snapshot stands at its place holds
/// that snapshot, whatever its reserved bytes are.
pub proof fn law_sections_decide(bytes: Seq<u8>, patch: Patch)
    requires
        bytes.len() == PATCH_SIZE,
        forall|at: int| 0 <= at < PATCH_SIZE && !reserved(at) ==> bytes[at] == patch.image()[at],
    ensures
        Patch::parse(bytes) == Some(patch),
{
    let image = patch.image();
    lemma_sections_of_image(patch);
    lemma_parse_of_sections(image, patch);
    assert(Patch::parse(bytes).unwrap() == Patch::parse(image).unwrap()) by {
        assert(!reserved(0) && !reserved(1) && !reserved(2) && !reserved(3));
        assert(!reserved(4) && !reserved(5) && !reserved(6));
        assert(!reserved(8) && !reserved(9) && !reserved(10) && !reserved(11));
        assert(!reserved(12) && !reserved(13) && !reserved(14));
        assert(!reserved(16) && !reserved(17) && !reserved(18) && !reserved(19));
        assert(!reserved(20) && !reserved(21) && !reserved(22));
        assert(!reserved(24) && !reserved(25) && !reserved(26) && !reserved(27));
        assert(!reserved(28) && !reserved(29) && !reserved(30) && !reserved(31));
        assert(!reserved(32) && !reserved(33) && !reserved(34) && !reserved(35));
        assert(!reserved(36) && !reserved(37) && !reserved(38) && !reserved(39));
        assert(!reserved(40) && !reserved(41) && !reserved(42) && !reserved(43));
        assert(!reserved(44) && !reserved(45) && !reserved(46) && !reserved(47));
        assert(!reserved(48));
        assert(!reserved(52) && !reserved(53) && !reserved(54) && !reserved(55));
        assert(!reserved(56));
        assert(!reserved(60) && !reserved(61) && !reserved(62) && !reserved(63));
        assert(!reserved(64) && !reserved(65) && !reserved(66) && !reserved(67));
        assert(!reserved(68) && !reserved(69) && !reserved(70) && !reserved(71));
        assert(!reserved(72) && !reserved(73) && !reserved(74) && !reserved(75));
    }
}

/// A buffer of any length but that of a snapshot holds none.
pub proof fn law_other_lengths_hold_nothing(bytes: Seq<u8>)
    requires
        bytes.len() != PATCH_SIZE,
    ensures
        Patch::parse(bytes) is None,
{
}

/// A buffer of the length of a snapshot always holds one, and writing that
/// snapshot out gives the buffer back byte for byte, but for the reserved
/// bytes, which come out as zero.
pub proof fn law_image_of_parsed(bytes: Seq<u8>)
    requires
        bytes.len() == PATCH_SIZE,
    ensures
        Patch::parse(bytes) is Some,
        Patch::parse(bytes).unwrap().image().len() == PATCH_SIZE,
        forall|at: int|
            0 <= at < PATCH_SIZE ==> #[trigger] Patch::parse(bytes).unwrap().image()[at] == (if reserved(
                at,
            ) {
                0u8
            } else {
                bytes[at]
            }),
{
    let patch = Patch::parse(bytes).unwrap();
    let image = patch.image();
    lemma_sections_of_image(patch);
    lemma_oscillator_written(bytes, 0);
    lemma_oscillator_written(bytes, 8);
    lemma_oscillator_written(bytes, 16);
    let filter = patch.filter_image();
    lemma_u32_bytes_of_read(bytes, 24);
    lemma_envelope_written(bytes, 28);
    lemma_u32_bytes_of_read(bytes, 44);
    lemma_u32_bytes_of_read(bytes, 52);
    assert(filter.len() == 32);
    assert forall|k: int| 0 <= k < 32 implies #[trigger] filter[k] == (if 25 <= k < 28 {
        0u8
    } else {
        bytes[24 + k]
    }) by {
        if k < 4 {
            assert(filter[k] == u32_bytes(patch.filter_mode)[k]);
            assert(bytes.subrange(24, 28)[k] == bytes[24 + k]);
        } else if k < 20 {
            assert(filter[k] == envelope_image(
                patch.filter_attack,
                patch.filter_decay,
                patch.filter_sustain,
                patch.filter_release,
            )[k - 4]);
            assert(bytes.subrange(28, 44)[k - 4] == bytes[24 + k]);
        } else if k < 24 {
            assert(filter[k] == u32_bytes(patch.filter_cutoff)[k - 20]);
            assert(bytes.subrange(44, 48)[k - 20] == bytes[24 + k]);
        } else if k < 28 {
        } else {
            assert(filter[k] == u32_bytes(patch.filter_emphasis)[k - 28]);
            assert(bytes.subrange(52, 56)[k - 28] == bytes[24 + k]);
        }
    }
    let amplifier = patch.amplifier_image();
    lemma_i8_round_trip(0, bytes[56]);
    lemma_envelope_written(bytes, 60);
    assert(amplifier.len() == 20);
    assert forall|k: int| 0 <= k < 20 implies #[trigger] amplifier[k] == (if 1 <= k < 4 {
        0u8
    } else {
        bytes[56 + k]
    }) by {
        if k >= 4 {
            assert(amplifier[k] == envelope_image(
                patch.amp_attack,
                patch.amp_decay,
                patch.amp_sustain,
                patch.amp_release,
            )[k - 4]);
            assert(bytes.subrange(60, 76)[k - 4] == bytes[56 + k]);
        }
    }
    assert forall|at: int| 0 <= at < PATCH_SIZE implies #[trigger] image[at] == (if reserved(at) {
        0u8
    } else {
        bytes[at]
    }) by {
        if at < 8 {
            assert(image[at] == image.subrange(0, 8)[at]);
            assert(bytes.subrange(0, 8)[at] == bytes[at]);
        } else if at < 16 {
            assert(image[at] == image.subrange(8, 16)[at - 8]);
            assert(bytes.subrange(8, 16)[at - 8] == bytes[at]);
        } else if at < 24 {
            assert(image[at] == image.subrange(16, 24)[at - 16]);
            assert(bytes.subrange(16, 24)[at - 16] == bytes[at]);
        } else if at < 56 {
            assert(image[at] == image.subrange(24, 56)[at - 24]);
            assert(image[at] == filter[at - 24]);
        } else {
            assert(image[at] == image.subrange(56, 76)[at - 56]);
            assert(image[at] == amplifier[at - 56]);
        }
    }
}

/// A buffer in which the five sections stand at their places is parsed to
/// the snapshot they belong to.
proof fn lemma_parse_of_sections(bytes: Seq<u8>, patch: Patch)
    requires
        bytes.len() == PATCH_SIZE,
        bytes.subrange(0, 8) == oscillator_image(
            patch.osc1_waveform,
            patch.osc1_coarse,
            patch.osc1_fine,
            patch.osc1_gain,
        ),
        bytes.subrange(8, 16) == oscillator_image(
            patch.osc2_waveform,
            patch.osc2_coarse,
            patch.osc2_fine,
            patch.osc2_gain,
        ),
        bytes.subrange(16, 24) == oscillator_image(
            patch.osc3_waveform,
            patch.osc3_coarse,
            patch.osc3_fine,
            patch.osc3_gain,
        ),
        bytes.subrange(24, 56) == patch.filter_image(),
        bytes.subrange(56, 76) == patch.amplifier_image(),
    ensures
        Patch::parse(bytes) == Some(patch),
{
    lemma_oscillator_read(bytes, 0, patch.osc1_waveform, patch.osc1_coarse, patch.osc1_fine, patch.osc1_gain);
    lemma_oscillator_read(bytes, 8, patch.osc2_waveform, patch.osc2_coarse, patch.osc2_fine, patch.osc2_gain);
    lemma_oscillator_read(bytes, 16, patch.osc3_waveform, patch.osc3_coarse, patch.osc3_fine, patch.osc3_gain);
    lemma_filter_read(bytes, patch);
    lemma_amplifier_read(bytes, patch);
}

/// The fields of the filter are read from where its thirty-two bytes stand.
proof fn lemma_filter_read(bytes: Seq<u8>, patch: Patch)
    requires
        bytes.len() == PATCH_SIZE,
        bytes.subrange(24, 56) == patch.filter_image(),
    ensures
        u32_at(bytes, 24) == patch.filter_mode,
        u32_at(bytes, 28) == patch.filter_attack,
        u32_at(bytes, 32) == patch.filter_decay,
        u32_at(bytes, 36) == patch.filter_sustain,
        u32_at(bytes, 40) == patch.filter_release,
        u32_at(bytes, 44) == patch.filter_cutoff,
        bytes[48] == patch.filter_resonance,
        u32_at(bytes, 52) == patch.filter_emphasis,
{
    let block = bytes.subrange(24, 56);
    let envelope = envelope_image(
        patch.filter_attack,
        patch.filter_decay,
        patch.filter_sustain,
        patch.filter_release,
    );
    assert(envelope.len() == 16);
    assert(block.len() == 32);
    assert(block.subrange(0, 4) =~= u32_bytes(patch.filter_mode));
    assert(block.subrange(4, 20) =~= envelope);
    assert(block.subrange(20, 24) =~= u32_bytes(patch.filter_cutoff));
    assert(block.subrange(28, 32) =~= u32_bytes(patch.filter_emphasis));
    assert(block[24] == patch.filter_resonance);
    assert(block[24] == bytes[48]);
    lemma_window(bytes, 24, 56, 0, 4);
    lemma_window(bytes, 24, 56, 4, 20);
    lemma_window(bytes, 24, 56, 20, 24);
    lemma_window(bytes, 24, 56, 28, 32);
    lemma_field_read(bytes, 24, patch.filter_mode);
    lemma_envelope_read(
        bytes,
        28,
        patch.filter_attack,
        patch.filter_decay,
        patch.filter_sustain,
        patch.filter_release,
    );
    lemma_field_read(bytes, 44, patch.filter_cutoff);
    lemma_field_read(bytes, 52, patch.filter_emphasis);
}

/// The fields of the amplifier are read from where its twenty bytes stand.
proof fn lemma_amplifier_read(bytes: Seq<u8>, patch: Patch)
    requires
        bytes.len() == PATCH_SIZE,
        bytes.subrange(56, 76) == patch.amplifier_image(),
    ensures
        byte_i8(bytes[56]) == patch.amp_gain,
        u32_at(bytes, 60) == patch.amp_attack,
        u32_at(bytes, 64) == patch.amp_decay,
        u32_at(bytes, 68) == patch.amp_sustain,
        u32_at(bytes, 72) == patch.amp_release,
{
    let block = bytes.subrange(56, 76);
    let envelope = envelope_image(
        patch.amp_attack,
        patch.amp_decay,
        patch.amp_sustain,
        patch.amp_release,
    );
    assert(envelope.len() == 16);
    assert(block.len() == 20);
    assert(block.subrange(4, 20) =~= envelope);
    assert(block[0] == i8_byte(patch.amp_gain));
    assert(block[0] == bytes[56]);
    lemma_i8_round_trip(patch.amp_gain, 0);
    lemma_window(bytes, 56, 76, 4, 20);
    lemma_envelope_read(
        bytes,
        60,
        patch.amp_attack,
        patch.amp_decay,
        patch.amp_sustain,
        patch.amp_release,
    );
}

/// Where each section stands in the image.
proof fn lemma_sections_of_image(patch: Patch)
    ensures
        patch.image().len() == PATCH_SIZE,
        patch.image().subrange(0, 8) == oscillator_image(
            patch.osc1_waveform,
            patch.osc1_coarse,
            patch.osc1_fine,
            patch.osc1_gain,
        ),
        patch.image().subrange(8, 16) == oscillator_image(
            patch.osc2_waveform,
            patch.osc2_coarse,
            patch.osc2_fine,
            patch.osc2_gain,
        ),
        patch.image().subrange(16, 24) == oscillator_image(
            patch.osc3_waveform,
            patch.osc3_coarse,
            patch.osc3_fine,
            patch.osc3_gain,
        ),
        patch.image().subrange(24, 56) == patch.filter_image(),
        patch.image().subrange(56, 76) == patch.amplifier_image(),
{
    let image = patch.image();
    let o1 = oscillator_image(patch.osc1_waveform, patch.osc1_coarse, patch.osc1_fine, patch.osc1_gain);
    let o2 = oscillator_image(patch.osc2_waveform, patch.osc2_coarse, patch.osc2_fine, patch.osc2_gain);
    let o3 = oscillator_image(patch.osc3_waveform, patch.osc3_coarse, patch.osc3_fine, patch.osc3_gain);
    let filter = patch.filter_image();
    let amplifier = patch.amplifier_image();
    assert(o1.len() == 8 && o2.len() == 8 && o3.len() == 8);
    assert(filter.len() == 32);
    assert(amplifier.len() == 20);
    assert(image.subrange(0, 8) =~= o1);
    assert(image.subrange(8, 16) =~= o2);
    assert(image.subrange(16, 24) =~= o3);
    assert(image.subrange(24, 56) =~= filter);
    assert(image.subrange(56, 76) =~= amplifier);
}

/// A part of a part of a buffer is a part of the buffer.
proof fn lemma_window(bytes: Seq<u8>, from: int, to: int, a: int, b: int)
    requires
        0 <= from <= to <= bytes.len(),
        0 <= a <= b <= to - from,
    ensures
        bytes.subrange(from, to).subrange(a, b) == bytes.subrange(from + a, from + b),
{
    assert(bytes.subrange(from, to).subrange(a, b) =~= bytes.subrange(from + a, from + b));
}

/// A 32-bit field is read from where its four bytes stand.
proof fn lemma_field_read(bytes: Seq<u8>, at: int, field: u32)
    requires
        0 <= at,
        at + 4 <= bytes.len(),
        bytes.subrange(at, at + 4) == u32_bytes(field),
    ensures
        u32_at(bytes, at) == field,
{
    lemma_u32_round_trip(field);
    let part = bytes.subrange(at, at + 4);
    assert(part[0] == bytes[at]);
    assert(part[1] == bytes[at + 1]);
    assert(part[2] == bytes[at + 2]);
    assert(part[3] == bytes[at + 3]);
}

/// The fields of an oscillator are read from where its eight bytes stand.
proof fn lemma_oscillator_read(bytes: Seq<u8>, at: int, waveform: u32, coarse: i8, fine: i8, gain: i8)
    requires
        0 <= at,
        at + 8 <= bytes.len(),
        bytes.subrange(at, at + 8) == oscillator_image(waveform, coarse, fine, gain),
    ensures
        u32_at(bytes, at) == waveform,
        byte_i8(bytes[at + 4]) == coarse,
        byte_i8(bytes[at + 5]) == fine,
        byte_i8(bytes[at + 6]) == gain,
{
    let block = bytes.subrange(at, at + 8);
    assert(block.subrange(0, 4) =~= u32_bytes(waveform));
    lemma_window(bytes, at, at + 8, 0, 4);
    lemma_field_read(bytes, at, waveform);
    assert(block[4] == bytes[at + 4] && block[5] == bytes[at + 5] && block[6] == bytes[at + 6]);
    lemma_i8_round_trip(coarse, 0);
    lemma_i8_round_trip(fine, 0);
    lemma_i8_round_trip(gain, 0);
}

/// The stages of an envelope are read from where its sixteen bytes stand.
proof fn lemma_envelope_read(bytes: Seq<u8>, at: int, attack: u32, decay: u32, sustain: u32, release: u32)
    requires
        0 <= at,
        at + 16 <= bytes.len(),
        bytes.subrange(at, at + 16) == envelope_image(attack, decay, sustain, release),
    ensures
        u32_at(bytes, at) == attack,
        u32_at(bytes, at + 4) == decay,
        u32_at(bytes, at + 8) == sustain,
        u32_at(bytes, at + 12) == release,
{
    let block = bytes.subrange(at, at + 16);
    assert(block.subrange(0, 4) =~= u32_bytes(attack));
    assert(block.subrange(4, 8) =~= u32_bytes(decay));
    assert(block.subrange(8, 12) =~= u32_bytes(sustain));
    assert(block.subrange(12, 16) =~= u32_bytes(release));
    lemma_window(bytes, at, at + 16, 0, 4);
    lemma_window(bytes, at, at + 16, 4, 8);
    lemma_window(bytes, at, at + 16, 8, 12);
    lemma_window(bytes, at, at + 16, 12, 16);
    lemma_field_read(bytes, at, attack);
    lemma_field_read(bytes, at + 4, decay);
    lemma_field_read(bytes, at + 8, sustain);
    lemma_field_read(bytes, at + 12, release);
}

/// The image of the oscillator read from eight bytes is those bytes, but
/// for the reserved one.
proof fn lemma_oscillator_written(bytes: Seq<u8>, at: int)
    requires
        0 <= at,
        at + 8 <= bytes.len(),
    ensures
        oscillator_image(
            u32_at(bytes, at),
            byte_i8(bytes[at + 4]),
            byte_i8(bytes[at + 5]),
            byte_i8(bytes[at + 6]),
        ) == bytes.subrange(at, at + 8).update(7, 0u8),
{
    lemma_u32_bytes_of_read(bytes, at);
    lemma_i8_round_trip(0, bytes[at + 4]);
    lemma_i8_round_trip(0, bytes[at + 5]);
    lemma_i8_round_trip(0, bytes[at + 6]);
    let block = oscillator_image(
        u32_at(bytes, at),
        byte_i8(bytes[at + 4]),
        byte_i8(bytes[at + 5]),
        byte_i8(bytes[at + 6]),
    );
    assert(block.len() == 8);
    assert forall|k: int| 0 <= k < 8 implies block[k] == bytes.subrange(at, at + 8).update(7, 0u8)[k] by {
        if k < 4 {
            assert(block[k] == bytes.subrange(at, at + 4)[k]);
        }
    }
    assert(block =~= bytes.subrange(at, at + 8).update(7, 0u8));
}

/// The image of the envelope read from sixteen bytes is those bytes.
proof fn lemma_envelope_written(bytes: Seq<u8>, at: int)
    requires
        0 <= at,
        at + 16 <= bytes.len(),
    ensures
        envelope_image(
            u32_at(bytes, at),
            u32_at(bytes, at + 4),
            u32_at(bytes, at + 8),
            u32_at(bytes, at + 12),
        ) == bytes.subrange(at, at + 16),
{
    lemma_u32_bytes_of_read(bytes, at);
    lemma_u32_bytes_of_read(bytes, at + 4);
    lemma_u32_bytes_of_read(bytes, at + 8);
    lemma_u32_bytes_of_read(bytes, at + 12);
    let block = envelope_image(
        u32_at(bytes, at),
        u32_at(bytes, at + 4),
        u32_at(bytes, at + 8),
        u32_at(bytes, at + 12),
    );
    assert(block.len() == 16);
    assert forall|k: int| 0 <= k < 16 implies block[k] == bytes.subrange(at, at + 16)[k] by {
        if k < 4 {
            assert(block[k] == bytes.subrange(at, at + 4)[k]);
        } else if k < 8 {
            assert(block[k] == bytes.subrange(at + 4, at + 8)[k - 4]);
        } else if k < 12 {
            assert(block[k] == bytes.subrange(at + 8, at + 12)[k - 8]);
        } else {
            assert(block[k] == bytes.subrange(at + 12, at + 16)[k - 12]);
        }
    }
    assert(block =~= bytes.subrange(at, at + 16));
}

} // verus!
